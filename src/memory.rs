use vstd::prelude::*;
use crate::geometry::Point;
use crate::level::Level;
use crate::log::{told, Log};
use crate::names::{a_or_an, color_label, color_name, punctuation_label, punctuation_name, with_article};
use crate::sprite::{byte_sprite, Sprite};
use crate::monster::{Kind, Monster};
use crate::player::Player;
use crate::world::World;

verus! {

// The memory map: 64 byte addresses over the state of the world, which the
// player's spells read and write.
/// Color class (bits 7 to 5) and character offset from `!` (bits 4 to 0).
pub const PLAYER_APPEARANCE: u8 = 0x00;

/// Fifteen character codes of the player's name.
pub const PLAYER_NAME: u8 = 0x01;

/// Five monster records of three bytes: flags, position, hit points.
pub const MONSTERS: u8 = 0x10;

pub const MONSTER_FLAGS: u8 = 0;

pub const MONSTER_POSITION: u8 = 1;

pub const MONSTER_HP: u8 = 2;

/// One bit for each of the eight spells.
pub const SPELL_MEMORY: u8 = 0x1f;

/// Four bytes of identification flags, not kept yet: they read 0.
pub const IDENTIFICATION: u8 = 0x20;

/// Poison, haste, charge and protect timers.
pub const TIMERS: u8 = 0x24;

/// Eight inventory slots.
pub const INVENTORY: u8 = 0x28;

pub const DOOR_APPEARANCE: u8 = 0x30;

pub const WALL_APPEARANCE: u8 = 0x31;

/// Unused: reads 0.
pub const FLOOR_COLOR: u8 = 0x32;

/// Added to or taken from the depth on the stairs; normally 1.
pub const STAIRS_DELTA: u8 = 0x33;

/// Added to each running timer each turn; normally 0xff.
pub const TIMER_DELTA: u8 = 0x34;

/// Signed, added to each damage roll; normally 0.
pub const DAMAGE_OFFSET: u8 = 0x35;

/// Reserved: reads 0.
pub const RESERVED_A: u8 = 0x36;

/// Reserved: reads 0.
pub const RESERVED_B: u8 = 0x37;

/// The higher, the more the text is garbled.
pub const TEXT_SYNC: u8 = 0x38;

pub const PLAYER_HP: u8 = 0x39;

pub const PLAYER_TP: u8 = 0x3a;

/// Experience level (bits 7 to 4) and signed defense (bits 3 to 0).
pub const PLAYER_XLDEF: u8 = 0x3b;

pub const PLAYER_POSITION: u8 = 0x3c;

pub const PLAYER_DEPTH: u8 = 0x3d;

/// Signed metal (bits 7 to 4) and acid (bits 3 to 0) aptitudes.
pub const METAL_ACID_RESISTANCE: u8 = 0x3e;

/// Signed fire (bits 7 to 4) and electric (bits 3 to 0) aptitudes.
pub const FIRE_ELEC_RESISTANCE: u8 = 0x3f;

/// The number of addresses.
pub const MEMORY_SIZE: u8 = 0x40;

/// The low four bits of `b` read as a signed number, -8 to 7.
pub open spec fn low_signed(b: u8) -> i8 {
    let n = b & 0x0f;
    if n >= 8 {
        (n - 16) as i8
    } else {
        n as i8
    }
}

/// The high four bits of `b` read as a signed number, -8 to 7.
pub open spec fn high_signed(b: u8) -> i8 {
    let n = b >> 4u8;
    if n >= 8 {
        (n - 16) as i8
    } else {
        n as i8
    }
}

/// `hi` in the high four bits and the low four bits of `lo` in the low ones.
pub open spec fn pack_nibbles(hi: i8, lo: i8) -> u8 {
    ((hi as u8) << 4u8) | ((lo as u8) & 0x0f)
}

/// The low four bits read as a signed number: shifted to the top of the byte,
/// then shifted back arithmetically, which extends the sign.
pub fn upcast_i4(the_i4: u8) -> (r: i8)
    ensures
        r == low_signed(the_i4),
        -8 <= r <= 7,
{
    let shifted = (the_i4 << 4u8) as i8;
    let r = shifted >> 4u8;
    assert(r == low_signed(the_i4) && -8 <= r <= 7) by (bit_vector)
        requires
            shifted == (the_i4 << 4u8) as i8,
            r == shifted >> 4u8,
    ;
    r
}

/// The high four bits read as a signed number.
fn downcast_high(value: u8) -> (r: i8)
    ensures
        r == high_signed(value),
        -8 <= r <= 7,
{
    let signed = value as i8;
    let r = signed >> 4u8;
    assert(r == high_signed(value) && -8 <= r <= 7) by (bit_vector)
        requires
            signed == value as i8,
            r == signed >> 4u8,
    ;
    r
}

fn pack(hi: i8, lo: i8) -> (r: u8)
    ensures
        r == pack_nibbles(hi, lo),
{
    ((hi as u8) << 4u8) | ((lo as u8) & 0x0f)
}

pub open spec fn flag_bit(b: bool, mask: u8) -> u8 {
    if b {
        mask
    } else {
        0
    }
}

/// Kind in bits 7 to 4; charged, vulnerable, venomous and corrupted in bits 3 to 0.
pub open spec fn monster_flags(m: Monster) -> u8 {
    (m.kind.nibble() << 4u8) | flag_bit(m.charged, 8) | flag_bit(m.vulnerable, 4) | flag_bit(
        m.venomous,
        2,
    ) | flag_bit(m.corrupted, 1)
}

/// Byte `offset` of a monster record.
pub open spec fn monster_byte(m: Monster, offset: int) -> u8 {
    if offset == 0 {
        monster_flags(m)
    } else if offset == 1 {
        m.position.index_spec() as u8
    } else {
        m.hp
    }
}

/// A monster record after byte `offset` is written with `v`.
pub open spec fn monster_written(m: Monster, offset: int, v: u8) -> Monster {
    if offset == 0 {
        Monster {
            kind: choose|k: Kind| k.nibble() == v >> 4u8,
            charged: v & 8 != 0,
            vulnerable: v & 4 != 0,
            venomous: v & 2 != 0,
            corrupted: v & 1 != 0,
            ..m
        }
    } else if offset == 1 {
        Monster { position: Point::of_index(v as int), ..m }
    } else {
        Monster { hp: v, ..m }
    }
}

/// The mask of spell `i`.
pub open spec fn spell_bit(i: int) -> u8 {
    if i == 0 {
        1
    } else if i == 1 {
        2
    } else if i == 2 {
        4
    } else if i == 3 {
        8
    } else if i == 4 {
        16
    } else if i == 5 {
        32
    } else if i == 6 {
        64
    } else {
        128
    }
}

/// One bit for each known spell.
pub open spec fn spell_mask(s: [bool; 8]) -> u8 {
    flag_bit(s@[0], 1) | flag_bit(s@[1], 2) | flag_bit(s@[2], 4) | flag_bit(s@[3], 8) | flag_bit(
        s@[4],
        16,
    ) | flag_bit(s@[5], 32) | flag_bit(s@[6], 64) | flag_bit(s@[7], 128)
}

/// The byte at address `a`.
pub open spec fn read_spec(w: World, a: u8) -> u8 {
    let p = w.player;
    if a == PLAYER_APPEARANCE {
        w.player_appearance_byte
    } else if a < MONSTERS {
        p.name@[a - PLAYER_NAME]
    } else if a < SPELL_MEMORY {
        match p.level_index(w.dungeon@) {
            Some(li) => monster_byte(
                w.dungeon@[li].monsters@[(a - MONSTERS) / 3],
                (a - MONSTERS) % 3,
            ),
            None => 0,
        }
    } else if a == SPELL_MEMORY {
        spell_mask(p.spell_memory)
    } else if a < TIMERS {
        0
    } else if a < INVENTORY {
        p.timer@[a - TIMERS]
    } else if a < DOOR_APPEARANCE {
        p.inventory.slots@[a - INVENTORY].byte
    } else if a == DOOR_APPEARANCE {
        w.door_appearance_byte
    } else if a == WALL_APPEARANCE {
        w.wall_appearance_byte
    } else if a == FLOOR_COLOR {
        0
    } else if a == STAIRS_DELTA {
        p.stairs_delta
    } else if a == TIMER_DELTA {
        p.timer_delta
    } else if a == DAMAGE_OFFSET {
        p.damage_offset as u8
    } else if a == RESERVED_A || a == RESERVED_B {
        0
    } else if a == TEXT_SYNC {
        p.text_sync
    } else if a == PLAYER_HP {
        p.hp
    } else if a == PLAYER_TP {
        p.tp
    } else if a == PLAYER_XLDEF {
        (p.xl << 4u8) | ((p.def as u8) & 0x0f)
    } else if a == PLAYER_POSITION {
        p.position.index_spec() as u8
    } else if a == PLAYER_DEPTH {
        p.depth
    } else if a == METAL_ACID_RESISTANCE {
        pack_nibbles(p.aptitude@[0], p.aptitude@[1])
    } else {
        pack_nibbles(p.aptitude@[2], p.aptitude@[3])
    }
}

/// `w2` is `w` with byte `v` written at address `a`, its log aside.
pub open spec fn poke_spec(w: World, a: u8, v: u8, w2: World) -> bool {
    let p = w.player;
    let p2 = w2.player;
    let same_player = w2 == World { player: p2, log: w2.log, ..w };
    if a == PLAYER_APPEARANCE {
        w2 == World { player_appearance_byte: v, log: w2.log, ..w }
    } else if a < MONSTERS {
        same_player && p2 == Player { name: p2.name, ..p } && p2.name@ == p.name@.update(
            a - PLAYER_NAME,
            v,
        )
    } else if a < SPELL_MEMORY {
        match p.level_index(w.dungeon@) {
            Some(li) => {
                let l = w.dungeon@[li];
                let l2 = w2.dungeon@[li];
                let i = (a - MONSTERS) / 3;
                &&& w2 == World { dungeon: w2.dungeon, log: w2.log, ..w }
                &&& w2.dungeon@ == w.dungeon@.update(li, l2)
                &&& l2 == Level { monsters: l2.monsters, ..l }
                &&& l2.monsters@ == l.monsters@.update(
                    i,
                    monster_written(l.monsters@[i], (a - MONSTERS) % 3, v),
                )
            },
            None => w2 == World { log: w2.log, ..w },
        }
    } else if a == SPELL_MEMORY {
        same_player && p2 == Player { spell_memory: p2.spell_memory, ..p } && forall|i: int|
            0 <= i < 8 ==> #[trigger] p2.spell_memory@[i] == (v & spell_bit(i) != 0)
    } else if a < TIMERS {
        w2 == World { log: w2.log, ..w }
    } else if a < INVENTORY {
        same_player && p2 == Player { timer: p2.timer, ..p } && p2.timer@ == p.timer@.update(
            a - TIMERS,
            v,
        )
    } else if a < DOOR_APPEARANCE {
        same_player && p2 == Player { inventory: p2.inventory, ..p } && p2.inventory.slots@
            == p.inventory.slots@.update(a - INVENTORY, crate::item::InventorySlot { byte: v })
    } else if a == DOOR_APPEARANCE {
        w2 == World { door_appearance_byte: v, log: w2.log, ..w }
    } else if a == WALL_APPEARANCE {
        w2 == World { wall_appearance_byte: v, log: w2.log, ..w }
    } else if a == FLOOR_COLOR || a == RESERVED_A || a == RESERVED_B {
        w2 == World { log: w2.log, ..w }
    } else if a == STAIRS_DELTA {
        same_player && p2 == Player { stairs_delta: v, ..p }
    } else if a == TIMER_DELTA {
        same_player && p2 == Player { timer_delta: v, ..p }
    } else if a == DAMAGE_OFFSET {
        same_player && p2 == Player { damage_offset: v as i8, ..p }
    } else if a == TEXT_SYNC {
        same_player && p2 == Player { text_sync: v, ..p }
    } else if a == PLAYER_HP {
        same_player && p2 == Player { hp: v, ..p }
    } else if a == PLAYER_TP {
        same_player && p2 == Player { tp: v, ..p }
    } else if a == PLAYER_XLDEF {
        same_player && p2 == Player { xl: v >> 4u8, def: low_signed(v), ..p }
    } else if a == PLAYER_POSITION {
        same_player && p2 == Player { position: Point::of_index(v as int), ..p }
    } else if a == PLAYER_DEPTH {
        same_player && p2 == Player { depth: v, ..p }
    } else if a == METAL_ACID_RESISTANCE {
        same_player && p2 == Player { aptitude: p2.aptitude, ..p } && p2.aptitude@
            == p.aptitude@.update(0, high_signed(v)).update(1, low_signed(v))
    } else {
        same_player && p2 == Player { aptitude: p2.aptitude, ..p } && p2.aptitude@
            == p.aptitude@.update(2, high_signed(v)).update(3, low_signed(v))
    }
}

fn monster_read(m: &Monster, offset: u8) -> (r: u8)
    requires
        offset < 3,
        m.position.encodable(),
    ensures
        r == monster_byte(*m, offset as int),
{
    if offset == MONSTER_FLAGS {
        let c: u8 = if m.charged { 8 } else { 0 };
        let v: u8 = if m.vulnerable { 4 } else { 0 };
        let n: u8 = if m.venomous { 2 } else { 0 };
        let x: u8 = if m.corrupted { 1 } else { 0 };
        (m.kind.to_nibble() << 4u8) | c | v | n | x
    } else if offset == MONSTER_POSITION {
        m.position.as_byte()
    } else {
        m.hp
    }
}

/// Reads the byte at `address`.
pub fn peek(world: &World, address: u8) -> (r: u8)
    requires
        world.wf(),
        address < MEMORY_SIZE,
    ensures
        r == read_spec(*world, address),
{
    let player = &world.player;
    match address {
        PLAYER_APPEARANCE => world.player_appearance_byte,
        0x01..=0x0f => player.name[(address - PLAYER_NAME) as usize],
        0x10..=0x1e => {
            if player.depth == 0 {
                0
            } else {
                let level = player.current_level(&world.dungeon);
                let index = (address - MONSTERS) as usize / 3;
                proof {
                    assert(level.wf());
                }
                monster_read(&level.monsters[index], (address - MONSTERS) % 3)
            }
        },
        SPELL_MEMORY => {
            let s = &player.spell_memory;
            let m0: u8 = if s[0] { 1 } else { 0 };
            let m1: u8 = if s[1] { 2 } else { 0 };
            let m2: u8 = if s[2] { 4 } else { 0 };
            let m3: u8 = if s[3] { 8 } else { 0 };
            let m4: u8 = if s[4] { 16 } else { 0 };
            let m5: u8 = if s[5] { 32 } else { 0 };
            let m6: u8 = if s[6] { 64 } else { 0 };
            let m7: u8 = if s[7] { 128 } else { 0 };
            m0 | m1 | m2 | m3 | m4 | m5 | m6 | m7
        },
        0x20..=0x23 => 0,
        0x24..=0x27 => player.timer[(address - TIMERS) as usize],
        0x28..=0x2f => player.inventory.slots[(address - INVENTORY) as usize].byte,
        DOOR_APPEARANCE => world.door_appearance_byte,
        WALL_APPEARANCE => world.wall_appearance_byte,
        FLOOR_COLOR => 0,
        STAIRS_DELTA => player.stairs_delta,
        TIMER_DELTA => player.timer_delta,
        DAMAGE_OFFSET => player.damage_offset as u8,
        RESERVED_A => 0,
        RESERVED_B => 0,
        TEXT_SYNC => player.text_sync,
        PLAYER_HP => player.hp,
        PLAYER_TP => player.tp,
        PLAYER_XLDEF => (player.xl << 4u8) | ((player.def as u8) & 0x0f),
        PLAYER_POSITION => player.position.as_byte(),
        PLAYER_DEPTH => player.depth,
        METAL_ACID_RESISTANCE => pack(player.aptitude[0], player.aptitude[1]),
        FIRE_ELEC_RESISTANCE => pack(player.aptitude[2], player.aptitude[3]),
        _ => {
            proof {
                assert(false);
            }
            0
        },
    }
}

/// The message that tells of the player's change of appearance from `old` to
/// `new`, if anything shown changes.
pub open spec fn appearance_message(old: Sprite, new: Sprite) -> Option<Seq<char>> {
    let color = color_label(new.color.first_spec())@;
    let character = punctuation_label(new.character)@;
    if old.character != new.character && old.color != new.color {
        Some("You turn into "@ + with_article(color) + " "@ + character + "!"@)
    } else if old.character != new.character {
        Some("You turn into "@ + with_article(character) + "!"@)
    } else if old.color != new.color {
        Some("You turn "@ + color + "!"@)
    } else {
        None
    }
}

fn report_player_appearance_change(log: &mut Log, before: Sprite, after: Sprite)
    ensures
        match appearance_message(before, after) {
            Some(m) => told(*old(log), *final(log), m),
            None => *final(log) == *old(log),
        },
{
    let new_color_name = color_name(after.color.first());
    let new_char_name = punctuation_name(after.character);
    if before.character != after.character && before.color != after.color {
        let mut m = String::from_str("You turn into ");
        let article = a_or_an(new_color_name);
        m.append(article.as_str());
        m.append(" ");
        m.append(new_char_name);
        m.append("!");
        log.tell(m);
    } else if before.character != after.character {
        let mut m = String::from_str("You turn into ");
        let article = a_or_an(new_char_name);
        m.append(article.as_str());
        m.append("!");
        log.tell(m);
    } else if before.color != after.color {
        let mut m = String::from_str("You turn ");
        m.append(new_color_name);
        m.append("!");
        log.tell(m);
    }
}

proof fn lemma_kind_exists(n: u8)
    requires
        n < 16,
    ensures
        exists|k: Kind| k.nibble() == n,
{
    let k = if n == 0 {
        Kind::Kestrel
    } else if n == 1 {
        Kind::Skeleton
    } else if n == 2 {
        Kind::Troll
    } else if n == 3 {
        Kind::Android
    } else if n == 4 {
        Kind::Jelly
    } else if n == 5 {
        Kind::Salamander
    } else if n == 6 {
        Kind::TinyUFO
    } else if n == 7 {
        Kind::Minotaur
    } else if n == 8 {
        Kind::Glitch
    } else if n == 9 {
        Kind::Witch
    } else if n == 10 {
        Kind::Specter
    } else if n == 11 {
        Kind::Soldier
    } else if n == 12 {
        Kind::Attractor
    } else if n == 13 {
        Kind::Turret
    } else if n == 14 {
        Kind::Elf
    } else {
        Kind::GoldenDragon
    };
    assert(k.nibble() == n);
}

/// Reading an address right after writing a byte there gives that byte back, at
/// every address that stores a whole byte: all but the identification mask, the
/// unused and the reserved addresses. The monster records need the player to be
/// in the dungeon (depth 1 or more): outside it they read 0.
pub proof fn lemma_write_then_read(w: World, a: u8, v: u8, w2: World)
    requires
        w.wf(),
        a < MEMORY_SIZE,
        !(IDENTIFICATION <= a < TIMERS),
        a != FLOOR_COLOR,
        a != RESERVED_A,
        a != RESERVED_B,
        MONSTERS <= a < SPELL_MEMORY ==> w.player.depth != 0,
        poke_spec(w, a, v, w2),
    ensures
        read_spec(w2, a) == v,
{
    if MONSTERS <= a < SPELL_MEMORY {
        let offset = (a - MONSTERS) % 3;
        if offset == 0 {
            let n = v >> 4u8;
            assert(n < 16) by (bit_vector)
                requires
                    n == v >> 4u8,
            ;
            lemma_kind_exists(n);
            let k = choose|k: Kind| k.nibble() == v >> 4u8;
            let c = v & 8 != 0;
            let u = v & 4 != 0;
            let e = v & 2 != 0;
            let x = v & 1 != 0;
            assert((n << 4u8) | flag_bit(c, 8) | flag_bit(u, 4) | flag_bit(e, 2) | flag_bit(x, 1)
                == v) by (bit_vector)
                requires
                    n == v >> 4u8,
                    c == (v & 8 != 0),
                    u == (v & 4 != 0),
                    e == (v & 2 != 0),
                    x == (v & 1 != 0),
            ;
        } else if offset == 1 {
            vstd::arithmetic::div_mod::lemma_fundamental_div_mod(v as int, 19);
        }
    } else if a == SPELL_MEMORY {
        let s = w2.player.spell_memory;
        assert(s@[0] == (v & 1 != 0) && s@[1] == (v & 2 != 0) && s@[2] == (v & 4 != 0) && s@[3]
            == (v & 8 != 0) && s@[4] == (v & 16 != 0) && s@[5] == (v & 32 != 0) && s@[6] == (v
            & 64 != 0) && s@[7] == (v & 128 != 0));
        let (b0, b1, b2, b3, b4, b5, b6, b7) = (s@[0], s@[1], s@[2], s@[3], s@[4], s@[5], s@[6], s@[7]);
        assert(flag_bit(b0, 1) | flag_bit(b1, 2) | flag_bit(b2, 4) | flag_bit(b3, 8) | flag_bit(b4, 16)
            | flag_bit(b5, 32) | flag_bit(b6, 64) | flag_bit(b7, 128) == v) by (bit_vector)
            requires
                b0 == (v & 1 != 0),
                b1 == (v & 2 != 0),
                b2 == (v & 4 != 0),
                b3 == (v & 8 != 0),
                b4 == (v & 16 != 0),
                b5 == (v & 32 != 0),
                b6 == (v & 64 != 0),
                b7 == (v & 128 != 0),
        ;
    } else if a == DAMAGE_OFFSET {
        assert((v as i8) as u8 == v) by (bit_vector);
    } else if a == PLAYER_XLDEF {
        assert(((v >> 4u8) << 4u8) | ((low_signed(v) as u8) & 0x0f) == v) by (bit_vector);
    } else if a == PLAYER_POSITION {
        vstd::arithmetic::div_mod::lemma_fundamental_div_mod(v as int, 19);
    } else if a == METAL_ACID_RESISTANCE || a == FIRE_ELEC_RESISTANCE {
        assert(pack_nibbles(high_signed(v), low_signed(v)) == v) by (bit_vector);
    }
}

/// Writing two signed nibbles (-8 to 7) packed in a byte at a nibble-packed
/// address stores each of them back exactly; at the experience/defense address
/// the high nibble is the experience level, read unsigned.
pub proof fn lemma_nibbles_round_trip(w: World, a: u8, hi: i8, lo: i8, w2: World)
    requires
        w.wf(),
        a == PLAYER_XLDEF || a == METAL_ACID_RESISTANCE || a == FIRE_ELEC_RESISTANCE,
        -8 <= lo <= 7,
        a == PLAYER_XLDEF ==> 0 <= hi <= 7,
        a != PLAYER_XLDEF ==> -8 <= hi <= 7,
        poke_spec(w, a, pack_nibbles(hi, lo), w2),
    ensures
        a == PLAYER_XLDEF ==> w2.player.xl == hi && w2.player.def == lo,
        a == METAL_ACID_RESISTANCE ==> w2.player.aptitude@[0] == hi && w2.player.aptitude@[1] == lo,
        a == FIRE_ELEC_RESISTANCE ==> w2.player.aptitude@[2] == hi && w2.player.aptitude@[3] == lo,
        read_spec(w2, a) == pack_nibbles(hi, lo),
{
    let v = pack_nibbles(hi, lo);
    assert(low_signed(v) == lo) by (bit_vector)
        requires
            v == pack_nibbles(hi, lo),
            -8 <= lo <= 7,
    ;
    assert(-8 <= hi <= 7 ==> high_signed(v) == hi) by (bit_vector)
        requires
            v == pack_nibbles(hi, lo),
    ;
    assert(0 <= hi <= 7 ==> (v >> 4u8) == hi as u8) by (bit_vector)
        requires
            v == pack_nibbles(hi, lo),
    ;
    lemma_write_then_read(w, a, v, w2);
}

fn monster_write(m: Monster, offset: u8, value: u8) -> (r: Monster)
    requires
        offset < 3,
        m.position.encodable(),
    ensures
        r == monster_written(m, offset as int, value),
        r.position.encodable(),
{
    if offset == MONSTER_FLAGS {
        let n = value >> 4u8;
        assert(n < 16) by (bit_vector)
            requires
                n == value >> 4u8,
        ;
        let kind = Kind::from_nibble(n);
        proof {
            let k = choose|k: Kind| k.nibble() == value >> 4u8;
            crate::monster::lemma_nibble_injective(k, kind);
        }
        Monster {
            kind,
            charged: value & 8 != 0,
            vulnerable: value & 4 != 0,
            venomous: value & 2 != 0,
            corrupted: value & 1 != 0,
            ..m
        }
    } else if offset == MONSTER_POSITION {
        Monster { position: Point::of_byte(value), ..m }
    } else {
        Monster { hp: value, ..m }
    }
}

/// Writes `value` at `address`. Writing the player's appearance tells of the
/// change in the log.
pub fn poke(world: &mut World, address: u8, value: u8)
    requires
        old(world).wf(),
        address < MEMORY_SIZE,
    ensures
        final(world).wf(),
        poke_spec(*old(world), address, value, *final(world)),
        address != PLAYER_APPEARANCE ==> final(world).log == old(world).log,
        address == PLAYER_APPEARANCE ==> match appearance_message(
            byte_sprite(old(world).player_appearance_byte, true),
            byte_sprite(value, true),
        ) {
            Some(m) => told(old(world).log, final(world).log, m),
            None => final(world).log == old(world).log,
        },
{
    match address {
        PLAYER_APPEARANCE => {
            let old_sprite = Sprite::of_byte(world.player_appearance_byte, true);
            let new_sprite = Sprite::of_byte(value, true);
            report_player_appearance_change(&mut world.log, old_sprite, new_sprite);
            world.player_appearance_byte = value;
        },
        0x01..=0x0f => {
            world.player.name[(address - PLAYER_NAME) as usize] = value;
        },
        0x10..=0x1e => {
            if world.player.depth != 0 {
                let offset = (address - MONSTERS) % 3;
                let index = (address - MONSTERS) as usize / 3;
                let li = world.player.depth as usize - 1;
                proof {
                    assert(world.dungeon@[li as int].wf());
                }
                let level = &mut world.dungeon[li];
                let m = monster_write(level.monsters[index], offset, value);
                level.monsters[index] = m;
            }
        },
        SPELL_MEMORY => {
            world.player.spell_memory = [
                value & 1 != 0,
                value & 2 != 0,
                value & 4 != 0,
                value & 8 != 0,
                value & 16 != 0,
                value & 32 != 0,
                value & 64 != 0,
                value & 128 != 0,
            ];
        },
        0x20..=0x23 => {},
        0x24..=0x27 => {
            world.player.timer[(address - TIMERS) as usize] = value;
        },
        0x28..=0x2f => {
            world.player.inventory.slots[(address - INVENTORY) as usize] = crate::item::InventorySlot {
                byte: value,
            };
        },
        DOOR_APPEARANCE => {
            world.door_appearance_byte = value;
        },
        WALL_APPEARANCE => {
            world.wall_appearance_byte = value;
        },
        FLOOR_COLOR => {},
        STAIRS_DELTA => {
            world.player.stairs_delta = value;
        },
        TIMER_DELTA => {
            world.player.timer_delta = value;
        },
        DAMAGE_OFFSET => {
            world.player.damage_offset = value as i8;
        },
        RESERVED_A => {},
        RESERVED_B => {},
        TEXT_SYNC => {
            world.player.text_sync = value;
        },
        PLAYER_HP => {
            world.player.hp = value;
        },
        PLAYER_TP => {
            world.player.tp = value;
        },
        PLAYER_XLDEF => {
            world.player.xl = value >> 4u8;
            world.player.def = upcast_i4(value);
        },
        PLAYER_POSITION => {
            world.player.position = Point::of_byte(value);
        },
        PLAYER_DEPTH => {
            world.player.depth = value;
        },
        METAL_ACID_RESISTANCE => {
            world.player.aptitude[0] = downcast_high(value);
            world.player.aptitude[1] = upcast_i4(value);
        },
        FIRE_ELEC_RESISTANCE => {
            world.player.aptitude[2] = downcast_high(value);
            world.player.aptitude[3] = upcast_i4(value);
        },
        _ => {
            proof {
                assert(false);
            }
        },
    }
}

/// The character that code page 437 shows for byte `b`.
pub open spec fn cp437_spec(b: u8) -> char {
    match b {
        0 => ' ',
        1 => '☺',
        2 => '☻',
        3 => '♥',
        4 => '♦',
        5 => '♣',
        6 => '♠',
        7 => '•',
        8 => '◘',
        9 => '○',
        10 => '◙',
        11 => '♂',
        12 => '♀',
        13 => '♪',
        14 => '♫',
        15 => '☼',
        16 => '►',
        17 => '◄',
        18 => '↕',
        19 => '‼',
        20 => '¶',
        21 => '§',
        22 => '▬',
        23 => '↨',
        24 => '↑',
        25 => '↓',
        26 => '→',
        27 => '←',
        28 => '∟',
        29 => '↔',
        30 => '▲',
        31 => '▼',
        32 => ' ',
        33 => '!',
        34 => '"',
        35 => '#',
        36 => '$',
        37 => '%',
        38 => '&',
        39 => '\'',
        40 => '(',
        41 => ')',
        42 => '*',
        43 => '+',
        44 => ',',
        45 => '-',
        46 => '.',
        47 => '/',
        48 => '0',
        49 => '1',
        50 => '2',
        51 => '3',
        52 => '4',
        53 => '5',
        54 => '6',
        55 => '7',
        56 => '8',
        57 => '9',
        58 => ':',
        59 => ';',
        60 => '<',
        61 => '=',
        62 => '>',
        63 => '?',
        64 => '@',
        65 => 'A',
        66 => 'B',
        67 => 'C',
        68 => 'D',
        69 => 'E',
        70 => 'F',
        71 => 'G',
        72 => 'H',
        73 => 'I',
        74 => 'J',
        75 => 'K',
        76 => 'L',
        77 => 'M',
        78 => 'N',
        79 => 'O',
        80 => 'P',
        81 => 'Q',
        82 => 'R',
        83 => 'S',
        84 => 'T',
        85 => 'U',
        86 => 'V',
        87 => 'W',
        88 => 'X',
        89 => 'Y',
        90 => 'Z',
        91 => '[',
        92 => '\\',
        93 => ']',
        94 => '^',
        95 => '_',
        96 => '`',
        97 => 'a',
        98 => 'b',
        99 => 'c',
        100 => 'd',
        101 => 'e',
        102 => 'f',
        103 => 'g',
        104 => 'h',
        105 => 'i',
        106 => 'j',
        107 => 'k',
        108 => 'l',
        109 => 'm',
        110 => 'n',
        111 => 'o',
        112 => 'p',
        113 => 'q',
        114 => 'r',
        115 => 's',
        116 => 't',
        117 => 'u',
        118 => 'v',
        119 => 'w',
        120 => 'x',
        121 => 'y',
        122 => 'z',
        123 => '{',
        124 => '|',
        125 => '}',
        126 => '~',
        127 => '\u{7f}',
        128 => 'Ç',
        129 => 'ü',
        130 => 'é',
        131 => 'â',
        132 => 'ä',
        133 => 'à',
        134 => 'å',
        135 => 'ç',
        136 => 'ê',
        137 => 'ë',
        138 => 'è',
        139 => 'ï',
        140 => 'î',
        141 => 'ì',
        142 => 'Ä',
        143 => 'Å',
        144 => 'É',
        145 => 'æ',
        146 => 'Æ',
        147 => 'ô',
        148 => 'ö',
        149 => 'ò',
        150 => 'û',
        151 => 'ù',
        152 => 'ÿ',
        153 => 'Ö',
        154 => 'Ü',
        155 => '¢',
        156 => '£',
        157 => '¥',
        158 => '₧',
        159 => 'ƒ',
        160 => 'á',
        161 => 'í',
        162 => 'ó',
        163 => 'ú',
        164 => 'ñ',
        165 => 'Ñ',
        166 => 'ª',
        167 => 'º',
        168 => '¿',
        169 => '⌐',
        170 => '¬',
        171 => '½',
        172 => '¼',
        173 => '¡',
        174 => '«',
        175 => '»',
        176 => '░',
        177 => '▒',
        178 => '▓',
        179 => '│',
        180 => '┤',
        181 => '╡',
        182 => '╢',
        183 => '╖',
        184 => '╕',
        185 => '╣',
        186 => '║',
        187 => '╗',
        188 => '╝',
        189 => '╜',
        190 => '╛',
        191 => '┐',
        192 => '└',
        193 => '┴',
        194 => '┬',
        195 => '├',
        196 => '─',
        197 => '┼',
        198 => '╞',
        199 => '╟',
        200 => '╚',
        201 => '╔',
        202 => '╩',
        203 => '╦',
        204 => '╠',
        205 => '═',
        206 => '╬',
        207 => '╧',
        208 => '╨',
        209 => '╤',
        210 => '╥',
        211 => '╙',
        212 => '╘',
        213 => '╒',
        214 => '╓',
        215 => '╫',
        216 => '╪',
        217 => '┘',
        218 => '┌',
        219 => '█',
        220 => '▄',
        221 => '▌',
        222 => '▐',
        223 => '▀',
        224 => 'α',
        225 => 'ß',
        226 => 'Γ',
        227 => 'π',
        228 => 'Σ',
        229 => 'σ',
        230 => 'µ',
        231 => 'τ',
        232 => 'Φ',
        233 => 'Θ',
        234 => 'Ω',
        235 => 'δ',
        236 => '∞',
        237 => 'φ',
        238 => 'ε',
        239 => '∩',
        240 => '≡',
        241 => '±',
        242 => '≥',
        243 => '≤',
        244 => '⌠',
        245 => '⌡',
        246 => '÷',
        247 => '≈',
        248 => '°',
        249 => '∙',
        250 => '·',
        251 => '√',
        252 => 'ⁿ',
        253 => '²',
        254 => '■',
        _ => ' ',
    }
}

/// The character that code page 437 shows for byte `b`.
pub fn cp437(b: u8) -> (r: char)
    ensures
        r == cp437_spec(b),
{
    match b {
        0 => ' ',
        1 => '☺',
        2 => '☻',
        3 => '♥',
        4 => '♦',
        5 => '♣',
        6 => '♠',
        7 => '•',
        8 => '◘',
        9 => '○',
        10 => '◙',
        11 => '♂',
        12 => '♀',
        13 => '♪',
        14 => '♫',
        15 => '☼',
        16 => '►',
        17 => '◄',
        18 => '↕',
        19 => '‼',
        20 => '¶',
        21 => '§',
        22 => '▬',
        23 => '↨',
        24 => '↑',
        25 => '↓',
        26 => '→',
        27 => '←',
        28 => '∟',
        29 => '↔',
        30 => '▲',
        31 => '▼',
        32 => ' ',
        33 => '!',
        34 => '"',
        35 => '#',
        36 => '$',
        37 => '%',
        38 => '&',
        39 => '\'',
        40 => '(',
        41 => ')',
        42 => '*',
        43 => '+',
        44 => ',',
        45 => '-',
        46 => '.',
        47 => '/',
        48 => '0',
        49 => '1',
        50 => '2',
        51 => '3',
        52 => '4',
        53 => '5',
        54 => '6',
        55 => '7',
        56 => '8',
        57 => '9',
        58 => ':',
        59 => ';',
        60 => '<',
        61 => '=',
        62 => '>',
        63 => '?',
        64 => '@',
        65 => 'A',
        66 => 'B',
        67 => 'C',
        68 => 'D',
        69 => 'E',
        70 => 'F',
        71 => 'G',
        72 => 'H',
        73 => 'I',
        74 => 'J',
        75 => 'K',
        76 => 'L',
        77 => 'M',
        78 => 'N',
        79 => 'O',
        80 => 'P',
        81 => 'Q',
        82 => 'R',
        83 => 'S',
        84 => 'T',
        85 => 'U',
        86 => 'V',
        87 => 'W',
        88 => 'X',
        89 => 'Y',
        90 => 'Z',
        91 => '[',
        92 => '\\',
        93 => ']',
        94 => '^',
        95 => '_',
        96 => '`',
        97 => 'a',
        98 => 'b',
        99 => 'c',
        100 => 'd',
        101 => 'e',
        102 => 'f',
        103 => 'g',
        104 => 'h',
        105 => 'i',
        106 => 'j',
        107 => 'k',
        108 => 'l',
        109 => 'm',
        110 => 'n',
        111 => 'o',
        112 => 'p',
        113 => 'q',
        114 => 'r',
        115 => 's',
        116 => 't',
        117 => 'u',
        118 => 'v',
        119 => 'w',
        120 => 'x',
        121 => 'y',
        122 => 'z',
        123 => '{',
        124 => '|',
        125 => '}',
        126 => '~',
        127 => '\u{7f}',
        128 => 'Ç',
        129 => 'ü',
        130 => 'é',
        131 => 'â',
        132 => 'ä',
        133 => 'à',
        134 => 'å',
        135 => 'ç',
        136 => 'ê',
        137 => 'ë',
        138 => 'è',
        139 => 'ï',
        140 => 'î',
        141 => 'ì',
        142 => 'Ä',
        143 => 'Å',
        144 => 'É',
        145 => 'æ',
        146 => 'Æ',
        147 => 'ô',
        148 => 'ö',
        149 => 'ò',
        150 => 'û',
        151 => 'ù',
        152 => 'ÿ',
        153 => 'Ö',
        154 => 'Ü',
        155 => '¢',
        156 => '£',
        157 => '¥',
        158 => '₧',
        159 => 'ƒ',
        160 => 'á',
        161 => 'í',
        162 => 'ó',
        163 => 'ú',
        164 => 'ñ',
        165 => 'Ñ',
        166 => 'ª',
        167 => 'º',
        168 => '¿',
        169 => '⌐',
        170 => '¬',
        171 => '½',
        172 => '¼',
        173 => '¡',
        174 => '«',
        175 => '»',
        176 => '░',
        177 => '▒',
        178 => '▓',
        179 => '│',
        180 => '┤',
        181 => '╡',
        182 => '╢',
        183 => '╖',
        184 => '╕',
        185 => '╣',
        186 => '║',
        187 => '╗',
        188 => '╝',
        189 => '╜',
        190 => '╛',
        191 => '┐',
        192 => '└',
        193 => '┴',
        194 => '┬',
        195 => '├',
        196 => '─',
        197 => '┼',
        198 => '╞',
        199 => '╟',
        200 => '╚',
        201 => '╔',
        202 => '╩',
        203 => '╦',
        204 => '╠',
        205 => '═',
        206 => '╬',
        207 => '╧',
        208 => '╨',
        209 => '╤',
        210 => '╥',
        211 => '╙',
        212 => '╘',
        213 => '╒',
        214 => '╓',
        215 => '╫',
        216 => '╪',
        217 => '┘',
        218 => '┌',
        219 => '█',
        220 => '▄',
        221 => '▌',
        222 => '▐',
        223 => '▀',
        224 => 'α',
        225 => 'ß',
        226 => 'Γ',
        227 => 'π',
        228 => 'Σ',
        229 => 'σ',
        230 => 'µ',
        231 => 'τ',
        232 => 'Φ',
        233 => 'Θ',
        234 => 'Ω',
        235 => 'δ',
        236 => '∞',
        237 => 'φ',
        238 => 'ε',
        239 => '∩',
        240 => '≡',
        241 => '±',
        242 => '≥',
        243 => '≤',
        244 => '⌠',
        245 => '⌡',
        246 => '÷',
        247 => '≈',
        248 => '°',
        249 => '∙',
        250 => '·',
        251 => '√',
        252 => 'ⁿ',
        253 => '²',
        254 => '■',
        _ => ' ',
    }
}

/// Relies on `String::push`: appends one character.
#[verifier::external_body]
fn push_char(s: &mut String, c: char)
    ensures
        final(s)@ == old(s)@.push(c),
{
    s.push(c)
}

/// The name read from memory from address `i` on: characters up to the first
/// zero byte or the end of memory.
pub open spec fn name_from(w: World, i: int) -> Seq<char>
    decreases MEMORY_SIZE - i,
{
    if i < 1 || i >= MEMORY_SIZE {
        Seq::empty()
    } else if read_spec(w, i as u8) == 0 {
        Seq::empty()
    } else {
        seq![cp437_spec(read_spec(w, i as u8))] + name_from(w, i + 1)
    }
}

/// The player's name as shown: memory read from the name's first address up to
/// the first zero byte, in code page 437.
pub fn player_name(world: &World) -> (r: String)
    requires
        world.wf(),
    ensures
        r@ == name_from(*world, PLAYER_NAME as int),
{
    let mut i: u8 = PLAYER_NAME;
    let mut name = String::new();
    while i < MEMORY_SIZE
        invariant
            world.wf(),
            PLAYER_NAME <= i <= MEMORY_SIZE,
            name@ + name_from(*world, i as int) == name_from(*world, PLAYER_NAME as int),
        decreases MEMORY_SIZE - i,
    {
        let c = peek(world, i);
        if c == 0 {
            assert(name_from(*world, i as int) == Seq::<char>::empty());
            assert(name@ =~= name@ + Seq::<char>::empty());
            return name;
        }
        let ghost before = name@;
        push_char(&mut name, cp437(c));
        assert(name@ + name_from(*world, i + 1) =~= before + name_from(*world, i as int));
        i = i + 1;
    }
    assert(name@ =~= name@ + name_from(*world, i as int));
    name
}

} // verus!
