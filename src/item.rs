use rand::rngs::StdRng;
use vstd::prelude::*;
use crate::random::{coin_flip, random_range, shuffle};
use crate::sprite::{Color, Palette, Sprite};

verus! {

/// What an item looks like before it is identified.
#[derive(Clone, Copy, Debug, PartialEq, Eq, Structural)]
pub enum Appearance {
    Crowbar,
    VolcanicShard,
    Taser,
    JellyGun,
    Lumimelon,
    Glowfruit,
    Shineapple,
    RoundPill,
    TinyPill,
    DiamondPill,
    OblongPill,
    SoftPill,
    HexagonalPill,
    WidePill,
    TranslucentPill,
    ThickSweater,
    BallisticVest,
    DragonScaleMail,
    TitaniumNecklace,
    RustyNecklace,
    CrimsonNecklace,
    GlowingNecklace,
    UnholyNecklace,
    Wand,
    Manual,
    Guidebook,
    RedDevice,
    YellowDevice,
    BlueDevice,
    Palantir,
    GoldenPendant,
}

pub const WEAPON_CHAR: char = '/';
pub const FOOD_CHAR: char = '%';
pub const PILL_CHAR: char = '*';
pub const ARMOR_CHAR: char = '[';
pub const NECKLACE_CHAR: char = '"';
pub const DEVICE_CHAR: char = '&';
pub const ARTIFACT_CHAR: char = '$';

impl Appearance {
    /// The appearance index (1 to 31) that stands for this appearance in a byte.
    pub open spec fn code(self) -> u8 {
        match self {
            Appearance::Crowbar => 1,
            Appearance::VolcanicShard => 2,
            Appearance::Taser => 3,
            Appearance::JellyGun => 4,
            Appearance::Lumimelon => 5,
            Appearance::Glowfruit => 6,
            Appearance::Shineapple => 7,
            Appearance::RoundPill => 8,
            Appearance::TinyPill => 9,
            Appearance::DiamondPill => 10,
            Appearance::OblongPill => 11,
            Appearance::SoftPill => 12,
            Appearance::HexagonalPill => 13,
            Appearance::WidePill => 14,
            Appearance::TranslucentPill => 15,
            Appearance::ThickSweater => 16,
            Appearance::BallisticVest => 17,
            Appearance::DragonScaleMail => 18,
            Appearance::TitaniumNecklace => 19,
            Appearance::RustyNecklace => 20,
            Appearance::CrimsonNecklace => 21,
            Appearance::GlowingNecklace => 22,
            Appearance::UnholyNecklace => 23,
            Appearance::Wand => 24,
            Appearance::Manual => 25,
            Appearance::Guidebook => 26,
            Appearance::RedDevice => 27,
            Appearance::YellowDevice => 28,
            Appearance::BlueDevice => 29,
            Appearance::Palantir => 30,
            Appearance::GoldenPendant => 31,
        }
    }

    pub fn to_byte(self) -> (r: u8)
        ensures
            r == self.code(),
            1 <= r <= 31,
    {
        match self {
            Appearance::Crowbar => 1,
            Appearance::VolcanicShard => 2,
            Appearance::Taser => 3,
            Appearance::JellyGun => 4,
            Appearance::Lumimelon => 5,
            Appearance::Glowfruit => 6,
            Appearance::Shineapple => 7,
            Appearance::RoundPill => 8,
            Appearance::TinyPill => 9,
            Appearance::DiamondPill => 10,
            Appearance::OblongPill => 11,
            Appearance::SoftPill => 12,
            Appearance::HexagonalPill => 13,
            Appearance::WidePill => 14,
            Appearance::TranslucentPill => 15,
            Appearance::ThickSweater => 16,
            Appearance::BallisticVest => 17,
            Appearance::DragonScaleMail => 18,
            Appearance::TitaniumNecklace => 19,
            Appearance::RustyNecklace => 20,
            Appearance::CrimsonNecklace => 21,
            Appearance::GlowingNecklace => 22,
            Appearance::UnholyNecklace => 23,
            Appearance::Wand => 24,
            Appearance::Manual => 25,
            Appearance::Guidebook => 26,
            Appearance::RedDevice => 27,
            Appearance::YellowDevice => 28,
            Appearance::BlueDevice => 29,
            Appearance::Palantir => 30,
            Appearance::GoldenPendant => 31,
        }
    }

    pub fn from_byte(byte: u8) -> (r: Appearance)
        requires
            1 <= byte <= 31,
        ensures
            r.code() == byte,
    {
        match byte {
            1 => Appearance::Crowbar,
            2 => Appearance::VolcanicShard,
            3 => Appearance::Taser,
            4 => Appearance::JellyGun,
            5 => Appearance::Lumimelon,
            6 => Appearance::Glowfruit,
            7 => Appearance::Shineapple,
            8 => Appearance::RoundPill,
            9 => Appearance::TinyPill,
            10 => Appearance::DiamondPill,
            11 => Appearance::OblongPill,
            12 => Appearance::SoftPill,
            13 => Appearance::HexagonalPill,
            14 => Appearance::WidePill,
            15 => Appearance::TranslucentPill,
            16 => Appearance::ThickSweater,
            17 => Appearance::BallisticVest,
            18 => Appearance::DragonScaleMail,
            19 => Appearance::TitaniumNecklace,
            20 => Appearance::RustyNecklace,
            21 => Appearance::CrimsonNecklace,
            22 => Appearance::GlowingNecklace,
            23 => Appearance::UnholyNecklace,
            24 => Appearance::Wand,
            25 => Appearance::Manual,
            26 => Appearance::Guidebook,
            27 => Appearance::RedDevice,
            28 => Appearance::YellowDevice,
            29 => Appearance::BlueDevice,
            30 => Appearance::Palantir,
            _ => Appearance::GoldenPendant,
        }
    }

    /// Food and pills are used up.
    pub open spec fn consumable_spec(self) -> bool {
        1 <= 5 <= self.code() && self.code() <= 15
    }

    /// Weapons, armor and necklaces are worn or wielded.
    pub open spec fn equipment_spec(self) -> bool {
        self.code() <= 4 || (16 <= self.code() && self.code() <= 23)
    }

    pub fn is_consumable(self) -> (r: bool)
        ensures
            r == self.consumable_spec(),
    {
        let code = self.to_byte();
        5 <= code && code <= 15
    }

    pub fn is_equipment(self) -> (r: bool)
        ensures
            r == self.equipment_spec(),
    {
        let code = self.to_byte();
        code <= 4 || (16 <= code && code <= 23)
    }

    /// The name of an unidentified item of this appearance.
    pub open spec fn label(self) -> &'static str {
        match self {
            Appearance::Crowbar => "crowbar",
            Appearance::VolcanicShard => "volcanic shard",
            Appearance::Taser => "taser",
            Appearance::JellyGun => "jelly gun",
            Appearance::Lumimelon => "lumimelon",
            Appearance::Glowfruit => "glowfruit",
            Appearance::Shineapple => "shineapple",
            Appearance::RoundPill => "round pill",
            Appearance::TinyPill => "tiny pill",
            Appearance::DiamondPill => "diamond pill",
            Appearance::OblongPill => "oblong pill",
            Appearance::SoftPill => "soft pill",
            Appearance::HexagonalPill => "hexagonal pill",
            Appearance::WidePill => "wide pill",
            Appearance::TranslucentPill => "translucent pill",
            Appearance::ThickSweater => "thick sweater",
            Appearance::BallisticVest => "ballistic vest",
            Appearance::DragonScaleMail => "dragon scale mail",
            Appearance::TitaniumNecklace => "titanium necklace",
            Appearance::RustyNecklace => "rusty necklace",
            Appearance::CrimsonNecklace => "crimson necklace",
            Appearance::GlowingNecklace => "glowing necklace",
            Appearance::UnholyNecklace => "unholy necklace",
            Appearance::Wand => "wand",
            Appearance::Manual => "manual",
            Appearance::Guidebook => "guidebook",
            Appearance::RedDevice => "red device",
            Appearance::YellowDevice => "yellow device",
            Appearance::BlueDevice => "blue device",
            Appearance::Palantir => "palantir",
            Appearance::GoldenPendant => "golden pendant",
        }
    }

    /// The name of an unidentified item of this appearance.
    pub fn name(self) -> (r: &'static str)
        ensures
            r == self.label(),
    {
        match self {
            Appearance::Crowbar => "crowbar",
            Appearance::VolcanicShard => "volcanic shard",
            Appearance::Taser => "taser",
            Appearance::JellyGun => "jelly gun",
            Appearance::Lumimelon => "lumimelon",
            Appearance::Glowfruit => "glowfruit",
            Appearance::Shineapple => "shineapple",
            Appearance::RoundPill => "round pill",
            Appearance::TinyPill => "tiny pill",
            Appearance::DiamondPill => "diamond pill",
            Appearance::OblongPill => "oblong pill",
            Appearance::SoftPill => "soft pill",
            Appearance::HexagonalPill => "hexagonal pill",
            Appearance::WidePill => "wide pill",
            Appearance::TranslucentPill => "translucent pill",
            Appearance::ThickSweater => "thick sweater",
            Appearance::BallisticVest => "ballistic vest",
            Appearance::DragonScaleMail => "dragon scale mail",
            Appearance::TitaniumNecklace => "titanium necklace",
            Appearance::RustyNecklace => "rusty necklace",
            Appearance::CrimsonNecklace => "crimson necklace",
            Appearance::GlowingNecklace => "glowing necklace",
            Appearance::UnholyNecklace => "unholy necklace",
            Appearance::Wand => "wand",
            Appearance::Manual => "manual",
            Appearance::Guidebook => "guidebook",
            Appearance::RedDevice => "red device",
            Appearance::YellowDevice => "yellow device",
            Appearance::BlueDevice => "blue device",
            Appearance::Palantir => "palantir",
            Appearance::GoldenPendant => "golden pendant",
        }
    }

    pub open spec fn sprite_spec(self) -> Sprite {
        match self {
            Appearance::Crowbar => Sprite { character: WEAPON_CHAR, color: Palette::One(Color::Teal) },
            Appearance::VolcanicShard => Sprite { character: WEAPON_CHAR, color: Palette::One(Color::Maroon) },
            Appearance::Taser => Sprite { character: WEAPON_CHAR, color: Palette::One(Color::Aqua) },
            Appearance::JellyGun => Sprite { character: WEAPON_CHAR, color: Palette::One(Color::Lime) },
            Appearance::Lumimelon => Sprite { character: FOOD_CHAR, color: Palette::One(Color::Lime) },
            Appearance::Glowfruit => Sprite { character: FOOD_CHAR, color: Palette::One(Color::Pink) },
            Appearance::Shineapple => Sprite { character: FOOD_CHAR, color: Palette::One(Color::Yellow) },
            Appearance::RoundPill => Sprite { character: PILL_CHAR, color: Palette::One(Color::White) },
            Appearance::TinyPill => Sprite { character: PILL_CHAR, color: Palette::One(Color::White) },
            Appearance::DiamondPill => Sprite { character: PILL_CHAR, color: Palette::One(Color::White) },
            Appearance::OblongPill => Sprite { character: PILL_CHAR, color: Palette::One(Color::White) },
            Appearance::SoftPill => Sprite { character: PILL_CHAR, color: Palette::One(Color::White) },
            Appearance::HexagonalPill => Sprite { character: PILL_CHAR, color: Palette::One(Color::White) },
            Appearance::WidePill => Sprite { character: PILL_CHAR, color: Palette::One(Color::White) },
            Appearance::TranslucentPill => Sprite { character: PILL_CHAR, color: Palette::One(Color::White) },
            Appearance::ThickSweater => Sprite { character: ARMOR_CHAR, color: Palette::One(Color::Purple) },
            Appearance::BallisticVest => Sprite { character: ARMOR_CHAR, color: Palette::One(Color::Teal) },
            Appearance::DragonScaleMail => Sprite { character: ARMOR_CHAR, color: Palette::One(Color::Green) },
            Appearance::TitaniumNecklace => Sprite { character: NECKLACE_CHAR, color: Palette::One(Color::Gray) },
            Appearance::RustyNecklace => Sprite { character: NECKLACE_CHAR, color: Palette::One(Color::Brown) },
            Appearance::CrimsonNecklace => Sprite { character: NECKLACE_CHAR, color: Palette::One(Color::Maroon) },
            Appearance::GlowingNecklace => Sprite { character: NECKLACE_CHAR, color: Palette::One(Color::Yellow) },
            Appearance::UnholyNecklace => Sprite { character: NECKLACE_CHAR, color: Palette::One(Color::Dark) },
            Appearance::Wand => Sprite { character: DEVICE_CHAR, color: Palette::One(Color::Navy) },
            Appearance::Manual => Sprite { character: DEVICE_CHAR, color: Palette::One(Color::Teal) },
            Appearance::Guidebook => Sprite { character: DEVICE_CHAR, color: Palette::One(Color::Teal) },
            Appearance::RedDevice => Sprite { character: DEVICE_CHAR, color: Palette::One(Color::Red) },
            Appearance::YellowDevice => Sprite { character: DEVICE_CHAR, color: Palette::One(Color::Yellow) },
            Appearance::BlueDevice => Sprite { character: DEVICE_CHAR, color: Palette::One(Color::Blue) },
            Appearance::Palantir => Sprite { character: ARTIFACT_CHAR, color: Palette::Sapphire },
            Appearance::GoldenPendant => Sprite { character: ARTIFACT_CHAR, color: Palette::Gold },
        }
    }

    pub fn sprite(self) -> (r: Sprite)
        ensures
            r == self.sprite_spec(),
    {
        match self {
            Appearance::Crowbar => Sprite { character: WEAPON_CHAR, color: Palette::One(Color::Teal) },
            Appearance::VolcanicShard => Sprite { character: WEAPON_CHAR, color: Palette::One(Color::Maroon) },
            Appearance::Taser => Sprite { character: WEAPON_CHAR, color: Palette::One(Color::Aqua) },
            Appearance::JellyGun => Sprite { character: WEAPON_CHAR, color: Palette::One(Color::Lime) },
            Appearance::Lumimelon => Sprite { character: FOOD_CHAR, color: Palette::One(Color::Lime) },
            Appearance::Glowfruit => Sprite { character: FOOD_CHAR, color: Palette::One(Color::Pink) },
            Appearance::Shineapple => Sprite { character: FOOD_CHAR, color: Palette::One(Color::Yellow) },
            Appearance::RoundPill => Sprite { character: PILL_CHAR, color: Palette::One(Color::White) },
            Appearance::TinyPill => Sprite { character: PILL_CHAR, color: Palette::One(Color::White) },
            Appearance::DiamondPill => Sprite { character: PILL_CHAR, color: Palette::One(Color::White) },
            Appearance::OblongPill => Sprite { character: PILL_CHAR, color: Palette::One(Color::White) },
            Appearance::SoftPill => Sprite { character: PILL_CHAR, color: Palette::One(Color::White) },
            Appearance::HexagonalPill => Sprite { character: PILL_CHAR, color: Palette::One(Color::White) },
            Appearance::WidePill => Sprite { character: PILL_CHAR, color: Palette::One(Color::White) },
            Appearance::TranslucentPill => Sprite { character: PILL_CHAR, color: Palette::One(Color::White) },
            Appearance::ThickSweater => Sprite { character: ARMOR_CHAR, color: Palette::One(Color::Purple) },
            Appearance::BallisticVest => Sprite { character: ARMOR_CHAR, color: Palette::One(Color::Teal) },
            Appearance::DragonScaleMail => Sprite { character: ARMOR_CHAR, color: Palette::One(Color::Green) },
            Appearance::TitaniumNecklace => Sprite { character: NECKLACE_CHAR, color: Palette::One(Color::Gray) },
            Appearance::RustyNecklace => Sprite { character: NECKLACE_CHAR, color: Palette::One(Color::Brown) },
            Appearance::CrimsonNecklace => Sprite { character: NECKLACE_CHAR, color: Palette::One(Color::Maroon) },
            Appearance::GlowingNecklace => Sprite { character: NECKLACE_CHAR, color: Palette::One(Color::Yellow) },
            Appearance::UnholyNecklace => Sprite { character: NECKLACE_CHAR, color: Palette::One(Color::Dark) },
            Appearance::Wand => Sprite { character: DEVICE_CHAR, color: Palette::One(Color::Navy) },
            Appearance::Manual => Sprite { character: DEVICE_CHAR, color: Palette::One(Color::Teal) },
            Appearance::Guidebook => Sprite { character: DEVICE_CHAR, color: Palette::One(Color::Teal) },
            Appearance::RedDevice => Sprite { character: DEVICE_CHAR, color: Palette::One(Color::Red) },
            Appearance::YellowDevice => Sprite { character: DEVICE_CHAR, color: Palette::One(Color::Yellow) },
            Appearance::BlueDevice => Sprite { character: DEVICE_CHAR, color: Palette::One(Color::Blue) },
            Appearance::Palantir => Sprite { character: ARTIFACT_CHAR, color: Palette::Sapphire },
            Appearance::GoldenPendant => Sprite { character: ARTIFACT_CHAR, color: Palette::Gold },
        }
    }
}

/// What an item really is.
#[derive(Clone, Copy, Debug, PartialEq, Eq, Structural)]
pub enum Kind {
    Crowbar,
    VolcanicShard,
    Taser,
    JellyGun,
    FullHPFruit,
    FullTPFruit,
    CancellationFruit,
    ChargePill,
    XPUpPill,
    HastePill,
    IdentifyPill,
    XPDownPill,
    PoisonPill,
    ProtectPill,
    TormentPill,
    ThickSweater,
    BallisticVest,
    DragonScaleMail,
    TitaniumNecklace,
    RustyNecklace,
    CrimsonNecklace,
    GlowingNecklace,
    UnholyNecklace,
    WandOfDeath,
    Manual,
    Guidebook,
    Corruptor,
    Offsetter,
    Copier,
    Palantir,
    GoldenPendant,
}

/// The kind behind each appearance index; index 0 is no item.
pub type AppearanceMap = [Option<Kind>; 32];

/// The appearance map that places the given fruit, pill and device kinds, in this
/// order, on the shuffled appearance indices.
pub open spec fn appearance_map_of(fruits: Seq<Kind>, pills: Seq<Kind>, devices: Seq<Kind>) -> Seq<
    Option<Kind>,
> {
    seq![
        None,
        Some(Kind::Crowbar),
        Some(Kind::VolcanicShard),
        Some(Kind::Taser),
        Some(Kind::JellyGun),
        Some(fruits[0]),
        Some(fruits[1]),
        Some(fruits[2]),
        Some(pills[0]),
        Some(pills[1]),
        Some(pills[2]),
        Some(pills[3]),
        Some(pills[4]),
        Some(pills[5]),
        Some(pills[6]),
        Some(pills[7]),
        Some(Kind::ThickSweater),
        Some(Kind::BallisticVest),
        Some(Kind::DragonScaleMail),
        Some(Kind::TitaniumNecklace),
        Some(Kind::RustyNecklace),
        Some(Kind::CrimsonNecklace),
        Some(Kind::GlowingNecklace),
        Some(Kind::UnholyNecklace),
        Some(Kind::WandOfDeath),
        Some(devices[0]),
        Some(devices[1]),
        Some(devices[2]),
        Some(Kind::Offsetter),
        Some(Kind::Copier),
        Some(Kind::Palantir),
        Some(Kind::GoldenPendant),
    ]
}

pub open spec fn fruit_kinds() -> Seq<Kind> {
    seq![Kind::FullHPFruit, Kind::FullTPFruit, Kind::CancellationFruit]
}

pub open spec fn pill_kinds() -> Seq<Kind> {
    seq![
        Kind::ChargePill,
        Kind::XPUpPill,
        Kind::HastePill,
        Kind::IdentifyPill,
        Kind::XPDownPill,
        Kind::PoisonPill,
        Kind::ProtectPill,
        Kind::TormentPill,
    ]
}

pub open spec fn device_kinds() -> Seq<Kind> {
    seq![Kind::Corruptor, Kind::Offsetter, Kind::Copier]
}

/// Places the given fruit, pill and device kinds on their appearance indices.
pub fn appearance_map_from(fruits: &Vec<Kind>, pills: &Vec<Kind>, devices: &Vec<Kind>) -> (r:
    AppearanceMap)
    requires
        fruits@.len() == 3,
        pills@.len() == 8,
        devices@.len() == 3,
    ensures
        r@ == appearance_map_of(fruits@, pills@, devices@),
{
    let r: AppearanceMap = [
        None,
        Some(Kind::Crowbar),
        Some(Kind::VolcanicShard),
        Some(Kind::Taser),
        Some(Kind::JellyGun),
        Some(fruits[0]),
        Some(fruits[1]),
        Some(fruits[2]),
        Some(pills[0]),
        Some(pills[1]),
        Some(pills[2]),
        Some(pills[3]),
        Some(pills[4]),
        Some(pills[5]),
        Some(pills[6]),
        Some(pills[7]),
        Some(Kind::ThickSweater),
        Some(Kind::BallisticVest),
        Some(Kind::DragonScaleMail),
        Some(Kind::TitaniumNecklace),
        Some(Kind::RustyNecklace),
        Some(Kind::CrimsonNecklace),
        Some(Kind::GlowingNecklace),
        Some(Kind::UnholyNecklace),
        Some(Kind::WandOfDeath),
        Some(devices[0]),
        Some(devices[1]),
        Some(devices[2]),
        Some(Kind::Offsetter),
        Some(Kind::Copier),
        Some(Kind::Palantir),
        Some(Kind::GoldenPendant),
    ];
    assert(r@ =~= appearance_map_of(fruits@, pills@, devices@));
    r
}

/// A random appearance map: the fruits, the pills and the devices are each
/// shuffled among their own appearances.
pub fn random_appearance_map(rng: &mut StdRng) -> (r: AppearanceMap)
    ensures
        exists|f: Seq<Kind>, p: Seq<Kind>, d: Seq<Kind>|
            f.len() == 3 && p.len() == 8 && d.len() == 3 && f.to_multiset()
                == fruit_kinds().to_multiset() && p.to_multiset() == pill_kinds().to_multiset()
                && d.to_multiset() == device_kinds().to_multiset() && r@ == appearance_map_of(
                f,
                p,
                d,
            ),
{
    let mut fruits = vec![Kind::FullHPFruit, Kind::FullTPFruit, Kind::CancellationFruit];
    let mut pills = vec![
        Kind::ChargePill,
        Kind::XPUpPill,
        Kind::HastePill,
        Kind::IdentifyPill,
        Kind::XPDownPill,
        Kind::PoisonPill,
        Kind::ProtectPill,
        Kind::TormentPill,
    ];
    let mut devices = vec![Kind::Corruptor, Kind::Offsetter, Kind::Copier];
    assert(fruits@ =~= fruit_kinds());
    assert(pills@ =~= pill_kinds());
    assert(devices@ =~= device_kinds());
    shuffle(rng, &mut fruits);
    shuffle(rng, &mut pills);
    shuffle(rng, &mut devices);
    appearance_map_from(&fruits, &pills, &devices)
}

/// An item: its appearance and two flags.
#[derive(Clone, Copy, Debug, PartialEq, Eq, Structural)]
pub struct Item {
    pub appearance: Appearance,
    pub enchanted: bool,
    pub cursed: bool,
}

impl Item {
    /// A random item: any appearance, each flag by a coin flip.
    pub fn spawn(rng: &mut StdRng) -> (r: Item)
        ensures
            1 <= r.appearance.code() <= 31,
    {
        let code = random_range(rng, 1, 32);
        Item {
            appearance: Appearance::from_byte(code as u8),
            enchanted: coin_flip(rng),
            cursed: coin_flip(rng),
        }
    }

    pub fn sprite(&self) -> (r: Sprite)
        ensures
            r == self.appearance.sprite_spec(),
    {
        self.appearance.sprite()
    }

    pub fn name(&self) -> (r: &'static str)
        ensures
            r == self.appearance.label(),
    {
        self.appearance.name()
    }
}

pub const APPEARANCE_MASK: u8 = 0b11111000;
pub const ENCHANT_MASK: u8 = 0b00000100;
pub const EQUIP_MASK: u8 = 0b00000010;
pub const CURSE_MASK: u8 = 0b00000001;

/// The item that an inventory byte holds: bits 7 to 3 are the appearance index
/// (0 for none), bit 2 is the enchanted flag and bit 0 the cursed flag.
pub open spec fn slot_item(byte: u8) -> Option<Item> {
    let code = (byte & APPEARANCE_MASK) >> 3u8;
    if code == 0 {
        None
    } else {
        Some(
            Item {
                appearance: choose|a: Appearance| a.code() == code,
                enchanted: byte & ENCHANT_MASK != 0,
                cursed: byte & CURSE_MASK != 0,
            },
        )
    }
}

/// The byte that holds `item`, not equipped.
pub open spec fn slot_byte(item: Item) -> u8 {
    ((item.appearance.code() << 3u8) | (if item.enchanted {
        ENCHANT_MASK
    } else {
        0
    }) | (if item.cursed {
        CURSE_MASK
    } else {
        0
    })) as u8
}

/// One inventory slot, packed in a byte.
#[derive(Clone, Copy, Debug, PartialEq, Eq, Structural)]
pub struct InventorySlot {
    pub byte: u8,
}

impl InventorySlot {
    pub fn empty() -> (r: InventorySlot)
        ensures
            r.byte == 0,
    {
        InventorySlot { byte: 0 }
    }

    pub fn filled(item: Item) -> (r: InventorySlot)
        ensures
            r.byte == slot_byte(item),
            slot_item(r.byte) == Some(item),
    {
        let code = item.appearance.to_byte();
        let e: u8 = if item.enchanted {
            ENCHANT_MASK
        } else {
            0
        };
        let c: u8 = if item.cursed {
            CURSE_MASK
        } else {
            0
        };
        let byte: u8 = (code << 3u8) | e | c;
        proof {
            assert((byte & APPEARANCE_MASK) >> 3u8 == code) by (bit_vector)
                requires
                    1 <= code <= 31,
                    byte == (code << 3u8) | e | c,
                    e == 0 || e == 4,
                    c == 0 || c == 1,
            ;
            assert((byte & ENCHANT_MASK != 0) == (e == 4)) by (bit_vector)
                requires
                    1 <= code <= 31,
                    byte == (code << 3u8) | e | c,
                    e == 0 || e == 4,
                    c == 0 || c == 1,
            ;
            assert((byte & CURSE_MASK != 0) == (c == 1)) by (bit_vector)
                requires
                    1 <= code <= 31,
                    byte == (code << 3u8) | e | c,
                    e == 0 || e == 4,
                    c == 0 || c == 1,
            ;
            let a = choose|a: Appearance| a.code() == code;
            assert(item.appearance.code() == code);
            assert(a.code() == code);
            assert(a == item.appearance);
        }
        InventorySlot { byte }
    }

    pub fn is_empty(self) -> (r: bool)
        ensures
            r == (slot_item(self.byte) is None),
    {
        proof {
            let b = self.byte;
            assert((b & APPEARANCE_MASK == 0) == ((b & APPEARANCE_MASK) >> 3u8 == 0)) by (bit_vector);
        }
        self.byte & APPEARANCE_MASK == 0
    }

    pub fn get_item(self) -> (r: Option<Item>)
        ensures
            r == slot_item(self.byte),
    {
        if self.is_empty() {
            None
        } else {
            let b = self.byte;
            let code = (b & APPEARANCE_MASK) >> 3u8;
            assert(code <= 31) by (bit_vector)
                requires
                    code == (b & APPEARANCE_MASK) >> 3u8,
            ;
            let a = Appearance::from_byte(code);
            proof {
                let c = choose|x: Appearance| x.code() == code;
                assert(c == a);
            }
            Some(
                Item {
                    appearance: a,
                    enchanted: b & ENCHANT_MASK != 0,
                    cursed: b & CURSE_MASK != 0,
                },
            )
        }
    }

    pub fn is_cursed(self) -> (r: bool)
        ensures
            r == (self.byte & CURSE_MASK != 0),
    {
        self.byte & CURSE_MASK != 0
    }

    pub fn is_enchanted(self) -> (r: bool)
        ensures
            r == (self.byte & ENCHANT_MASK != 0),
    {
        self.byte & ENCHANT_MASK != 0
    }

    pub fn is_equipped(self) -> (r: bool)
        ensures
            r == (self.byte & EQUIP_MASK != 0),
    {
        self.byte & EQUIP_MASK != 0
    }

    pub fn equip(self) -> (r: InventorySlot)
        ensures
            r.byte == self.byte | EQUIP_MASK,
    {
        InventorySlot { byte: self.byte | EQUIP_MASK }
    }

    pub fn unequip(self) -> (r: InventorySlot)
        ensures
            r.byte == self.byte & !EQUIP_MASK,
    {
        InventorySlot { byte: self.byte & !EQUIP_MASK }
    }
}

/// A slot that `Inventory::insert` may fill: empty and not cursed.
pub open spec fn slot_free(slot: InventorySlot) -> bool {
    slot_item(slot.byte) is None && slot.byte & CURSE_MASK == 0
}

/// The eight inventory slots.
pub struct Inventory {
    pub slots: [InventorySlot; 8],
}

impl Inventory {
    pub fn empty() -> (r: Inventory)
        ensures
            forall|i: int| 0 <= i < 8 ==> (#[trigger] r.slots@[i]).byte == 0,
    {
        Inventory { slots: [InventorySlot::empty();8] }
    }

    /// Puts `item` in the first free slot; false, and nothing changed, when no
    /// slot is free.
    pub fn insert(&mut self, item: Item) -> (r: bool)
        ensures
            r == exists|i: int| 0 <= i < 8 && slot_free(#[trigger] old(self).slots@[i]),
            !r ==> final(self).slots@ == old(self).slots@,
            r ==> exists|i: int|
                0 <= i < 8 && slot_free(old(self).slots@[i]) && (forall|j: int|
                    0 <= j < i ==> !slot_free(#[trigger] old(self).slots@[j])) && final(self).slots@
                    == old(self).slots@.update(i, InventorySlot { byte: slot_byte(item) }),
    {
        let mut i: usize = 0;
        while i < 8
            invariant
                self.slots@ == old(self).slots@,
                forall|j: int| 0 <= j < i ==> !slot_free(#[trigger] old(self).slots@[j]),
            decreases 8 - i,
        {
            let slot = self.slots[i];
            if slot.is_empty() && !slot.is_cursed() {
                let filled = InventorySlot::filled(item);
                self.slots[i] = filled;
                assert(self.slots@ =~= old(self).slots@.update(i as int, filled));
                assert(slot_free(old(self).slots@[i as int]));
                return true;
            }
            i = i + 1;
        }
        false
    }
}

} // verus!
