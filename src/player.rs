use vstd::prelude::*;
use crate::dungeon::Dungeon;
use crate::geometry::Point;
use crate::grid::Grid;
use crate::byte::{flip, BitNumber};
use crate::dungeon::unseen;
use crate::fov::{calculate, sees};
use crate::geometry::{CELLS, HEIGHT, WIDTH};
use crate::item::{slot_item, Inventory, InventorySlot, Item};
use crate::level::Level;
use crate::log::{told, Log};
use crate::names::{a_or_an, decimal, decimal_string, join3, with_article};
use crate::random::shuffle;
use crate::speech::intro_line;
use crate::tile::{Stairs, Tile};
use rand::rngs::StdRng;

verus! {

/// The player's state.
pub struct Player {
    pub position: Point,
    /// 1 to 255; 0 is outside the dungeon.
    pub depth: u8,
    /// Character codes, 0 ending the name early.
    pub name: [u8; 15],
    pub hp: u8,
    pub tp: u8,
    pub xl: u8,
    pub def: i8,
    /// Metal, acid, fire and electric aptitudes.
    pub aptitude: [i8; 4],
    pub inventory: Inventory,
    /// One flag for each of the eight spells.
    pub spell_memory: [bool; 8],
    /// Poison, haste, charge and protect timers.
    pub timer: [u8; 4],
    /// The address that the player's spells act on.
    pub selected: u8,
    pub stairs_delta: u8,
    pub timer_delta: u8,
    pub damage_offset: i8,
    pub text_sync: u8,
    /// Whether the screen shows the memory map instead of the inventory.
    pub show_ram: bool,
    /// The cells the player sees now.
    pub visible: Grid<bool>,
}

/// What the player is told on stepping onto an item.
pub open spec fn item_message(item: Item) -> Seq<char> {
    "You see here "@ + with_article(item.appearance.label()@) + "."@
}

/// What the player is told on stepping onto stairs leading to `destination`.
pub open spec fn stairs_message(stairs: Stairs, destination: u8) -> Seq<char> {
    let direction = match stairs {
        Stairs::Up => "up"@,
        Stairs::Down => "down"@,
    };
    if destination == 0 {
        "There is a staircase leading "@ + direction + " out of the cellar here."@
    } else {
        "There is a staircase "@ + direction + " to level "@ + decimal(destination as nat) + " here."@
    }
}

/// `p` is `from` or one of its eight neighbors.
pub open spec fn within_one(from: Point, p: Point) -> bool {
    -1 <= p.0 - from.0 <= 1 && -1 <= p.1 - from.1 <= 1
}

/// `p` is one step from `from` along an axis.
pub open spec fn orthogonal_to(from: Point, p: Point) -> bool {
    ||| (p.0 == from.0 && (p.1 - from.1 == 1 || p.1 - from.1 == -1))
    ||| (p.1 == from.1 && (p.0 - from.0 == 1 || p.0 - from.0 == -1))
}

pub open spec fn offset(from: Point, d: Point) -> Point {
    Point((from.0 + d.0) as i32, (from.1 + d.1) as i32)
}

/// A cell an item can be dropped on: a floor or doorway cell with no item.
pub open spec fn drop_spot(level: Level, p: Point) -> bool {
    &&& p.on_board()
    &&& (level.tiles.at(p) == Tile::Floor || level.tiles.at(p) == Tile::Doorway)
    &&& level.items.at(p) is None
}

/// The first cell of `tiles`, in row order, that holds `t`.
pub open spec fn first_cell_with(tiles: Grid<Tile>, t: Tile, p: Point) -> bool {
    &&& p.on_board()
    &&& tiles.at(p) == t
    &&& forall|q: Point| q.on_board() && q.index_spec() < p.index_spec() ==> tiles.at(q) != t
}

/// The first cell of `tiles`, in row order, that holds `t`.
pub fn find_tile(tiles: &Grid<Tile>, t: Tile) -> (r: Option<Point>)
    requires
        tiles.wf(),
    ensures
        r matches Some(p) ==> first_cell_with(*tiles, t, p),
        r is None ==> forall|q: Point| q.on_board() ==> tiles.at(q) != t,
{
    let mut y: i32 = 0;
    while y < HEIGHT as i32
        invariant
            tiles.wf(),
            0 <= y <= HEIGHT,
            forall|q: Point| q.on_board() && q.1 < y ==> tiles.at(q) != t,
        decreases HEIGHT - y,
    {
        let mut x: i32 = 0;
        while x < WIDTH as i32
            invariant
                tiles.wf(),
                0 <= y < HEIGHT,
                0 <= x <= WIDTH,
                forall|q: Point| q.on_board() && (q.1 < y || (q.1 == y && q.0 < x)) ==> tiles.at(q) != t,
            decreases WIDTH - x,
        {
            if *tiles.get(Point(x, y)) == t {
                proof {
                    assert forall|q: Point| q.on_board() && q.index_spec() < Point(x, y).index_spec() implies tiles.at(q) != t by {
                        if !(q.1 < y || (q.1 == y && q.0 < x)) {
                            assert(q.1 >= y);
                            if q.1 > y {
                                assert(q.index_spec() >= 19 * (y + 1));
                            }
                        }
                    }
                }
                return Some(Point(x, y));
            }
            x = x + 1;
        }
        y = y + 1;
    }
    None
}

impl Player {
    /// The index in the dungeon of the player's level, if the depth names one.
    pub open spec fn level_index(&self, dungeon: Seq<Level>) -> Option<int> {
        if 1 <= self.depth <= dungeon.len() {
            Some(self.depth - 1)
        } else {
            None
        }
    }

    pub fn current_level<'a>(&self, dungeon: &'a Dungeon) -> (r: &'a Level)
        requires
            1 <= self.depth <= dungeon@.len(),
        ensures
            *r == dungeon@[self.depth - 1],
    {
        &dungeon[self.depth as usize - 1]
    }

    /// Sees from the current position, and adds what is seen to the level's
    /// known cells. Off the board nothing is seen.
    pub fn update_visibility(&mut self, level: &mut Level)
        requires
            old(level).wf(),
        ensures
            final(level).wf(),
            *final(self) == (Player { visible: final(self).visible, ..*old(self) }),
            *final(level) == (Level { known_tiles: final(level).known_tiles, ..*old(level) }),
            final(self).visible.wf(),
            forall|p: Point|
                p.on_board() ==> #[trigger] final(self).visible.at(p) == (old(self).position.on_board()
                    && sees(old(level).tiles.grid@, old(self).position, p)),
            forall|p: Point|
                p.on_board() ==> #[trigger] final(level).known_tiles.at(p) == (old(level).known_tiles.at(p)
                    || final(self).visible.at(p)),
    {
        let position = self.position;
        let visible = if position.0 >= 0 && position.0 < 19 && position.1 >= 0 && position.1 < 13 {
            calculate(level, position)
        } else {
            unseen()
        };
        let mut i: usize = 0;
        while i < CELLS
            invariant
                level.wf(),
                visible.wf(),
                i <= CELLS,
                *level == (Level { known_tiles: level.known_tiles, ..*old(level) }),
                forall|j: int| 0 <= j < CELLS ==> #[trigger] level.known_tiles.grid@[j] == (old(level).known_tiles.grid@[j] || (j < i && visible.grid@[j])),
            decreases CELLS - i,
        {
            if visible.grid[i] {
                level.known_tiles.grid.set(i, true);
            }
            i = i + 1;
        }
        self.visible = visible;
    }

    /// Tells what lies on the player's cell: an item, then a staircase.
    pub fn look_at_floor(&self, log: &mut Log, level: &Level)
        requires
            level.wf(),
        ensures
            ({
                let here = self.position;
                let item = level.items.at(here);
                let stairs = match level.tiles.at(here) {
                    Tile::Stairs(s) => Some(stairs_message(s, s.destination_spec(self.depth, self.stairs_delta))),
                    _ => None,
                };
                if !here.on_board() || (item is None && stairs is None) {
                    *final(log) == *old(log)
                } else if stairs is None {
                    told(*old(log), *final(log), item_message(item->Some_0))
                } else if item is None {
                    told(*old(log), *final(log), stairs->Some_0)
                } else {
                    exists|mid: Log|
                        #[trigger] told(*old(log), mid, item_message(item->Some_0)) && told(
                            mid,
                            *final(log),
                            stairs->Some_0,
                        )
                }
            }),
    {
        if !(self.position.0 >= 0 && self.position.0 < 19 && self.position.1 >= 0 && self.position.1 < 13) {
            return;
        }
        let ghost start = *log;
        self.tell_item(log, level);
        let ghost mid = *log;
        self.tell_stairs(log, level);
        proof {
            if level.items.at(self.position) is Some {
                if let Tile::Stairs(s) = level.tiles.at(self.position) {
                    assert(told(start, mid, item_message(level.items.at(self.position)->Some_0)));
                    assert(told(mid, *log, stairs_message(s, s.destination_spec(self.depth, self.stairs_delta))));
                }
            }
        }
    }

    fn tell_item(&self, log: &mut Log, level: &Level)
        requires
            level.wf(),
            self.position.on_board(),
        ensures
            match level.items.at(self.position) {
                Some(i) => told(*old(log), *final(log), item_message(i)),
                None => *final(log) == *old(log),
            },
    {
        if let Some(item) = level.items.get(self.position) {
            let phrase = a_or_an(item.name());
            let m = join3("You see here ", phrase.as_str(), ".");
            assert(m@ == item_message(*item));
            log.tell(m);
        }
    }

    fn tell_stairs(&self, log: &mut Log, level: &Level)
        requires
            level.wf(),
            self.position.on_board(),
        ensures
            match level.tiles.at(self.position) {
                Tile::Stairs(s) => told(*old(log), *final(log), stairs_message(s, s.destination_spec(self.depth, self.stairs_delta))),
                _ => *final(log) == *old(log),
            },
    {
        if let Tile::Stairs(stairs) = *level.tiles.get(self.position) {
            let direction = match stairs {
                Stairs::Up => "up",
                Stairs::Down => "down",
            };
            let destination = stairs.destination(self);
            if destination == 0 {
                let m = join3("There is a staircase leading ", direction, " out of the cellar here.");
                assert(m@ == stairs_message(stairs, destination));
                log.tell(m);
            } else {
                let mut m = join3("There is a staircase ", direction, " to level ");
                let number = decimal_string(destination as u32);
                m.append(number.as_str());
                m.append(" here.");
                assert(m@ == stairs_message(stairs, destination));
                log.tell(m);
            }
        }
    }

    /// Enters the level at `depth` on its staircase `entry`, and looks around.
    /// Depth 0, outside the dungeon, is not entered.
    pub fn enter_level(&mut self, log: &mut Log, dungeon: &mut Dungeon, depth: u8, entry: Stairs)
        requires
            old(dungeon)@.len() == 255,
            forall|i: int| 0 <= i < old(dungeon)@.len() ==> (#[trigger] old(dungeon)@[i]).wf(),
            old(self).position.encodable(),
        ensures
            final(dungeon)@.len() == 255,
            forall|i: int| 0 <= i < final(dungeon)@.len() ==> (#[trigger] final(dungeon)@[i]).wf(),
            final(self).position.encodable(),
            final(self).visible.wf() || final(self).visible == old(self).visible,
            depth == 0 ==> *final(self) == *old(self) && final(dungeon)@ == old(dungeon)@,
            depth != 0 ==> final(self).depth == depth,
            *final(self) == (Player {
                depth: final(self).depth,
                position: final(self).position,
                visible: final(self).visible,
                ..*old(self)
            }),
            depth != 0 ==> forall|i: int| 0 <= i < 255 && i != depth - 1 ==> #[trigger] final(dungeon)@[i] == old(dungeon)@[i],
            depth != 0 ==> final(dungeon)@[depth - 1].tiles == old(dungeon)@[depth - 1].tiles,
            depth != 0 ==> (exists|p: Point| #[trigger] first_cell_with(old(dungeon)@[depth - 1].tiles, Tile::Stairs(entry), p))
                ==> first_cell_with(old(dungeon)@[depth - 1].tiles, Tile::Stairs(entry), final(self).position),
            final(log).turn_count == old(log).turn_count,
    {
        if depth == 0 {
            return;
        }
        self.depth = depth;
        let level = &mut dungeon[depth as usize - 1];
        proof {
            assert(old(dungeon)@[depth - 1].wf());
        }
        match find_tile(&level.tiles, Tile::Stairs(entry)) {
            Some(p) => {
                self.position = p;
            },
            None => {},
        }
        self.update_visibility(level);
        self.look_at_floor(log, level);
    }

    /// Takes the stairs `stairs` if the player stands on them: the destination
    /// depth is the current depth moved by the stairs delta, and the player
    /// arrives on the opposite stairs there.
    pub fn try_stairs(&mut self, log: &mut Log, dungeon: &mut Dungeon, stairs: Stairs)
        requires
            old(dungeon)@.len() == 255,
            forall|i: int| 0 <= i < old(dungeon)@.len() ==> (#[trigger] old(dungeon)@[i]).wf(),
            old(self).position.encodable(),
        ensures
            final(dungeon)@.len() == 255,
            forall|i: int| 0 <= i < final(dungeon)@.len() ==> (#[trigger] final(dungeon)@[i]).wf(),
            final(self).position.encodable(),
            final(self).visible.wf() || final(self).visible == old(self).visible,
            ({
                let on_stairs = 1 <= old(self).depth && old(self).position.on_board()
                    && old(dungeon)@[old(self).depth - 1].tiles.at(old(self).position) == Tile::Stairs(stairs);
                let destination = stairs.destination_spec(old(self).depth, old(self).stairs_delta);
                &&& !on_stairs ==> *final(self) == *old(self) && final(dungeon)@ == old(dungeon)@
                &&& on_stairs && destination != 0 ==> final(self).depth == destination
                &&& on_stairs && destination == 0 ==> final(self).depth == old(self).depth
            }),
            final(log).turn_count == old(log).turn_count,
    {
        let here = self.position;
        if self.depth == 0 || !(here.0 >= 0 && here.0 < 19 && here.1 >= 0 && here.1 < 13) {
            return;
        }
        proof {
            assert(dungeon@[self.depth - 1].wf());
        }
        if *self.current_level(dungeon).tiles.get(here) == Tile::Stairs(stairs) {
            match stairs {
                Stairs::Up => log.tell(String::from_str("You go up the stairs.")),
                Stairs::Down => log.tell(String::from_str("You go down the stairs.")),
            }
            let destination = stairs.destination(self);
            self.enter_level(log, dungeon, destination, stairs.flip());
        }
    }

    /// Tries to walk one step in `direction`; returns whether this took a turn.
    /// A living monster there is hit and dies; a wall stops the player; a door
    /// opens; a switch flips its bit of the selected address; floor, doorways
    /// and stairs are walked onto.
    pub fn step(&mut self, log: &mut Log, dungeon: &mut Dungeon, direction: Point) -> (r: bool)
        requires
            old(dungeon)@.len() == 255,
            forall|i: int| 0 <= i < old(dungeon)@.len() ==> (#[trigger] old(dungeon)@[i]).wf(),
            old(self).position.encodable(),
            1 <= old(self).depth,
            -1 <= direction.0 <= 1,
            -1 <= direction.1 <= 1,
        ensures
            final(dungeon)@.len() == 255,
            forall|i: int| 0 <= i < final(dungeon)@.len() ==> (#[trigger] final(dungeon)@[i]).wf(),
            final(self).position.encodable(),
            final(self).visible.wf() || final(self).visible == old(self).visible,
            final(self).depth == old(self).depth,
            ({
                let target = Point((old(self).position.0 + direction.0) as i32, (old(self).position.1 + direction.1) as i32);
                let level = old(dungeon)@[old(self).depth - 1];
                &&& !target.on_board() ==> !r && *final(self) == *old(self) && final(dungeon)@ == old(dungeon)@
                &&& target.on_board() && !level.occupied(target) && level.tiles.at(target) == Tile::Wall ==> !r
                    && *final(self) == *old(self) && final(dungeon)@ == old(dungeon)@
                &&& target.on_board() && level.occupied(target) ==> r && *final(self) == *old(self) && exists|i: int|
                    #[trigger] level.first_living_at(i, target) && final(dungeon)@ == old(dungeon)@.update(
                        old(self).depth - 1,
                        Level {
                            monsters: final(dungeon)@[old(self).depth - 1].monsters,
                            ..level
                        },
                    ) && final(dungeon)@[old(self).depth - 1].monsters@ == level.monsters@.update(
                        i,
                        crate::monster::Monster { hp: 0, ..level.monsters@[i] },
                    )
                &&& target.on_board() && !level.occupied(target) && level.tiles.at(target).open_spec() ==> r
                    && final(self).position == target
                &&& target.on_board() && !level.occupied(target) && level.tiles.at(target) == Tile::Door ==> r
                    && final(self).position == old(self).position
                    && final(dungeon)@[old(self).depth - 1].tiles.at(target) == Tile::Doorway
                &&& forall|b: BitNumber| target.on_board() && !level.occupied(target) && level.tiles.at(target) == Tile::Switch(b) ==> r
                    && *final(self) == (Player { selected: old(self).selected ^ b.mask_spec(), ..*old(self) })
            }),
    {
        let li = self.depth as usize - 1;
        let new_position = self.position.add(direction);
        if !(new_position.0 >= 0 && new_position.0 < 19 && new_position.1 >= 0 && new_position.1 < 13) {
            return false;
        }
        proof {
            assert(dungeon@[li as int].wf());
        }
        let level = &mut dungeon[li];
        if let Some(i) = level.monster_index_at(new_position) {
            let name = level.monsters[i].name();
            log.tell(join3("You hit the ", name, "."));
            let hit = crate::monster::Monster { hp: 0, ..level.monsters[i] };
            level.monsters[i] = hit;
            proof {
                assert(old(dungeon)@[li as int].first_living_at(i as int, new_position));
                assert(level.monsters@ =~= old(dungeon)@[li as int].monsters@.update(i as int, hit));
            }
            return true;
        }
        match *level.tiles.get(new_position) {
            Tile::Wall => false,
            Tile::Floor | Tile::Doorway | Tile::Stairs(_) => {
                self.position = new_position;
                self.update_visibility(level);
                self.look_at_floor(log, level);
                true
            },
            Tile::Door => {
                level.tiles.set(new_position, Tile::Doorway);
                log.tell(String::from_str("You open the door."));
                self.update_visibility(level);
                true
            },
            Tile::Switch(bn) => {
                self.selected = flip(self.selected, bn);
                true
            },
        }
    }

    /// Picks up the item on the player's cell into the first free inventory
    /// slot; returns whether this took a turn.
    pub fn pick_up_item(&mut self, log: &mut Log, dungeon: &mut Dungeon) -> (r: bool)
        requires
            old(dungeon)@.len() == 255,
            forall|i: int| 0 <= i < old(dungeon)@.len() ==> (#[trigger] old(dungeon)@[i]).wf(),
            1 <= old(self).depth,
        ensures
            final(dungeon)@.len() == 255,
            forall|i: int| 0 <= i < final(dungeon)@.len() ==> (#[trigger] final(dungeon)@[i]).wf(),
            final(self).position == old(self).position,
            final(self).depth == old(self).depth,
            final(self).visible == old(self).visible,
            ({
                let level = old(dungeon)@[old(self).depth - 1];
                let here = old(self).position;
                &&& r ==> here.on_board() && level.items.at(here) is Some
                    && final(dungeon)@[old(self).depth - 1].items.at(here) is None
                    && exists|i: int|
                        0 <= i < 8 && crate::item::slot_free(#[trigger] old(self).inventory.slots@[i]) && (forall|j: int|
                            0 <= j < i ==> !crate::item::slot_free(#[trigger] old(self).inventory.slots@[j]))
                            && final(self).inventory.slots@ == old(self).inventory.slots@.update(
                            i,
                            InventorySlot { byte: crate::item::slot_byte(level.items.at(here)->Some_0) },
                        )
                &&& !r ==> final(dungeon)@ == old(dungeon)@
                    && final(self).inventory.slots@ == old(self).inventory.slots@
                &&& (here.on_board() && level.items.at(here) is Some && exists|i: int| 0 <= i < 8
                    && crate::item::slot_free(#[trigger] old(self).inventory.slots@[i])) ==> r
            }),
    {
        let here = self.position;
        if !(here.0 >= 0 && here.0 < 19 && here.1 >= 0 && here.1 < 13) {
            log.tell(String::from_str("There is no item here."));
            return false;
        }
        let li = self.depth as usize - 1;
        proof {
            assert(dungeon@[li as int].wf());
        }
        let level = &mut dungeon[li];
        match *level.items.get(here) {
            Some(item) => {
                if self.inventory.insert(item) {
                    level.items.set(here, None);
                    log.tell(join3("You pick up the ", item.name(), "."));
                    true
                } else {
                    log.tell(String::from_str("Your inventory is full!"));
                    false
                }
            },
            None => {
                log.tell(String::from_str("There is no item here."));
                false
            },
        }
    }

    /// Drops the item of inventory slot `index` on the player's cell or, if
    /// that is taken, on a free floor or doorway cell next to it: a cell one
    /// step away orthogonally before a diagonal one, in random order among
    /// them. Cursed items stay. Returns whether this took a turn.
    pub fn drop_item(&mut self, log: &mut Log, dungeon: &mut Dungeon, index: BitNumber, rng: &mut StdRng) -> (r: bool)
        requires
            old(dungeon)@.len() == 255,
            forall|i: int| 0 <= i < old(dungeon)@.len() ==> (#[trigger] old(dungeon)@[i]).wf(),
            old(self).position.encodable(),
            1 <= old(self).depth,
        ensures
            final(dungeon)@.len() == 255,
            forall|i: int| 0 <= i < final(dungeon)@.len() ==> (#[trigger] final(dungeon)@[i]).wf(),
            ({
                let slot = old(self).inventory.slots@[index.index() as int];
                let level = old(dungeon)@[old(self).depth - 1];
                let here = old(self).position;
                let droppable = slot_item(slot.byte) is Some && slot.byte & crate::item::CURSE_MASK == 0;
                &&& !r ==> *final(self) == *old(self) && final(dungeon)@ == old(dungeon)@
                &&& r == (droppable && exists|p: Point| within_one(here, p) && drop_spot(level, p))
                &&& r ==> exists|p: Point| {
                    &&& within_one(here, p)
                    &&& drop_spot(level, p)
                    &&& (drop_spot(level, here) ==> p == here)
                    &&& (p != here && (exists|q: Point| orthogonal_to(here, q) && drop_spot(level, q)) ==> orthogonal_to(here, p))
                    &&& final(dungeon)@[old(self).depth - 1].items.at(p) == slot_item(slot.byte)
                    &&& final(self).inventory.slots@ == old(self).inventory.slots@.update(index.index() as int, InventorySlot { byte: 0 })
                }
            }),
    {
        let k = index.number();
        let slot = self.inventory.slots[k];
        let item = match slot.get_item() {
            Some(item) => {
                if slot.is_cursed() {
                    log.tell(join3("You can't drop the cursed ", item.name(), "!"));
                    return false;
                }
                item
            },
            None => {
                log.tell(String::from_str("You don't have that item!"));
                return false;
            },
        };
        let li = self.depth as usize - 1;
        proof {
            assert(dungeon@[li as int].wf());
        }
        let level = &dungeon[li];
        let mut orthogonal = vec![Point(0, 1), Point(1, 0), Point(0, -1), Point(-1, 0)];
        let mut diagonal = vec![Point(1, 1), Point(-1, 1), Point(1, -1), Point(-1, -1)];
        let ghost orth0 = orthogonal@;
        let ghost diag0 = diagonal@;
        shuffle(rng, &mut orthogonal);
        shuffle(rng, &mut diagonal);
        let ghost orth1 = orthogonal@;
        let ghost diag1 = diagonal@;
        let mut directions = vec![Point(0, 0)];
        directions.append(&mut orthogonal);
        directions.append(&mut diagonal);
        let here = self.position;
        proof {
            broadcast use vstd::seq_lib::group_to_multiset_ensures;

            assert(directions@ =~= seq![Point(0, 0)] + orth1 + diag1);
            assert forall|t: int| 0 <= t < 4 implies orthogonal_to(Point(0, 0), #[trigger] orth1[t]) by {
                assert(orth1.contains(orth1[t]));
                assert(orth1.to_multiset().count(orth1[t]) > 0);
                assert(orth0.contains(orth1[t]));
                let u = choose|u: int| 0 <= u < orth0.len() && orth0[u] == orth1[t];
            }
            assert forall|t: int| 0 <= t < 4 implies !orthogonal_to(Point(0, 0), #[trigger] diag1[t]) && within_one(Point(0, 0), diag1[t]) by {
                assert(diag1.contains(diag1[t]));
                assert(diag1.to_multiset().count(diag1[t]) > 0);
                assert(diag0.contains(diag1[t]));
                let u = choose|u: int| 0 <= u < diag0.len() && diag0[u] == diag1[t];
            }
            assert forall|d: Point| within_one(Point(0, 0), d) implies #[trigger] directions@.contains(d) by {
                if d.0 == 0 && d.1 == 0 {
                    assert(directions@[0] == d);
                } else if orthogonal_to(Point(0, 0), d) {
                    assert(orth0.contains(d)) by {
                        if d.0 == 0 && d.1 == 1 { assert(orth0[0] == d); }
                        else if d.0 == 1 && d.1 == 0 { assert(orth0[1] == d); }
                        else if d.0 == 0 && d.1 == -1 { assert(orth0[2] == d); }
                        else { assert(orth0[3] == d); }
                    }
                    assert(orth1.to_multiset().count(d) > 0);
                    let t = choose|t: int| 0 <= t < orth1.len() && orth1[t] == d;
                    assert(directions@[1 + t] == d);
                } else {
                    assert(diag0.contains(d)) by {
                        if d.0 == 1 && d.1 == 1 { assert(diag0[0] == d); }
                        else if d.0 == -1 && d.1 == 1 { assert(diag0[1] == d); }
                        else if d.0 == 1 && d.1 == -1 { assert(diag0[2] == d); }
                        else { assert(diag0[3] == d); }
                    }
                    assert(diag1.to_multiset().count(d) > 0);
                    let t = choose|t: int| 0 <= t < diag1.len() && diag1[t] == d;
                    assert(directions@[5 + t] == d);
                }
            }
        }
        let mut j: usize = 0;
        while j < directions.len()
            invariant
                level.wf(),
                *level == old(dungeon)@[li as int],
                dungeon@ == old(dungeon)@,
                old(dungeon)@.len() == 255,
                li < 255,
                forall|i: int| 0 <= i < old(dungeon)@.len() ==> (#[trigger] old(dungeon)@[i]).wf(),
                *self == *old(self),
                li == old(self).depth - 1,
                slot == old(self).inventory.slots@[k as int],
                k == index.index(),
                Some(item) == slot_item(slot.byte),
                slot.byte & crate::item::CURSE_MASK == 0,
                directions@ == seq![Point(0, 0)] + orth1 + diag1,
                orth1.len() == 4,
                diag1.len() == 4,
                here == old(self).position,
                here.encodable(),
                forall|t: int| 0 <= t < 4 ==> orthogonal_to(Point(0, 0), #[trigger] orth1[t]),
                forall|t: int| 0 <= t < 4 ==> !orthogonal_to(Point(0, 0), #[trigger] diag1[t]) && within_one(Point(0, 0), diag1[t]),
                forall|d: Point| within_one(Point(0, 0), d) ==> #[trigger] directions@.contains(d),
                j <= 9,
                forall|t: int| 0 <= t < j ==> !drop_spot(*level, offset(here, #[trigger] directions@[t])),
            decreases 9 - j,
        {
            let d = directions[j];
            proof {
                if j >= 1 && j < 5 {
                    assert(d == orth1[j - 1]);
                } else if j >= 5 {
                    assert(d == diag1[j - 5]);
                }
            }
            assert(within_one(Point(0, 0), d));
            let position = here.add(d);
            if position.0 >= 0 && position.0 < 19 && position.1 >= 0 && position.1 < 13 {
                let tile = *level.tiles.get(position);
                if (tile == Tile::Floor || tile == Tile::Doorway) && level.items.get(position).is_none() {
                    proof {
                        assert(drop_spot(*level, position));
                        if j > 0 {
                            assert(directions@[0] == Point(0, 0));
                            assert(offset(here, Point(0, 0)) == here);
                        }
                        assert forall|q: Point| orthogonal_to(here, q) && drop_spot(*level, q) && position != here implies orthogonal_to(here, position) by {
                            let dq = Point((q.0 - here.0) as i32, (q.1 - here.1) as i32);
                            assert(within_one(Point(0, 0), dq));
                            assert(directions@.contains(dq));
                            let t = choose|t: int| 0 <= t < 9 && directions@[t] == dq;
                            assert(offset(here, dq) == q);
                            assert(t >= j);
                            if j >= 5 {
                                assert(directions@[t] == diag1[t - 5]);
                            }
                        }
                    }
                    self.inventory.slots[k] = InventorySlot::empty();
                    log.tell(join3("You drop the ", item.name(), "."));
                    let level = &mut dungeon[li];
                    level.items.set(position, Some(item));
                    proof {
                        assert(within_one(here, position));
                        assert(dungeon@[li as int].items.at(position) == Some(item));
                        assert(drop_spot(old(dungeon)@[li as int], position));
                        assert(drop_spot(old(dungeon)@[li as int], here) ==> position == here);
                        assert(self.inventory.slots@ =~= old(self).inventory.slots@.update(k as int, InventorySlot { byte: 0 }));
                        assert((position != here && (exists|q: Point| orthogonal_to(here, q) && drop_spot(old(dungeon)@[li as int], q))) ==> orthogonal_to(here, position));
                        assert(slot_item(slot.byte) is Some && slot.byte & crate::item::CURSE_MASK == 0);
                        assert(dungeon@[li as int].items.at(position) == slot_item(slot.byte));
                        assert(li == old(self).depth - 1);
                    }
                    return true;
                }
            }
            j = j + 1;
        }
        proof {
            assert forall|p: Point| within_one(here, p) implies !drop_spot(*level, p) by {
                let dp = Point((p.0 - here.0) as i32, (p.1 - here.1) as i32);
                assert(within_one(Point(0, 0), dp));
                assert(directions@.contains(dp));
                let t = choose|t: int| 0 <= t < 9 && directions@[t] == dp;
                assert(offset(here, dp) == p);
            }
        }
        log.tell(String::from_str("No room on floor!"));
        false
    }

    /// Uses the item of inventory slot `index`: food and pills are used up;
    /// returns whether this took a turn.
    pub fn use_item(&mut self, log: &mut Log, dungeon: &mut Dungeon, index: BitNumber) -> (r: bool)
        ensures
            final(dungeon)@ == old(dungeon)@,
            ({
                let slot = old(self).inventory.slots@[index.index() as int];
                &&& r == (slot_item(slot.byte) matches Some(item) && item.appearance.consumable_spec())
                &&& r ==> *final(self) == (Player { inventory: final(self).inventory, ..*old(self) })
                    && final(self).inventory.slots@ == old(self).inventory.slots@.update(index.index() as int, InventorySlot { byte: 0 })
                &&& !r ==> *final(self) == *old(self)
            }),
    {
        let k = index.number();
        let slot = self.inventory.slots[k];
        let item = match slot.get_item() {
            Some(item) => item,
            None => {
                log.tell(String::from_str("You don't have that item!"));
                return false;
            },
        };
        if item.appearance.is_consumable() {
            log.tell(join3("You use up the ", item.name(), "."));
            self.inventory.slots[k] = InventorySlot::empty();
            assert(self.inventory.slots@ =~= old(self).inventory.slots@.update(k as int, InventorySlot { byte: 0 }));
            return true;
        }
        if item.appearance.is_equipment() {
            log.tell(join3("You cannot equip the ", item.name(), " yet."));
            return false;
        }
        log.tell(join3("You cannot use the ", item.name(), " yet."));
        false
    }

    /// A new player, who enters the first level on its up staircase.
    pub fn new(log: &mut Log, dungeon: &mut Dungeon, rng: &mut StdRng) -> (r: Player)
        requires
            old(dungeon)@.len() == 255,
            forall|i: int| 0 <= i < old(dungeon)@.len() ==> (#[trigger] old(dungeon)@[i]).wf(),
        ensures
            final(dungeon)@.len() == 255,
            forall|i: int| 0 <= i < final(dungeon)@.len() ==> (#[trigger] final(dungeon)@[i]).wf(),
            forall|i: int| 1 <= i < 255 ==> #[trigger] final(dungeon)@[i] == old(dungeon)@[i],
            r.depth == 1,
            r.position.encodable(),
            r.visible.wf(),
            (exists|p: Point| #[trigger] first_cell_with(old(dungeon)@[0].tiles, Tile::Stairs(Stairs::Up), p))
                ==> first_cell_with(old(dungeon)@[0].tiles, Tile::Stairs(Stairs::Up), r.position),
            r.name@ == seq![97u8, 98, 99, 0, 0, 0, 0, 0, 0, 0, 0, 0, 0, 0, 0],
            r.hp == 10 && r.tp == 3 && r.xl == 1 && r.def == 0,
            r.selected == 0 && r.stairs_delta == 1 && r.timer_delta == 0xff && r.damage_offset == 0
                && r.text_sync == 0,
            forall|i: int| 0 <= i < 4 ==> #[trigger] r.aptitude@[i] == 0 && r.timer@[i] == 0,
            forall|i: int| 0 <= i < 8 ==> !#[trigger] r.spell_memory@[i] && r.inventory.slots@[i].byte == 0,
    {
        let mut player = Player {
            position: Point(0, 0),
            depth: 1,
            name: [97, 98, 99, 0, 0, 0, 0, 0, 0, 0, 0, 0, 0, 0, 0],
            hp: 10,
            tp: 3,
            xl: 1,
            def: 0,
            aptitude: [0, 0, 0, 0],
            inventory: Inventory::empty(),
            spell_memory: [false;8],
            timer: [0;4],
            selected: 0x00,
            stairs_delta: 1,
            timer_delta: 0xFF,
            damage_offset: 0,
            text_sync: 0,
            show_ram: false,
            visible: unseen(),
        };
        assert(player.name@ =~= seq![97u8, 98, 99, 0, 0, 0, 0, 0, 0, 0, 0, 0, 0, 0, 0]);
        log.tell(intro_line(rng));
        player.enter_level(log, dungeon, 1, Stairs::Up);
        player
    }

    /// The end of a turn for the timers: the timer delta is added, modulo 256,
    /// to each timer that is running (not zero).
    pub fn tick_timers(&mut self)
        ensures
            *final(self) == (Player { timer: final(self).timer, ..*old(self) }),
            forall|i: int|
                0 <= i < 4 ==> #[trigger] final(self).timer@[i] == if old(self).timer@[i] == 0 {
                    0
                } else {
                    ((old(self).timer@[i] + old(self).timer_delta) % 256) as u8
                },
    {
        let mut i: usize = 0;
        while i < 4
            invariant
                i <= 4,
                *self == (Player { timer: self.timer, ..*old(self) }),
                forall|j: int|
                    0 <= j < 4 ==> #[trigger] self.timer@[j] == if j >= i || old(self).timer@[j] == 0 {
                        old(self).timer@[j]
                    } else {
                        ((old(self).timer@[j] + old(self).timer_delta) % 256) as u8
                    },
            decreases 4 - i,
        {
            if self.timer[i] != 0 {
                let t = self.timer[i].wrapping_add(self.timer_delta);
                self.timer[i] = t;
            }
            i = i + 1;
        }
    }

    pub fn current_level_mut<'a>(&self, dungeon: &'a mut Dungeon) -> (r: &'a mut Level)
        requires
            1 <= self.depth <= old(dungeon)@.len(),
        ensures
            *r == old(dungeon)@[self.depth - 1],
            final(dungeon)@ == old(dungeon)@.update(self.depth - 1, *final(r)),
    {
        &mut dungeon[self.depth as usize - 1]
    }
}

} // verus!
