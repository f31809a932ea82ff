use hex_cellar::byte::BitNumber;
use hex_cellar::dungeon::build;
use hex_cellar::geometry::{Point, CELLS};
use hex_cellar::grid::Grid;
use hex_cellar::item::{Appearance, InventorySlot, Item};
use hex_cellar::monster::Monster;
use hex_cellar::tile::{Stairs, Tile};
use hex_cellar::world::World;
use rand::rngs::StdRng;
use rand::SeedableRng;

const ROOM: [&str; 13] = [
    "###################",
    "#<................#",
    "#.......1.........#",
    "#.................#",
    "#.................#",
    "#.................#",
    "#.................#",
    "#.................#",
    "#......1..........#",
    "#.................#",
    "#....<............#",
    "#.................#",
    "###################",
];

/// A world whose first level is a plain room with nothing in it, the player
/// at (9, 6).
fn quiet_world(seed: u64) -> World {
    let mut grid = Vec::new();
    for row in ROOM.iter() {
        grid.extend(row.bytes());
    }
    let mut rng = StdRng::seed_from_u64(seed);
    let dungeon = build(&vec![Grid { grid }], &mut rng).ok().unwrap();
    let mut w = World::new(dungeon, &mut rng);
    let level = &mut w.dungeon[0];
    for i in 0..CELLS {
        let p = Point(i as i32 % 19, i as i32 / 19);
        let border = p.0 == 0 || p.0 == 18 || p.1 == 0 || p.1 == 12;
        level.tiles.set(p, if border { Tile::Wall } else { Tile::Floor });
        level.items.set(p, None);
    }
    level.monsters = [Monster::null(); 5];
    w.player.position = Point(9, 6);
    w
}

fn step(w: &mut World, d: Point) -> bool {
    w.player.step(&mut w.log, &mut w.dungeon, d)
}

#[test]
fn steps_onto_floor() {
    let mut w = quiet_world(1);
    assert!(step(&mut w, Point(1, 0)));
    assert_eq!(w.player.position, Point(10, 6));
    assert!(*w.player.visible.get(Point(14, 6)));
    assert!(!*w.player.visible.get(Point(15, 6)));
    assert!(*w.dungeon[0].known_tiles.get(Point(14, 6)));
}

#[test]
fn walls_stop_the_player() {
    let mut w = quiet_world(2);
    w.dungeon[0].tiles.set(Point(9, 5), Tile::Wall);
    assert!(!step(&mut w, Point(0, -1)));
    assert_eq!(w.player.position, Point(9, 6));
}

#[test]
fn doors_open_without_moving() {
    let mut w = quiet_world(3);
    w.dungeon[0].tiles.set(Point(8, 6), Tile::Door);
    assert!(step(&mut w, Point(-1, 0)));
    assert_eq!(w.player.position, Point(9, 6));
    assert_eq!(*w.dungeon[0].tiles.get(Point(8, 6)), Tile::Doorway);
    assert_eq!(w.log.messages[0].1, "You open the door.");
}

#[test]
fn switches_flip_the_selected_address() {
    let mut w = quiet_world(4);
    w.dungeon[0].tiles.set(Point(9, 7), Tile::Switch(BitNumber::Bit2));
    w.player.selected = 0x01;
    assert!(step(&mut w, Point(0, 1)));
    assert_eq!(w.player.selected, 0x05);
    assert_eq!(w.player.position, Point(9, 6));
}

#[test]
fn stepping_into_a_monster_hits_it() {
    let mut w = quiet_world(5);
    let mut m = Monster::generate(1, Point(10, 7), &mut StdRng::seed_from_u64(0));
    m.kind = hex_cellar::monster::Kind::Troll;
    w.dungeon[0].monsters[0] = m;
    assert!(step(&mut w, Point(1, 1)));
    assert_eq!(w.dungeon[0].monsters[0].hp, 0);
    assert_eq!(w.player.position, Point(9, 6));
    assert_eq!(w.log.messages[0].1, "You hit the troll.");
}

#[test]
fn the_board_edge_stops_the_player() {
    let mut w = quiet_world(6);
    w.player.position = Point(0, 0);
    assert!(!step(&mut w, Point(-1, 0)));
    assert_eq!(w.player.position, Point(0, 0));
}

#[test]
fn items_are_seen_picked_up_and_dropped() {
    let mut w = quiet_world(7);
    let item = Item { appearance: Appearance::Taser, enchanted: false, cursed: false };
    w.dungeon[0].items.set(Point(9, 7), Some(item));
    assert!(step(&mut w, Point(0, 1)));
    assert_eq!(w.log.messages[0].1, "You see here a taser.");
    assert!(w.player.pick_up_item(&mut w.log, &mut w.dungeon));
    assert_eq!(*w.dungeon[0].items.get(Point(9, 7)), None);
    assert_eq!(w.player.inventory.slots[0].get_item(), Some(item));
    assert!(!w.player.pick_up_item(&mut w.log, &mut w.dungeon));
    assert_eq!(w.log.messages[0].1, "There is no item here.");

    let mut rng = StdRng::seed_from_u64(1);
    assert!(w.player.drop_item(&mut w.log, &mut w.dungeon, BitNumber::Bit0, &mut rng));
    assert_eq!(*w.dungeon[0].items.get(Point(9, 7)), Some(item));
    assert!(w.player.inventory.slots[0].is_empty());
    // The own cell is taken now: the next drop goes one step orthogonally.
    w.player.inventory.slots[1] = InventorySlot::filled(item);
    assert!(w.player.drop_item(&mut w.log, &mut w.dungeon, BitNumber::Bit1, &mut rng));
    let around = [Point(9, 6), Point(9, 8), Point(8, 7), Point(10, 7)];
    let placed: Vec<Point> = around.iter().copied().filter(|p| w.dungeon[0].items.get(*p).is_some()).collect();
    assert_eq!(placed.len(), 1);
}

#[test]
fn cursed_and_missing_items_stay() {
    let mut w = quiet_world(8);
    let mut rng = StdRng::seed_from_u64(1);
    assert!(!w.player.drop_item(&mut w.log, &mut w.dungeon, BitNumber::Bit3, &mut rng));
    assert_eq!(w.log.messages[0].1, "You don't have that item!");
    let cursed = Item { appearance: Appearance::Wand, enchanted: false, cursed: true };
    w.player.inventory.slots[3] = InventorySlot::filled(cursed);
    assert!(!w.player.drop_item(&mut w.log, &mut w.dungeon, BitNumber::Bit3, &mut rng));
    assert_eq!(w.log.messages[0].1, "You can't drop the cursed wand!");
    assert!(w.player.inventory.slots[3].get_item().is_some());
}

#[test]
fn a_full_floor_refuses_the_drop() {
    let mut w = quiet_world(9);
    let item = Item { appearance: Appearance::Palantir, enchanted: true, cursed: false };
    for dy in -1..=1 {
        for dx in -1..=1 {
            w.dungeon[0].items.set(Point(9 + dx, 6 + dy), Some(item));
        }
    }
    w.player.inventory.slots[0] = InventorySlot::filled(item);
    let mut rng = StdRng::seed_from_u64(1);
    assert!(!w.player.drop_item(&mut w.log, &mut w.dungeon, BitNumber::Bit0, &mut rng));
    assert_eq!(w.log.messages[0].1, "No room on floor!");
}

#[test]
fn food_is_used_up_and_gear_is_not() {
    let mut w = quiet_world(10);
    let fruit = Item { appearance: Appearance::Glowfruit, enchanted: false, cursed: false };
    let vest = Item { appearance: Appearance::BallisticVest, enchanted: false, cursed: false };
    w.player.inventory.slots[0] = InventorySlot::filled(fruit);
    w.player.inventory.slots[1] = InventorySlot::filled(vest);
    assert!(w.player.use_item(&mut w.log, &mut w.dungeon, BitNumber::Bit0));
    assert!(w.player.inventory.slots[0].is_empty());
    assert!(!w.player.use_item(&mut w.log, &mut w.dungeon, BitNumber::Bit1));
    assert!(!w.player.inventory.slots[1].is_empty());
    assert!(!w.player.use_item(&mut w.log, &mut w.dungeon, BitNumber::Bit5));
}

#[test]
fn stairs_lead_to_the_next_level() {
    let mut w = quiet_world(11);
    w.player.try_stairs(&mut w.log, &mut w.dungeon, Stairs::Down);
    assert_eq!(w.player.depth, 1);
    w.dungeon[0].tiles.set(Point(9, 6), Tile::Stairs(Stairs::Down));
    w.player.try_stairs(&mut w.log, &mut w.dungeon, Stairs::Down);
    assert_eq!(w.player.depth, 2);
    assert_eq!(*w.dungeon[1].tiles.get(w.player.position), Tile::Stairs(Stairs::Up));
    assert!(w.log.messages.iter().any(|m| m.1 == "You go down the stairs."));
}

#[test]
fn running_timers_move_by_the_delta() {
    let mut w = quiet_world(12);
    w.player.timer = [0, 5, 1, 200];
    w.player.tick_timers();
    assert_eq!(w.player.timer, [0, 4, 0, 199]);
    w.player.timer_delta = 100;
    w.player.timer = [0, 200, 3, 0];
    w.player.tick_timers();
    assert_eq!(w.player.timer, [0, 44, 103, 0]);
}
