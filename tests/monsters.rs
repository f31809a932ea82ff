use hex_cellar::geometry::{Point, CELLS};
use hex_cellar::grid::Grid;
use hex_cellar::level::Level;
use hex_cellar::log::Log;
use hex_cellar::monster::{Alert, Kind, Monster};
use hex_cellar::tile::Tile;
use hex_cellar::turns::{approach, monster_turn, turn_order};
use rand::rngs::StdRng;
use rand::SeedableRng;

fn open_level() -> Level {
    let mut tiles = Vec::new();
    let mut items = Vec::new();
    let mut known = Vec::new();
    for _ in 0..CELLS {
        tiles.push(Tile::Floor);
        items.push(None);
        known.push(false);
    }
    Level {
        tiles: Grid { grid: tiles },
        items: Grid { grid: items },
        known_tiles: Grid { grid: known },
        monsters: [Monster::null(); 5],
    }
}

fn monster_at(position: Point) -> Monster {
    Monster {
        kind: Kind::Troll,
        charged: false,
        vulnerable: false,
        venomous: false,
        corrupted: false,
        position,
        hp: 20,
        alert: Alert::Alerted,
    }
}

#[test]
fn approach_takes_the_best_step() {
    for seed in 0..10u64 {
        let mut level = open_level();
        level.monsters[0] = monster_at(Point(5, 5));
        let mut rng = StdRng::seed_from_u64(seed);
        assert!(approach(&mut level, 0, Point(9, 9), &mut rng));
        assert_eq!(level.monsters[0].position, Point(6, 6));
    }
}

#[test]
fn approach_breaks_ties_at_random_among_equals() {
    // With the diagonal blocked, the two orthogonal steps tie.
    let mut seen = Vec::new();
    for seed in 0..40u64 {
        let mut level = open_level();
        level.monsters[0] = monster_at(Point(5, 5));
        level.tiles.set(Point(6, 6), Tile::Wall);
        let mut rng = StdRng::seed_from_u64(seed);
        assert!(approach(&mut level, 0, Point(9, 9), &mut rng));
        let p = level.monsters[0].position;
        assert!(p == Point(6, 5) || p == Point(5, 6), "{:?}", p);
        if !seen.contains(&p) {
            seen.push(p);
        }
    }
    assert_eq!(seen.len(), 2);
}

#[test]
fn approach_avoids_other_monsters() {
    let mut level = open_level();
    level.monsters[0] = monster_at(Point(5, 5));
    level.monsters[1] = monster_at(Point(6, 6));
    let mut rng = StdRng::seed_from_u64(1);
    assert!(approach(&mut level, 0, Point(9, 9), &mut rng));
    let p = level.monsters[0].position;
    assert!(p == Point(6, 5) || p == Point(5, 6));
}

#[test]
fn dead_monsters_do_not_block() {
    let mut level = open_level();
    level.monsters[0] = monster_at(Point(5, 5));
    let mut corpse = monster_at(Point(6, 6));
    corpse.hp = 0;
    level.monsters[1] = corpse;
    let mut rng = StdRng::seed_from_u64(1);
    assert!(approach(&mut level, 0, Point(9, 9), &mut rng));
    assert_eq!(level.monsters[0].position, Point(6, 6));
}

#[test]
fn approach_stays_when_boxed_in() {
    let mut level = open_level();
    level.monsters[0] = monster_at(Point(5, 5));
    for p in [Point(6, 5), Point(5, 6), Point(6, 6), Point(4, 6), Point(6, 4)] {
        level.tiles.set(p, Tile::Wall);
    }
    let before = level.monsters;
    let mut rng = StdRng::seed_from_u64(1);
    assert!(!approach(&mut level, 0, Point(9, 9), &mut rng));
    assert_eq!(level.monsters, before);
}

#[test]
fn turns_go_nearest_first() {
    let mut level = open_level();
    level.monsters[0] = monster_at(Point(1, 1));
    level.monsters[1] = monster_at(Point(8, 8));
    let mut dead = monster_at(Point(9, 8));
    dead.hp = 0;
    level.monsters[2] = dead;
    level.monsters[3] = monster_at(Point(9, 7));
    level.monsters[4] = monster_at(Point(7, 7));
    let order = turn_order(&level, Point(9, 9));
    // (8,8): (1,2); (9,7): (2,2); (7,7): (2,4); (1,1): (8,16).
    assert_eq!(order, vec![1, 3, 4, 0]);
}

#[test]
fn equal_distances_keep_slot_order() {
    let mut level = open_level();
    level.monsters[3] = monster_at(Point(8, 9));
    level.monsters[1] = monster_at(Point(10, 9));
    let order = turn_order(&level, Point(9, 9));
    assert_eq!(order, vec![1, 3]);
}

#[test]
fn dormant_monster_wakes_and_shouts_when_seen() {
    let mut level = open_level();
    let mut m = monster_at(Point(5, 5));
    m.alert = Alert::Dormant;
    m.kind = Kind::Skeleton;
    level.monsters[0] = m;
    let mut visible = Vec::new();
    for _ in 0..CELLS {
        visible.push(true);
    }
    let visible = Grid { grid: visible };
    let mut log = Log::new();
    let mut rng = StdRng::seed_from_u64(2);
    monster_turn(&mut level, 0, Point(9, 9), &visible, &mut log, &mut rng);
    assert_eq!(level.monsters[0].alert, Alert::Alerted);
    assert_eq!(level.monsters[0].position, Point(5, 5));
    assert_eq!(log.messages[0].1, "The skeleton rattles!");
}

#[test]
fn unseen_monsters_stay_put() {
    let mut level = open_level();
    level.monsters[0] = monster_at(Point(5, 5));
    let mut visible = Vec::new();
    for _ in 0..CELLS {
        visible.push(false);
    }
    let visible = Grid { grid: visible };
    let mut log = Log::new();
    let mut rng = StdRng::seed_from_u64(2);
    monster_turn(&mut level, 0, Point(9, 9), &visible, &mut log, &mut rng);
    assert_eq!(level.monsters[0].position, Point(5, 5));
    assert!(log.messages.is_empty());
}

#[test]
fn adjacent_alerted_monster_holds() {
    let mut level = open_level();
    level.monsters[0] = monster_at(Point(8, 8));
    let mut visible = Vec::new();
    for _ in 0..CELLS {
        visible.push(true);
    }
    let visible = Grid { grid: visible };
    let mut log = Log::new();
    let mut rng = StdRng::seed_from_u64(2);
    monster_turn(&mut level, 0, Point(9, 9), &visible, &mut log, &mut rng);
    assert_eq!(level.monsters[0].position, Point(8, 8));
}

#[test]
fn generated_monsters_suit_the_depth() {
    let mut rng = StdRng::seed_from_u64(4);
    for depth in 0u8..=255 {
        let m = Monster::generate(depth, Point(2, 3), &mut rng);
        let (low, high) = m.kind.info().habitat;
        assert!(low <= depth && depth <= high);
        assert_eq!(m.hp, m.kind.info().max_hp);
        assert_eq!(m.alert, Alert::Dormant);
        assert_ne!(m.kind, Kind::Elf);
    }
}

#[test]
fn kinds_round_trip_through_nibbles() {
    for n in 0u8..16 {
        assert_eq!(Kind::from_nibble(n).to_nibble(), n);
    }
}
