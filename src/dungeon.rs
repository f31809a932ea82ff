use rand::rngs::StdRng;
use vstd::prelude::*;
use crate::geometry::{Point, CELLS};
use crate::grid::Grid;
use crate::level::{spawn_items, spawn_monsters, spawn_pick, Level};
use crate::monster::{habitable_spec, Monster};
use crate::random::{random_range, shuffle};
use crate::scheme::{
    build_map, exactly_one, map_error, resolves_to, valid_choices, Choices, MapError, Scheme,
};
use crate::tile::{Stairs, Tile};

verus! {

/// Levels of a dungeon.
pub const LEVEL_COUNT: usize = 255;

/// The levels, the first at depth 1.
pub type Dungeon = Vec<Level>;

/// The error of the first of `schemes` (numbered from 1) that cannot be built.
pub open spec fn first_error(schemes: Seq<Scheme>, i: int) -> Option<MapError>
    decreases schemes.len() - i,
{
    if i >= schemes.len() || i < 0 {
        None
    } else {
        match map_error((i + 1) as usize, schemes[i].grid@) {
            Some(e) => Some(e),
            None => first_error(schemes, i + 1),
        }
    }
}

/// A level built from one of `schemes`, with items and monsters spawned for `depth`.
pub open spec fn level_from(schemes: Seq<Scheme>, level: Level, depth: u8) -> bool {
    &&& level.wf()
    &&& exists|j: int, c: Choices|
        0 <= j < schemes.len() && valid_choices(schemes[j].grid@, c) && resolves_to(
            schemes[j].grid@,
            c,
            level.tiles.grid@,
        )
    &&& exactly_one(level.tiles.grid@, Tile::Stairs(Stairs::Up))
    &&& exactly_one(level.tiles.grid@, Tile::Stairs(Stairs::Down))
    &&& forall|p: Point| p.on_board() ==> !(#[trigger] level.known_tiles.at(p))
    &&& exists|cells: Seq<Point>|
        spawn_pick(level.tiles.grid@, None, cells) && forall|p: Point|
            p.on_board() ==> (level.items.at(p) is Some <==> cells.contains(p))
    &&& exists|up: Point, cells: Seq<Point>|
        {
            &&& up.on_board()
            &&& level.tiles.at(up) == Tile::Stairs(Stairs::Up)
            &&& spawn_pick(level.tiles.grid@, Some(up), cells)
            &&& forall|k: int|
                0 <= k < 5 ==> if k < cells.len() {
                    habitable_spec((#[trigger] level.monsters@[k]).kind, depth)
                        && level.monsters@[k] == Monster::fresh(level.monsters@[k].kind, cells[k])
                } else {
                    level.monsters@[k].hp == 0 && level.monsters@[k].position == Point(0, 0)
                }
        }
}

/// A built grid of one of `schemes`.
pub open spec fn grid_from(schemes: Seq<Scheme>, g: Seq<Tile>) -> bool {
    &&& exists|j: int, c: Choices|
        0 <= j < schemes.len() && valid_choices(schemes[j].grid@, c) && resolves_to(
            schemes[j].grid@,
            c,
            g,
        )
    &&& exactly_one(g, Tile::Stairs(Stairs::Up))
    &&& exactly_one(g, Tile::Stairs(Stairs::Down))
    &&& g.len() == CELLS
}

proof fn lemma_first_error_none(schemes: Seq<Scheme>, i: int, j: int)
    requires
        0 <= i <= j < schemes.len(),
        first_error(schemes, i) is None,
    ensures
        map_error((j + 1) as usize, schemes[j].grid@) is None,
    decreases j - i,
{
    if i < j {
        lemma_first_error_none(schemes, i + 1, j);
    }
}

/// Builds a dungeon of `LEVEL_COUNT` levels from the given schemes: schemes
/// drawn again at random fill up the count, the built levels are shuffled, and
/// each gets items and monsters for its depth.
pub fn build(schemes: &Vec<Scheme>, rng: &mut StdRng) -> (r: Result<Dungeon, MapError>)
    requires
        1 <= schemes@.len() <= LEVEL_COUNT,
        forall|i: int| 0 <= i < schemes@.len() ==> (#[trigger] schemes@[i]).wf(),
    ensures
        match first_error(schemes@, 0) {
            Some(e) => r == Err::<Dungeon, MapError>(e),
            None => {
                &&& r is Ok
                &&& r->Ok_0@.len() == LEVEL_COUNT
                &&& forall|k: int|
                    0 <= k < LEVEL_COUNT ==> level_from(
                        schemes@,
                        #[trigger] r->Ok_0@[k],
                        (k + 1) as u8,
                    )
            },
        },
{
    let distinct = schemes.len();
    let mut sources: Vec<usize> = Vec::with_capacity(LEVEL_COUNT);
    let mut i: usize = 0;
    while i < LEVEL_COUNT
        invariant
            1 <= distinct == schemes@.len() <= LEVEL_COUNT,
            i <= LEVEL_COUNT,
            sources@.len() == i,
            forall|k: int| 0 <= k < i ==> #[trigger] sources@[k] < distinct,
            forall|k: int| 0 <= k < i && k < distinct ==> #[trigger] sources@[k] == k,
        decreases LEVEL_COUNT - i,
    {
        if i < distinct {
            sources.push(i);
        } else {
            sources.push(random_range(rng, 0, distinct));
        }
        i = i + 1;
    }
    let mut maps: Vec<Grid<Tile>> = Vec::with_capacity(LEVEL_COUNT);
    let mut k: usize = 0;
    while k < LEVEL_COUNT
        invariant
            1 <= distinct == schemes@.len() <= LEVEL_COUNT,
            forall|i: int| 0 <= i < schemes@.len() ==> (#[trigger] schemes@[i]).wf(),
            sources@.len() == LEVEL_COUNT,
            forall|j: int| 0 <= j < LEVEL_COUNT ==> #[trigger] sources@[j] < distinct,
            forall|j: int| 0 <= j < LEVEL_COUNT && j < distinct ==> #[trigger] sources@[j] == j,
            k <= LEVEL_COUNT,
            maps@.len() == k,
            forall|j: int| 0 <= j < k ==> grid_from(schemes@, (#[trigger] maps@[j]).grid@),
            k >= distinct ==> first_error(schemes@, 0) is None,
            k < distinct ==> first_error(schemes@, 0) == first_error(schemes@, k as int),
        decreases LEVEL_COUNT - k,
    {
        let source = sources[k];
        let r = build_map(k + 1, &schemes[source], rng);
        proof {
            if k >= distinct {
                lemma_first_error_none(schemes@, 0, source as int);
            }
        }
        match r {
            Ok(map) => {
                proof {
                    let c = choose|c: Choices|
                        valid_choices(schemes@[source as int].grid@, c) && resolves_to(
                            schemes@[source as int].grid@,
                            c,
                            map.grid@,
                        );
                    assert(grid_from(schemes@, map.grid@));
                }
                maps.push(map);
            },
            Err(e) => {
                return Err(e);
            },
        }
        k = k + 1;
    }
    let ghost built = maps@;
    shuffle(rng, &mut maps);
    proof {
        broadcast use vstd::seq_lib::group_to_multiset_ensures;

        assert forall|j: int| 0 <= j < LEVEL_COUNT implies grid_from(
            schemes@,
            (#[trigger] maps@[j]).grid@,
        ) by {
            let m = maps@[j];
            assert(maps@.contains(m));
            assert(maps@.to_multiset().count(m) > 0);
            assert(built.contains(m));
            let i = choose|i: int| 0 <= i < built.len() && built[i] == m;
            assert(grid_from(schemes@, built[i].grid@));
        }
    }
    let mut dungeon: Dungeon = Vec::with_capacity(LEVEL_COUNT);
    let mut depth: usize = 1;
    while maps.len() > 0
        invariant
            maps@.len() + dungeon@.len() == LEVEL_COUNT,
            depth == dungeon@.len() + 1,
            forall|j: int| 0 <= j < maps@.len() ==> grid_from(schemes@, (#[trigger] maps@[j]).grid@),
            forall|j: int|
                0 <= j < dungeon@.len() ==> level_from(
                    schemes@,
                    #[trigger] dungeon@[j],
                    (j + 1) as u8,
                ),
        decreases maps@.len(),
    {
        let ghost before = maps@;
        let map = maps.remove(0);
        assert(maps@ =~= before.subrange(1, before.len() as int));
        assert(grid_from(schemes@, before[0].grid@));
        let items = spawn_items(&map, rng);
        proof {
            let (x, y) = choose|x: int, y: int|
                0 <= x < 19 && 0 <= y < 13 && #[trigger] map.grid@[19 * y + x] == Tile::Stairs(
                    Stairs::Up,
                ) && forall|x2: int, y2: int|
                    0 <= x2 < 19 && 0 <= y2 < 13 && #[trigger] map.grid@[19 * y2 + x2]
                        == Tile::Stairs(Stairs::Up) ==> x2 == x && y2 == y;
            let p = Point(x as i32, y as i32);
            assert(p.on_board() && map.at(p) == Tile::Stairs(Stairs::Up));
        }
        let monsters = spawn_monsters(depth as u8, &map, rng);
        let known = unseen();
        let level = Level { tiles: map, items, known_tiles: known, monsters };
        dungeon.push(level);
        depth = depth + 1;
    }
    Ok(dungeon)
}

/// A grid with no cell seen.
pub fn unseen() -> (r: Grid<bool>)
    ensures
        r.wf(),
        forall|p: Point| p.on_board() ==> !(#[trigger] r.at(p)),
{
    let mut cells: Vec<bool> = Vec::with_capacity(CELLS);
    let mut i: usize = 0;
    while i < CELLS
        invariant
            i <= CELLS,
            cells@.len() == i,
            forall|j: int| 0 <= j < i ==> !(#[trigger] cells@[j]),
        decreases CELLS - i,
    {
        cells.push(false);
        i = i + 1;
    }
    Grid { grid: cells }
}

} // verus!
