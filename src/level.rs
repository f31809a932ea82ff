use rand::rngs::StdRng;
use vstd::prelude::*;
use crate::geometry::{cheby_between, Point, CELLS, HEIGHT, WIDTH};
use crate::grid::Grid;
use crate::item::Item;
use crate::monster::{habitable_spec, Monster};
use crate::random::sample_indices;
use crate::tile::{Stairs, Tile};
use crate::sprite::{byte_sprite, Sprite};
use crate::world::World;

verus! {

/// Where a spawned thing may stand: on a floor cell, and, when `avoid` is given,
/// more than one step away from it.
pub open spec fn spawn_cell(map: Seq<Tile>, avoid: Option<Point>, p: Point) -> bool {
    &&& p.on_board()
    &&& map[p.index_spec()] == Tile::Floor
    &&& match avoid {
        Some(a) => cheby_between(p, a) > 1,
        None => true,
    }
}

/// `cells` are distinct spawn cells: five of them, or all there are.
pub open spec fn spawn_pick(map: Seq<Tile>, avoid: Option<Point>, cells: Seq<Point>) -> bool {
    &&& cells.len() <= 5
    &&& forall|i: int| 0 <= i < cells.len() ==> spawn_cell(map, avoid, #[trigger] cells[i])
    &&& forall|i: int, j: int|
        0 <= i < cells.len() && 0 <= j < cells.len() && i != j ==> cells[i] != cells[j]
    &&& (cells.len() == 5 || forall|p: Point| spawn_cell(map, avoid, p) ==> cells.contains(p))
}

/// One level of the dungeon.
pub struct Level {
    pub tiles: Grid<Tile>,
    /// The item lying on each cell, if any.
    pub items: Grid<Option<Item>>,
    /// The cells that the player has ever seen.
    pub known_tiles: Grid<bool>,
    pub monsters: [Monster; 5],
}

impl Level {
    pub open spec fn wf(&self) -> bool {
        &&& self.tiles.wf()
        &&& self.items.wf()
        &&& self.known_tiles.wf()
        &&& forall|i: int| 0 <= i < 5 ==> (#[trigger] self.monsters@[i]).position.encodable()
    }

    /// Whether a living monster stands at `p`.
    pub open spec fn occupied(&self, p: Point) -> bool {
        exists|i: int|
            0 <= i < 5 && (#[trigger] self.monsters@[i]).position == p && self.monsters@[i].hp > 0
    }

    /// The slot of the first living monster at `position`.
    pub fn monster_index_at(&self, position: Point) -> (r: Option<usize>)
        ensures
            r is None <==> !self.occupied(position),
            r matches Some(i) ==> i < 5 && self.monsters@[i as int].position == position
                && self.monsters@[i as int].hp > 0 && forall|j: int|
                0 <= j < i ==> !((#[trigger] self.monsters@[j]).position == position
                    && self.monsters@[j].hp > 0),
    {
        let mut i: usize = 0;
        while i < 5
            invariant
                i <= 5,
                forall|j: int|
                    0 <= j < i ==> !((#[trigger] self.monsters@[j]).position == position
                        && self.monsters@[j].hp > 0),
            decreases 5 - i,
        {
            if self.monsters[i].position == position && self.monsters[i].alive() {
                return Some(i);
            }
            i = i + 1;
        }
        None
    }

    /// Slot `i` holds the first living monster at `p`.
    pub open spec fn first_living_at(&self, i: int, p: Point) -> bool {
        &&& 0 <= i < 5
        &&& self.monsters@[i].position == p
        &&& self.monsters@[i].hp > 0
        &&& forall|j: int|
            0 <= j < i ==> !((#[trigger] self.monsters@[j]).position == p && self.monsters@[j].hp > 0)
    }

    /// The first living monster at `position`.
    pub fn monster_at(&self, position: Point) -> (r: Option<&Monster>)
        ensures
            r is None <==> !self.occupied(position),
            r matches Some(m) ==> exists|i: int| #[trigger] self.first_living_at(i, position) && *m == self.monsters@[i],
    {
        match self.monster_index_at(position) {
            Some(i) => {
                assert(self.first_living_at(i as int, position));
                Some(&self.monsters[i])
            },
            None => None,
        }
    }
}

impl Level {
    /// What shows at `position`: the player, else a living monster, else an
    /// item, else the tile.
    pub fn sprite_at(&self, position: Point, world: &World) -> (r: Sprite)
        requires
            self.wf(),
            position.on_board(),
        ensures
            position == world.player.position ==> r == byte_sprite(world.player_appearance_byte, true),
            position != world.player.position && self.occupied(position) ==> exists|i: int|
                #[trigger] self.first_living_at(i, position) && r == self.monsters@[i].kind.sprite_spec(),
            position != world.player.position && !self.occupied(position) ==> (self.items.at(position) matches Some(item)
                ==> r == item.appearance.sprite_spec()),
            position != world.player.position && !self.occupied(position) && self.items.at(position) is None
                ==> r == self.tiles.at(position).sprite_spec(
                world.wall_appearance_byte,
                world.door_appearance_byte,
                world.player.selected,
            ),
    {
        if position == world.player.position {
            Sprite::of_byte(world.player_appearance_byte, true)
        } else if let Some(monster) = self.monster_at(position) {
            monster.sprite()
        } else if let Some(item) = self.items.get(position) {
            item.sprite()
        } else {
            self.tiles.get(position).sprite(world)
        }
    }
}

/// The spawn cells of `map`, in row order.
fn spawn_cells(map: &Grid<Tile>, avoid: Option<Point>) -> (r: Vec<Point>)
    requires
        map.wf(),
        avoid matches Some(a) ==> a.on_board(),
    ensures
        forall|i: int| 0 <= i < r@.len() ==> spawn_cell(map.grid@, avoid, #[trigger] r@[i]),
        forall|i: int, j: int| 0 <= i < r@.len() && 0 <= j < r@.len() && i != j ==> r@[i] != r@[j],
        forall|p: Point| spawn_cell(map.grid@, avoid, p) ==> r@.contains(p),
{
    let mut r: Vec<Point> = Vec::new();
    let mut y: i32 = 0;
    while y < HEIGHT as i32
        invariant
            map.wf(),
            0 <= y <= HEIGHT,
            avoid matches Some(a) ==> a.on_board(),
            forall|i: int| 0 <= i < r@.len() ==> spawn_cell(map.grid@, avoid, #[trigger] r@[i]),
            forall|i: int| 0 <= i < r@.len() ==> (#[trigger] r@[i]).1 < y,
            forall|i: int, j: int|
                0 <= i < j < r@.len() ==> (#[trigger] r@[i]).index_spec() < (
                #[trigger] r@[j]).index_spec(),
            forall|p: Point| spawn_cell(map.grid@, avoid, p) && p.1 < y ==> r@.contains(p),
        decreases HEIGHT - y,
    {
        let mut x: i32 = 0;
        while x < WIDTH as i32
            invariant
                map.wf(),
                0 <= y < HEIGHT,
                0 <= x <= WIDTH,
                avoid matches Some(a) ==> a.on_board(),
                forall|i: int| 0 <= i < r@.len() ==> spawn_cell(map.grid@, avoid, #[trigger] r@[i]),
                forall|i: int|
                    0 <= i < r@.len() ==> (#[trigger] r@[i]).1 < y || (r@[i].1 == y && r@[i].0 < x),
                forall|i: int, j: int|
                    0 <= i < j < r@.len() ==> (#[trigger] r@[i]).index_spec() < (
                    #[trigger] r@[j]).index_spec(),
                forall|p: Point|
                    spawn_cell(map.grid@, avoid, p) && (p.1 < y || (p.1 == y && p.0 < x))
                        ==> r@.contains(p),
            decreases WIDTH - x,
        {
            let p = Point(x, y);
            let eligible = *map.get(p) == Tile::Floor && match avoid {
                Some(a) => p.cheby_dist(a) > 1,
                None => true,
            };
            if eligible {
                let ghost before = r@;
                r.push(p);
                proof {
                    assert forall|q: Point|
                        spawn_cell(map.grid@, avoid, q) && (q.1 < y || (q.1 == y && q.0 < x + 1))
                            implies r@.contains(q) by {
                        if q == p {
                            assert(r@[r@.len() - 1] == p);
                        } else {
                            assert(q.1 < y || (q.1 == y && q.0 < x));
                            assert(before.contains(q));
                            let j = choose|j: int| 0 <= j < before.len() && before[j] == q;
                            assert(r@[j] == q);
                        }
                    }
                }
            }
            proof {
                assert(eligible == spawn_cell(map.grid@, avoid, p));
            }
            x = x + 1;
        }
        y = y + 1;
    }
    proof {
        assert forall|i: int, j: int|
            0 <= i < r@.len() && 0 <= j < r@.len() && i != j implies r@[i] != r@[j] by {
            if i < j {
                assert(r@[i].index_spec() < r@[j].index_spec());
            } else {
                assert(r@[j].index_spec() < r@[i].index_spec());
            }
        }
    }
    r
}

/// Five distinct cells of `cands` drawn at random, or all of them when there are
/// no more than five.
fn choose_cells(cands: &Vec<Point>, rng: &mut StdRng) -> (r: Vec<Point>)
    requires
        forall|i: int, j: int|
            0 <= i < cands@.len() && 0 <= j < cands@.len() && i != j ==> cands@[i] != cands@[j],
    ensures
        r@.len() <= 5,
        forall|i: int| 0 <= i < r@.len() ==> cands@.contains(#[trigger] r@[i]),
        forall|i: int, j: int| 0 <= i < r@.len() && 0 <= j < r@.len() && i != j ==> r@[i] != r@[j],
        r@.len() == 5 || r@ == cands@,
{
    let mut r: Vec<Point> = Vec::new();
    if cands.len() <= 5 {
        let mut k: usize = 0;
        while k < cands.len()
            invariant
                k <= cands@.len(),
                r@ == cands@.subrange(0, k as int),
            decreases cands@.len() - k,
        {
            r.push(cands[k]);
            k = k + 1;
        }
        assert(r@ =~= cands@);
    } else {
        let picks = sample_indices(rng, cands.len(), 5);
        let mut k: usize = 0;
        while k < 5
            invariant
                k <= 5,
                picks@.len() == 5,
                forall|i: int| 0 <= i < 5 ==> #[trigger] picks@[i] < cands@.len(),
                forall|i: int, j: int| 0 <= i < 5 && 0 <= j < 5 && i != j ==> picks@[i] != picks@[j],
                r@.len() == k,
                forall|i: int| 0 <= i < k ==> #[trigger] r@[i] == cands@[picks@[i] as int],
            decreases 5 - k,
        {
            r.push(cands[picks[k]]);
            k = k + 1;
        }
        assert forall|i: int| 0 <= i < r@.len() implies cands@.contains(#[trigger] r@[i]) by {
            assert(r@[i] == cands@[picks@[i] as int]);
        }
    }
    r
}

/// Items on distinct floor cells: five, or one on each floor cell when there
/// are fewer.
pub fn spawn_items(map: &Grid<Tile>, rng: &mut StdRng) -> (r: Grid<Option<Item>>)
    requires
        map.wf(),
    ensures
        r.wf(),
        exists|cells: Seq<Point>|
            spawn_pick(map.grid@, None, cells) && forall|p: Point|
                p.on_board() ==> (r.at(p) is Some <==> cells.contains(p)),
{
    let cands = spawn_cells(map, None);
    let cells = choose_cells(&cands, rng);
    let mut items: Vec<Option<Item>> = Vec::with_capacity(CELLS);
    let mut i: usize = 0;
    while i < CELLS
        invariant
            i <= CELLS,
            items@.len() == i,
            forall|j: int| 0 <= j < i ==> (#[trigger] items@[j]) is None,
        decreases CELLS - i,
    {
        items.push(None);
        i = i + 1;
    }
    let mut grid = Grid { grid: items };
    let mut k: usize = 0;
    while k < cells.len()
        invariant
            grid.wf(),
            k <= cells@.len(),
            forall|i: int| 0 <= i < cells@.len() ==> cands@.contains(#[trigger] cells@[i]),
            forall|i: int| 0 <= i < cands@.len() ==> spawn_cell(map.grid@, None, #[trigger] cands@[i]),
            forall|p: Point|
                p.on_board() ==> (grid.at(p) is Some <==> cells@.subrange(0, k as int).contains(p)),
        decreases cells@.len() - k,
    {
        let p = cells[k];
        proof {
            let j = choose|j: int| 0 <= j < cands@.len() && cands@[j] == p;
            assert(spawn_cell(map.grid@, None, cands@[j]));
        }
        let item = Item::spawn(rng);
        grid.set(p, Some(item));
        proof {
            let prefix = cells@.subrange(0, k as int);
            let next = cells@.subrange(0, k as int + 1);
            assert(next =~= prefix.push(p));
            assert forall|q: Point| q.on_board() implies (grid.at(q) is Some <==> next.contains(q)) by {
                lemma_index_unique(p, q);
                if prefix.contains(q) {
                    let j = choose|j: int| 0 <= j < prefix.len() && #[trigger] prefix[j] == q;
                    assert(next[j] == q);
                }
                if next.contains(q) && q != p {
                    let j = choose|j: int| 0 <= j < next.len() && #[trigger] next[j] == q;
                    assert(prefix[j] == q);
                }
                assert(next[k as int] == p);
            }
        }
        k = k + 1;
    }
    proof {
        assert(cells@.subrange(0, cells@.len() as int) =~= cells@);
        assert forall|i: int| 0 <= i < cells@.len() implies spawn_cell(map.grid@, None, #[trigger] cells@[i]) by {
            let j = choose|j: int| 0 <= j < cands@.len() && cands@[j] == cells@[i];
            assert(spawn_cell(map.grid@, None, cands@[j]));
        }
        assert(spawn_pick(map.grid@, None, cells@));
    }
    grid
}

/// On the board, distinct points have distinct cell indices.
pub proof fn lemma_index_unique(p: Point, q: Point)
    requires
        p.on_board(),
        q.on_board(),
    ensures
        (p.index_spec() == q.index_spec()) <==> (p == q),
{
    if p.index_spec() == q.index_spec() {
        assert(p.1 == q.1) by (nonlinear_arith)
            requires
                0 <= p.0 < 19,
                0 <= q.0 < 19,
                p.1 * 19 + p.0 == q.1 * 19 + q.0,
        ;
    }
}

/// The first up staircase of `map` in row order.
fn find_upstairs(map: &Grid<Tile>) -> (r: Option<Point>)
    requires
        map.wf(),
    ensures
        r matches Some(p) ==> p.on_board() && map.at(p) == Tile::Stairs(Stairs::Up),
        r is None ==> forall|p: Point| p.on_board() ==> map.at(p) != Tile::Stairs(Stairs::Up),
{
    let mut y: i32 = 0;
    while y < HEIGHT as i32
        invariant
            map.wf(),
            0 <= y <= HEIGHT,
            forall|p: Point| p.on_board() && p.1 < y ==> map.at(p) != Tile::Stairs(Stairs::Up),
        decreases HEIGHT - y,
    {
        let mut x: i32 = 0;
        while x < WIDTH as i32
            invariant
                map.wf(),
                0 <= y < HEIGHT,
                0 <= x <= WIDTH,
                forall|p: Point|
                    p.on_board() && (p.1 < y || (p.1 == y && p.0 < x)) ==> map.at(p) != Tile::Stairs(
                        Stairs::Up,
                    ),
            decreases WIDTH - x,
        {
            if *map.get(Point(x, y)) == Tile::Stairs(Stairs::Up) {
                return Some(Point(x, y));
            }
            x = x + 1;
        }
        y = y + 1;
    }
    None
}

/// Monsters for a level at `depth`: on distinct floor cells more than one step
/// from the up staircase, five of them or one on each such cell; the other
/// slots are empty.
pub fn spawn_monsters(depth: u8, map: &Grid<Tile>, rng: &mut StdRng) -> (r: [Monster; 5])
    requires
        map.wf(),
        exists|p: Point| p.on_board() && map.at(p) == Tile::Stairs(Stairs::Up),
    ensures
        exists|up: Point, cells: Seq<Point>|
            {
                &&& up.on_board()
                &&& map.at(up) == Tile::Stairs(Stairs::Up)
                &&& spawn_pick(map.grid@, Some(up), cells)
                &&& forall|k: int|
                    0 <= k < 5 ==> if k < cells.len() {
                        habitable_spec((#[trigger] r@[k]).kind, depth) && r@[k] == Monster::fresh(
                            r@[k].kind,
                            cells[k],
                        )
                    } else {
                        r@[k].hp == 0 && r@[k].position == Point(0, 0)
                    }
            },
{
    let up = match find_upstairs(map) {
        Some(p) => p,
        None => {
            proof {
                let p = choose|p: Point| p.on_board() && map.at(p) == Tile::Stairs(Stairs::Up);
                assert(false);
            }
            Point(0, 0)
        },
    };
    let cands = spawn_cells(map, Some(up));
    let cells = choose_cells(&cands, rng);
    let mut monsters = [Monster::null();5];
    let mut k: usize = 0;
    while k < cells.len()
        invariant
            k <= cells@.len(),
            cells@.len() <= 5,
            forall|j: int|
                0 <= j < 5 ==> if j < k {
                    habitable_spec((#[trigger] monsters@[j]).kind, depth) && monsters@[j]
                        == Monster::fresh(monsters@[j].kind, cells@[j])
                } else {
                    monsters@[j].hp == 0 && monsters@[j].position == Point(0, 0)
                },
        decreases cells@.len() - k,
    {
        let m = Monster::generate(depth, cells[k], rng);
        monsters[k] = m;
        k = k + 1;
    }
    proof {
        assert forall|i: int| 0 <= i < cells@.len() implies spawn_cell(map.grid@, Some(up), #[trigger] cells@[i]) by {
            let j = choose|j: int| 0 <= j < cands@.len() && cands@[j] == cells@[i];
            assert(spawn_cell(map.grid@, Some(up), cands@[j]));
        }
        assert(spawn_pick(map.grid@, Some(up), cells@));
    }
    monsters
}

} // verus!
