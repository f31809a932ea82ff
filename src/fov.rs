use vstd::prelude::*;
use crate::geometry::{abs, cheby_between, Point, CELLS, HEIGHT, WIDTH};
use crate::grid::Grid;
use crate::level::Level;
use crate::tile::Tile;

verus! {

/// How far, in Chebyshev distance, sight reaches.
pub const FOV_RADIUS: i32 = 4;

/// One coordinate moved one unit toward `target`, or kept if equal.
pub open spec fn step_coord(a: i32, target: i32) -> i32 {
    if a < target {
        (a + 1) as i32
    } else if a > target {
        (a - 1) as i32
    } else {
        a
    }
}

/// `p` moved one unit toward `target` on both axes.
pub open spec fn step_spec(p: Point, target: Point) -> Point {
    Point(step_coord(p.0, target.0), step_coord(p.1, target.1))
}

/// Whether sight reaches cell `p` of a level with cells `tiles` from `origin`:
/// the origin is seen; another cell within the radius and on the board is seen
/// when one of the cells that sight can come from is seen and lets sight pass.
/// Those are the cell one step closer on both axes, and, off the diagonals, the
/// cell one step closer on the longer axis only.
pub open spec fn sees(tiles: Seq<Tile>, origin: Point, p: Point) -> bool
    decreases cheby_between(p, origin),
{
    if p == origin {
        true
    } else if !p.on_board() || !origin.on_board() || cheby_between(p, origin) > FOV_RADIUS {
        false
    } else {
        let pred = step_spec(p, origin);
        let dx = abs(origin.0 - p.0);
        let dy = abs(origin.1 - p.1);
        let side_y = Point(p.0, pred.1);
        let side_x = Point(pred.0, p.1);
        (sees(tiles, origin, pred) && tiles[pred.index_spec()].open_spec()) || (dx < dy && sees(
            tiles,
            origin,
            side_y,
        ) && tiles[side_y.index_spec()].open_spec()) || (dy < dx && sees(tiles, origin, side_x)
            && tiles[side_x.index_spec()].open_spec())
    }
}

/// The cells that sight reaches from `start` on `level`.
pub fn calculate(level: &Level, start: Point) -> (r: Grid<bool>)
    requires
        level.tiles.wf(),
        start.on_board(),
    ensures
        r.wf(),
        forall|p: Point| p.on_board() ==> #[trigger] r.at(p) == sees(level.tiles.grid@, start, p),
        r.at(start),
        forall|p: Point|
            p.on_board() && #[trigger] r.at(p) ==> cheby_between(p, start) <= FOV_RADIUS,
{
    let mut cells: Vec<bool> = Vec::with_capacity(CELLS);
    let mut i: usize = 0;
    while i < CELLS
        invariant
            i <= CELLS,
            cells@.len() == i,
            forall|j: int| 0 <= j < i ==> !(#[trigger] cells@[j]),
        decreases CELLS - i,
    {
        cells.push(false);
        i = i + 1;
    }
    let mut fov = Grid { grid: cells };
    fov.set(start, true);
    proof {
        assert forall|q: Point| q.on_board() implies #[trigger] fov.at(q) == (cheby_between(q, start)
            < 1 && sees(level.tiles.grid@, start, q)) by {
            crate::level::lemma_index_unique(q, start);
        }
    }
    let mut r: i32 = 1;
    while r <= FOV_RADIUS
        invariant
            level.tiles.wf(),
            start.on_board(),
            fov.wf(),
            1 <= r <= FOV_RADIUS + 1,
            forall|q: Point|
                q.on_board() ==> #[trigger] fov.at(q) == (cheby_between(q, start) < r && sees(
                    level.tiles.grid@,
                    start,
                    q,
                )),
        decreases FOV_RADIUS + 1 - r,
    {
        let mut y: i32 = 0;
        while y < HEIGHT as i32
            invariant
                level.tiles.wf(),
                start.on_board(),
                fov.wf(),
                1 <= r <= FOV_RADIUS,
                0 <= y <= HEIGHT,
                forall|q: Point|
                    q.on_board() ==> #[trigger] fov.at(q) == ((cheby_between(q, start) < r || (
                    cheby_between(q, start) == r && q.1 < y)) && sees(level.tiles.grid@, start, q)),
            decreases HEIGHT - y,
        {
            let mut x: i32 = 0;
            while x < WIDTH as i32
                invariant
                    level.tiles.wf(),
                    start.on_board(),
                    fov.wf(),
                    1 <= r <= FOV_RADIUS,
                    0 <= y < HEIGHT,
                    0 <= x <= WIDTH,
                    forall|q: Point|
                        q.on_board() ==> #[trigger] fov.at(q) == ((cheby_between(q, start) < r || (
                        cheby_between(q, start) == r && (q.1 < y || (q.1 == y && q.0 < x))))
                            && sees(level.tiles.grid@, start, q)),
                decreases WIDTH - x,
            {
                let point = Point(x, y);
                if point.cheby_dist(start) == r {
                    let seen = reaches(level, &fov, start, point, r);
                    let ghost before = fov;
                    if seen {
                        fov.set(point, true);
                    }
                    proof {
                        assert forall|q: Point| q.on_board() implies #[trigger] fov.at(q) == ((
                        cheby_between(q, start) < r || (cheby_between(q, start) == r && (q.1 < y
                            || (q.1 == y && q.0 < x + 1)))) && sees(level.tiles.grid@, start, q)) by {
                            crate::level::lemma_index_unique(q, point);
                            if q != point {
                                assert(fov.at(q) == before.at(q));
                            }
                        }
                    }
                }
                x = x + 1;
            }
            y = y + 1;
        }
        r = r + 1;
    }
    proof {
        assert forall|p: Point| p.on_board() && #[trigger] fov.at(p) implies cheby_between(p, start)
            <= FOV_RADIUS by {}
    }
    fov
}

/// Whether sight can pass on from `point`: it is seen and lets sight through.
fn los_comes_from(level: &Level, fov: &Grid<bool>, point: Point) -> (r: bool)
    requires
        level.tiles.wf(),
        fov.wf(),
        point.on_board(),
    ensures
        r == (fov.at(point) && level.tiles.at(point).open_spec()),
{
    *fov.get(point) && level.tiles.get(point).permits_sight()
}

/// `p` moved one unit toward `target` on both axes.
pub fn step_towards(p: Point, target: Point) -> (r: Point)
    ensures
        r == step_spec(p, target),
{
    let x = if p.0 < target.0 {
        p.0 + 1
    } else if p.0 > target.0 {
        p.0 - 1
    } else {
        p.0
    };
    let y = if p.1 < target.1 {
        p.1 + 1
    } else if p.1 > target.1 {
        p.1 - 1
    } else {
        p.1
    };
    Point(x, y)
}

/// Whether sight reaches `point`, at distance `r` from `start`, when `fov`
/// holds what it reaches at distance `r - 1`.
fn reaches(level: &Level, fov: &Grid<bool>, start: Point, point: Point, r: i32) -> (seen: bool)
    requires
        level.tiles.wf(),
        fov.wf(),
        start.on_board(),
        point.on_board(),
        1 <= r <= FOV_RADIUS,
        cheby_between(point, start) == r,
        forall|q: Point|
            q.on_board() && cheby_between(q, start) == r - 1 ==> #[trigger] fov.at(q) == sees(
                level.tiles.grid@,
                start,
                q,
            ),
    ensures
        seen == sees(level.tiles.grid@, start, point),
{
    let rel_x = start.0 - point.0;
    let rel_y = start.1 - point.1;
    let ax = if rel_x < 0 { -rel_x } else { rel_x };
    let ay = if rel_y < 0 { -rel_y } else { rel_y };
    let pred = step_towards(point, start);
    assert(pred.on_board() && cheby_between(pred, start) == r - 1);
    if los_comes_from(level, fov, pred) {
        return true;
    }
    if ax < ay {
        let side = Point(point.0, pred.1);
        assert(side.on_board() && cheby_between(side, start) == r - 1);
        if los_comes_from(level, fov, side) {
            return true;
        }
    }
    if ay < ax {
        let side = Point(pred.0, point.1);
        assert(side.on_board() && cheby_between(side, start) == r - 1);
        if los_comes_from(level, fov, side) {
            return true;
        }
    }
    false
}

/// A wall on the row (or column) of the origin, strictly between the origin and
/// a farther cell of that row (or column), hides that cell.
pub proof fn lemma_wall_blocks(tiles: Seq<Tile>, origin: Point, wall: Point, p: Point)
    requires
        tiles.len() == CELLS,
        origin.on_board(),
        wall.on_board(),
        p.on_board(),
        (wall.1 == origin.1 && p.1 == origin.1 && ((origin.0 < wall.0 < p.0) || (p.0 < wall.0
            < origin.0))) || (wall.0 == origin.0 && p.0 == origin.0 && ((origin.1 < wall.1 < p.1)
            || (p.1 < wall.1 < origin.1))),
    ensures
        !sees(tiles.update(wall.index_spec(), Tile::Wall), origin, p),
    decreases cheby_between(p, origin),
{
    let t = tiles.update(wall.index_spec(), Tile::Wall);
    if cheby_between(p, origin) <= FOV_RADIUS {
        let pred = step_spec(p, origin);
        assert(pred.on_board());
        if pred == wall {
            assert(!t[pred.index_spec()].open_spec());
        } else {
            lemma_wall_blocks(tiles, origin, wall, pred);
        }
    }
}

} // verus!
