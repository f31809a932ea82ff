use vstd::prelude::*;
use crate::byte::BitNumber;
use crate::geometry::{CELLS, HEIGHT, WIDTH};
use crate::grid::Grid;
use rand::rngs::StdRng;
use crate::random::{coin_flip, random_range, random_range_two};
use crate::tile::{Stairs, Tile};

verus! {

pub const FLOOR_SYMBOL: u8 = 0x2e;
pub const WALL_SYMBOL: u8 = 0x23;
pub const DOOR_SYMBOL: u8 = 0x2b;
pub const STAIRS_SYMBOL: u8 = 0x3c;
pub const SWITCH_SYMBOL: u8 = 0x31;
pub const UPPER_A: u8 = 0x41;
pub const UPPER_Z: u8 = 0x5a;
pub const LOWER_A: u8 = 0x61;
pub const LOWER_Z: u8 = 0x7a;

/// A level template: one symbol byte per cell, in row order.
pub type Scheme = Grid<u8>;

/// Why a level could not be built.
#[derive(Clone, Copy, Debug, PartialEq, Eq, Structural)]
pub enum MapError {
    /// A scheme block of the wrong shape, at the given line.
    ShapeError(usize),
    /// An unknown symbol (second field) on the given scheme.
    TileError(usize, u8),
    /// Fewer than two `<` on the given scheme.
    StairError(usize),
    /// Fewer than two `1` on the given scheme.
    SwitchError(usize),
}

/// Occurrences of `b` among the first `n` bytes of `s`.
pub open spec fn count_before(s: Seq<u8>, b: u8, n: int) -> nat
    decreases n,
{
    if n <= 0 {
        0
    } else {
        count_before(s, b, n - 1) + (if s[n - 1] == b { 1nat } else { 0nat })
    }
}

pub open spec fn count_of(s: Seq<u8>, b: u8) -> nat {
    count_before(s, b, s.len() as int)
}

pub open spec fn is_upper(b: u8) -> bool {
    UPPER_A <= b <= UPPER_Z
}

pub open spec fn is_lower(b: u8) -> bool {
    LOWER_A <= b <= LOWER_Z
}

/// The position in the alphabet of a letter of either case.
pub open spec fn letter_index(b: u8) -> int {
    if is_upper(b) {
        b - UPPER_A
    } else {
        b - LOWER_A
    }
}

pub open spec fn legal_symbol(b: u8) -> bool {
    b == FLOOR_SYMBOL || b == WALL_SYMBOL || b == DOOR_SYMBOL || b == STAIRS_SYMBOL || b == SWITCH_SYMBOL
        || is_upper(b) || is_lower(b)
}

/// The first index at or after `i` that holds an unknown symbol, or the length.
pub open spec fn first_illegal_from(s: Seq<u8>, i: int) -> int
    decreases s.len() - i,
{
    if i >= s.len() {
        s.len() as int
    } else if !legal_symbol(s[i]) {
        i
    } else {
        first_illegal_from(s, i + 1)
    }
}

pub open spec fn first_illegal(s: Seq<u8>) -> int {
    first_illegal_from(s, 0)
}

pub open spec fn all_legal(s: Seq<u8>) -> bool {
    forall|i: int| 0 <= i < s.len() ==> legal_symbol(#[trigger] s[i])
}

/// The error that building scheme number `which` from `s` ends in, if any.
pub open spec fn map_error(which: usize, s: Seq<u8>) -> Option<MapError> {
    if count_of(s, STAIRS_SYMBOL) < 2 {
        Some(MapError::StairError(which))
    } else if count_of(s, SWITCH_SYMBOL) < 2 {
        Some(MapError::SwitchError(which))
    } else if first_illegal(s) < s.len() {
        Some(MapError::TileError(which, s[first_illegal(s)]))
    } else {
        None
    }
}

/// The random decisions that turn a scheme into a level.
#[derive(Debug)]
pub struct Choices {
    /// Which `<` (counting from 0 in row order) becomes the up staircase.
    pub upstairs: usize,
    /// Which `<` becomes the down staircase.
    pub downstairs: usize,
    /// Which two `1` become switches.
    pub switch1: usize,
    pub switch2: usize,
    /// The bits that the two switches control.
    pub bit1: BitNumber,
    pub bit2: BitNumber,
    /// For each letter of the alphabet, whether its uppercase form is a wall.
    pub letters: Vec<bool>,
    /// Reverse each row.
    pub mirror: bool,
    /// Reverse the whole sequence of cells.
    pub reverse: bool,
}

/// Choices that the level builder can draw for scheme `s`.
pub open spec fn valid_choices(s: Seq<u8>, c: Choices) -> bool {
    &&& c.upstairs != c.downstairs
    &&& c.upstairs < count_of(s, STAIRS_SYMBOL)
    &&& c.downstairs < count_of(s, STAIRS_SYMBOL)
    &&& c.switch1 != c.switch2
    &&& c.switch1 < count_of(s, SWITCH_SYMBOL)
    &&& c.switch2 < count_of(s, SWITCH_SYMBOL)
    &&& c.bit1.index() < 6
    &&& c.bit2.index() < 6
    &&& c.letters@.len() == 26
}

/// The tile that cell `i` of scheme `s` stands for, before any mirroring.
pub open spec fn scheme_tile(s: Seq<u8>, c: Choices, i: int) -> Tile {
    let b = s[i];
    if b == FLOOR_SYMBOL {
        Tile::Floor
    } else if b == WALL_SYMBOL {
        Tile::Wall
    } else if b == DOOR_SYMBOL {
        Tile::Door
    } else if b == STAIRS_SYMBOL {
        let k = count_before(s, b, i);
        if k == c.upstairs {
            Tile::Stairs(Stairs::Up)
        } else if k == c.downstairs {
            Tile::Stairs(Stairs::Down)
        } else {
            Tile::Floor
        }
    } else if b == SWITCH_SYMBOL {
        let k = count_before(s, b, i);
        if k == c.switch1 {
            Tile::Switch(c.bit1)
        } else if k == c.switch2 {
            Tile::Switch(c.bit2)
        } else {
            Tile::Wall
        }
    } else if is_upper(b) {
        if c.letters@[letter_index(b)] { Tile::Wall } else { Tile::Floor }
    } else {
        if c.letters@[letter_index(b)] { Tile::Floor } else { Tile::Wall }
    }
}

/// The column of the scheme that column `x` of the level comes from.
pub open spec fn source_x(c: Choices, x: int) -> int {
    if c.mirror != c.reverse { WIDTH - 1 - x } else { x }
}

/// The row of the scheme that row `y` of the level comes from.
pub open spec fn source_y(c: Choices, y: int) -> int {
    if c.reverse { HEIGHT - 1 - y } else { y }
}

/// The scheme index that cell (x, y) of the level comes from.
pub open spec fn source_index(c: Choices, x: int, y: int) -> int {
    WIDTH * source_y(c, y) + source_x(c, x)
}

/// `g` is the level that choices `c` make of scheme `s`.
pub open spec fn resolves_to(s: Seq<u8>, c: Choices, g: Seq<Tile>) -> bool {
    &&& g.len() == CELLS
    &&& forall|x: int, y: int|
        0 <= x < WIDTH && 0 <= y < HEIGHT ==> #[trigger] g[WIDTH * y + x] == scheme_tile(
            s,
            c,
            source_index(c, x, y),
        )
}

/// Cell (x, y) of `g` holds `t`, and no other cell does.
pub open spec fn exactly_one(g: Seq<Tile>, t: Tile) -> bool {
    exists|x: int, y: int|
        0 <= x < WIDTH && 0 <= y < HEIGHT && #[trigger] g[WIDTH * y + x] == t && forall|
            x2: int,
            y2: int,
        |
            0 <= x2 < WIDTH && 0 <= y2 < HEIGHT && #[trigger] g[WIDTH * y2 + x2] == t ==> x2 == x
                && y2 == y
}

fn count_symbol(s: &Vec<u8>, b: u8) -> (r: usize)
    ensures
        r == count_of(s@, b),
{
    let mut n: usize = 0;
    let mut i: usize = 0;
    while i < s.len()
        invariant
            i <= s@.len(),
            n == count_before(s@, b, i as int),
            n <= i,
        decreases s.len() - i,
    {
        if s[i] == b {
            n = n + 1;
        }
        i = i + 1;
    }
    n
}

fn is_legal(b: u8) -> (r: bool)
    ensures
        r == legal_symbol(b),
{
    b == FLOOR_SYMBOL || b == WALL_SYMBOL || b == DOOR_SYMBOL || b == STAIRS_SYMBOL || b == SWITCH_SYMBOL || (UPPER_A <= b && b <= UPPER_Z) || (
    LOWER_A <= b && b <= LOWER_Z)
}

proof fn lemma_first_illegal_skip(s: Seq<u8>, i: int)
    requires
        0 <= i,
        forall|j: int| 0 <= j < i && j < s.len() ==> legal_symbol(#[trigger] s[j]),
    ensures
        first_illegal(s) == first_illegal_from(s, i),
    decreases i,
{
    if i > 0 {
        lemma_first_illegal_skip(s, i - 1);
        if i - 1 < s.len() {
            assert(legal_symbol(s[i - 1]));
        }
    }
}

proof fn lemma_first_illegal_bounds(s: Seq<u8>, i: int)
    requires
        0 <= i,
    ensures
        first_illegal_from(s, i) <= s.len() || i > s.len(),
        first_illegal_from(s, i) < s.len() ==> !legal_symbol(s[first_illegal_from(s, i)]),
        first_illegal_from(s, i) == s.len() && i <= s.len() ==> forall|j: int|
            i <= j < s.len() ==> legal_symbol(#[trigger] s[j]),
    decreases s.len() - i,
{
    if i < s.len() && legal_symbol(s[i]) {
        lemma_first_illegal_bounds(s, i + 1);
    }
}

/// Turns scheme number `which` into a level with the given choices.
pub fn resolve_scheme(which: usize, scheme: &Scheme, choices: &Choices) -> (r: Result<
    Grid<Tile>,
    MapError,
>)
    requires
        scheme.wf(),
        choices.letters@.len() == 26,
    ensures
        match map_error(which, scheme.grid@) {
            Some(e) => r == Err::<Grid<Tile>, MapError>(e),
            None => r is Ok && resolves_to(scheme.grid@, *choices, r->Ok_0.grid@),
        },
{
    let s = &scheme.grid;
    let stair_total = count_symbol(s, STAIRS_SYMBOL);
    if stair_total < 2 {
        return Err(MapError::StairError(which));
    }
    let switch_total = count_symbol(s, SWITCH_SYMBOL);
    if switch_total < 2 {
        return Err(MapError::SwitchError(which));
    }
    let mut plain: Vec<Tile> = Vec::with_capacity(CELLS);
    let mut stairs: usize = 0;
    let mut switches: usize = 0;
    let mut i: usize = 0;
    while i < s.len()
        invariant
            s@ == scheme.grid@,
            s@.len() == CELLS,
            i <= CELLS,
            plain@.len() == i,
            stairs == count_before(s@, STAIRS_SYMBOL, i as int),
            switches == count_before(s@, SWITCH_SYMBOL, i as int),
            stairs <= i,
            switches <= i,
            stair_total == count_of(s@, STAIRS_SYMBOL),
            switch_total == count_of(s@, SWITCH_SYMBOL),
            stair_total >= 2,
            switch_total >= 2,
            choices.letters@.len() == 26,
            forall|j: int| 0 <= j < i ==> legal_symbol(#[trigger] s@[j]),
            forall|j: int| 0 <= j < i ==> #[trigger] plain@[j] == scheme_tile(s@, *choices, j),
        decreases CELLS - i,
    {
        let b = s[i];
        let tile = if b == FLOOR_SYMBOL {
            Tile::Floor
        } else if b == WALL_SYMBOL {
            Tile::Wall
        } else if b == DOOR_SYMBOL {
            Tile::Door
        } else if b == STAIRS_SYMBOL {
            let t = if stairs == choices.upstairs {
                Tile::Stairs(Stairs::Up)
            } else if stairs == choices.downstairs {
                Tile::Stairs(Stairs::Down)
            } else {
                Tile::Floor
            };
            stairs = stairs + 1;
            t
        } else if b == SWITCH_SYMBOL {
            let t = if switches == choices.switch1 {
                Tile::Switch(choices.bit1)
            } else if switches == choices.switch2 {
                Tile::Switch(choices.bit2)
            } else {
                Tile::Wall
            };
            switches = switches + 1;
            t
        } else if UPPER_A <= b && b <= UPPER_Z {
            if choices.letters[(b - UPPER_A) as usize] {
                Tile::Wall
            } else {
                Tile::Floor
            }
        } else if LOWER_A <= b && b <= LOWER_Z {
            if choices.letters[(b - LOWER_A) as usize] {
                Tile::Floor
            } else {
                Tile::Wall
            }
        } else {
            proof {
                lemma_first_illegal_skip(s@, i as int);
                assert(!legal_symbol(s@[i as int]));
                assert(first_illegal_from(s@, i as int) == i);
            }
            return Err(MapError::TileError(which, b));
        };
        plain.push(tile);
        i = i + 1;
    }
    proof {
        lemma_first_illegal_skip(s@, CELLS as int);
    }
    let g = Grid { grid: plain };
    Ok(flipped(&g, choices.mirror, choices.reverse))
}

/// The grid with each row reversed if `mirror`, then the whole cell sequence
/// reversed if `reverse`.
pub fn flipped(g: &Grid<Tile>, mirror: bool, reverse: bool) -> (r: Grid<Tile>)
    requires
        g.wf(),
    ensures
        r.wf(),
        forall|x: int, y: int|
            0 <= x < WIDTH && 0 <= y < HEIGHT ==> #[trigger] r.grid@[WIDTH * y + x] == g.grid@[WIDTH
                * (if reverse { HEIGHT - 1 - y } else { y }) + (if mirror != reverse {
                WIDTH - 1 - x
            } else {
                x
            })],
{
    let mut out: Vec<Tile> = Vec::with_capacity(CELLS);
    let mut y: usize = 0;
    while y < HEIGHT
        invariant
            g.wf(),
            y <= HEIGHT,
            out@.len() == WIDTH * y,
            forall|x2: int, y2: int|
                0 <= x2 < WIDTH && 0 <= y2 < y ==> #[trigger] out@[WIDTH * y2 + x2] == g.grid@[WIDTH
                    * (if reverse { HEIGHT - 1 - y2 } else { y2 }) + (if mirror != reverse {
                    WIDTH - 1 - x2
                } else {
                    x2
                })],
        decreases HEIGHT - y,
    {
        let sy: usize = if reverse { HEIGHT - 1 - y } else { y };
        let mut x: usize = 0;
        while x < WIDTH
            invariant
                g.wf(),
                y < HEIGHT,
                x <= WIDTH,
                sy == (if reverse { HEIGHT - 1 - y } else { y as int }),
                out@.len() == WIDTH * y + x,
                forall|x2: int, y2: int|
                    0 <= x2 < WIDTH && 0 <= y2 < y ==> #[trigger] out@[WIDTH * y2 + x2]
                        == g.grid@[WIDTH * (if reverse { HEIGHT - 1 - y2 } else { y2 }) + (if mirror
                        != reverse {
                        WIDTH - 1 - x2
                    } else {
                        x2
                    })],
                forall|x2: int|
                    0 <= x2 < x ==> #[trigger] out@[WIDTH * y + x2] == g.grid@[WIDTH * sy + (
                    if mirror != reverse {
                        WIDTH - 1 - x2
                    } else {
                        x2
                    })],
            decreases WIDTH - x,
        {
            let sx: usize = if mirror != reverse { WIDTH - 1 - x } else { x };
            let t = g.grid[WIDTH * sy + sx];
            out.push(t);
            x = x + 1;
        }
        y = y + 1;
    }
    Grid { grid: out }
}

/// Builds scheme number `which` into a level, drawing the choices from `rng`.
pub fn build_map(which: usize, scheme: &Scheme, rng: &mut StdRng) -> (r: Result<Grid<Tile>, MapError>)
    requires
        scheme.wf(),
    ensures
        match map_error(which, scheme.grid@) {
            Some(e) => r == Err::<Grid<Tile>, MapError>(e),
            None => {
                &&& r is Ok
                &&& exists|c: Choices|
                    valid_choices(scheme.grid@, c) && resolves_to(scheme.grid@, c, r->Ok_0.grid@)
                &&& exactly_one(r->Ok_0.grid@, Tile::Stairs(Stairs::Up))
                &&& exactly_one(r->Ok_0.grid@, Tile::Stairs(Stairs::Down))
            },
        },
{
    let stair_total = count_symbol(&scheme.grid, STAIRS_SYMBOL);
    if stair_total < 2 {
        return Err(MapError::StairError(which));
    }
    let switch_total = count_symbol(&scheme.grid, SWITCH_SYMBOL);
    if switch_total < 2 {
        return Err(MapError::SwitchError(which));
    }
    let (upstairs, downstairs) = random_range_two(rng, stair_total);
    let (switch1, switch2) = random_range_two(rng, switch_total);
    let bit1 = BitNumber::from_number(random_range(rng, 0, 6));
    let bit2 = BitNumber::from_number(random_range(rng, 0, 6));
    let mut letters: Vec<bool> = Vec::with_capacity(26);
    let mut k: usize = 0;
    while k < 26
        invariant
            k <= 26,
            letters@.len() == k,
        decreases 26 - k,
    {
        letters.push(coin_flip(rng));
        k = k + 1;
    }
    let mirror = coin_flip(rng);
    let reverse = coin_flip(rng);
    let choices = Choices {
        upstairs,
        downstairs,
        switch1,
        switch2,
        bit1,
        bit2,
        letters,
        mirror,
        reverse,
    };
    let r = resolve_scheme(which, scheme, &choices);
    proof {
        if r is Ok {
            lemma_one_staircase_each(scheme.grid@, choices, r->Ok_0.grid@);
        }
    }
    r
}

proof fn lemma_rank_exists(s: Seq<u8>, b: u8, k: nat, n: int)
    requires
        0 <= n <= s.len(),
        k < count_before(s, b, n),
    ensures
        exists|i: int| 0 <= i < n && s[i] == b && #[trigger] count_before(s, b, i) == k,
    decreases n,
{
    if k < count_before(s, b, n - 1) {
        lemma_rank_exists(s, b, k, n - 1);
    } else {
        assert(s[n - 1] == b && count_before(s, b, n - 1) == k);
    }
}

proof fn lemma_rank_increases(s: Seq<u8>, b: u8, i: int, j: int)
    requires
        0 <= i < j <= s.len(),
        s[i] == b,
    ensures
        count_before(s, b, i) < count_before(s, b, j),
    decreases j,
{
    if j > i + 1 {
        lemma_rank_increases(s, b, i, j - 1);
    }
}

proof fn lemma_row_major_unique(a: int, b: int, c: int, d: int)
    requires
        0 <= b < WIDTH,
        0 <= d < WIDTH,
        WIDTH * a + b == WIDTH * c + d,
    ensures
        a == c,
        b == d,
{
    assert(a == c) by (nonlinear_arith)
        requires
            0 <= b < 19,
            0 <= d < 19,
            19 * a + b == 19 * c + d,
    ;
}

/// The staircase `t` comes from the `<` of rank `k`, and from no other cell.
proof fn lemma_staircase_unique(s: Seq<u8>, c: Choices, g: Seq<Tile>, k: nat, t: Tile)
    requires
        s.len() == CELLS,
        valid_choices(s, c),
        resolves_to(s, c, g),
        (k == c.upstairs && t == Tile::Stairs(Stairs::Up)) || (k == c.downstairs && t
            == Tile::Stairs(Stairs::Down)),
    ensures
        exactly_one(g, t),
{
    assert forall|i: int| 0 <= i < CELLS implies (#[trigger] scheme_tile(s, c, i) == t <==> (s[i]
        == STAIRS_SYMBOL && count_before(s, STAIRS_SYMBOL, i) == k)) by {}
    lemma_rank_exists(s, STAIRS_SYMBOL, k, CELLS as int);
    let i0 = choose|i: int|
        0 <= i < CELLS && s[i] == STAIRS_SYMBOL && #[trigger] count_before(s, STAIRS_SYMBOL, i)
            == k;
    let y0 = i0 / (WIDTH as int);
    let x0 = i0 % (WIDTH as int);
    assert(i0 == WIDTH * y0 + x0 && 0 <= x0 < WIDTH && 0 <= y0 < HEIGHT);
    let x = if c.mirror != c.reverse { WIDTH - 1 - x0 } else { x0 };
    let y = if c.reverse { HEIGHT - 1 - y0 } else { y0 };
    assert(source_index(c, x, y) == i0);
    assert(g[WIDTH * y + x] == t);
    assert forall|x2: int, y2: int|
        0 <= x2 < WIDTH && 0 <= y2 < HEIGHT && #[trigger] g[WIDTH * y2 + x2] == t implies x2 == x
            && y2 == y by {
        let i2 = source_index(c, x2, y2);
        assert(scheme_tile(s, c, i2) == t);
        if i2 < i0 {
            lemma_rank_increases(s, STAIRS_SYMBOL, i2, i0);
        } else if i0 < i2 {
            lemma_rank_increases(s, STAIRS_SYMBOL, i0, i2);
        }
        lemma_row_major_unique(source_y(c, y2), source_x(c, x2), y0, x0);
    }
}

/// A level built from a scheme with valid choices has exactly one up staircase
/// and exactly one down staircase.
pub proof fn lemma_one_staircase_each(s: Seq<u8>, c: Choices, g: Seq<Tile>)
    requires
        s.len() == CELLS,
        valid_choices(s, c),
        resolves_to(s, c, g),
    ensures
        exactly_one(g, Tile::Stairs(Stairs::Up)),
        exactly_one(g, Tile::Stairs(Stairs::Down)),
{
    lemma_staircase_unique(s, c, g, c.upstairs as nat, Tile::Stairs(Stairs::Up));
    lemma_staircase_unique(s, c, g, c.downstairs as nat, Tile::Stairs(Stairs::Down));
}

/// The tile that a letter's other case stands for.
pub open spec fn opposite(t: Tile) -> Tile {
    if t == Tile::Wall {
        Tile::Floor
    } else {
        Tile::Wall
    }
}

/// In a built level, all cells that come from one uppercase letter hold the same
/// tile, a wall or a floor, and all cells that come from its lowercase form hold
/// the other one.
pub proof fn lemma_letter_symmetry(s: Seq<u8>, c: Choices, g: Seq<Tile>, upper: u8)
    requires
        s.len() == CELLS,
        valid_choices(s, c),
        resolves_to(s, c, g),
        is_upper(upper),
    ensures
        forall|x: int, y: int|
            0 <= x < WIDTH && 0 <= y < HEIGHT && s[source_index(c, x, y)] == upper ==> (
            #[trigger] g[WIDTH * y + x] == Tile::Wall || g[WIDTH * y + x] == Tile::Floor),
        forall|x1: int, y1: int, x2: int, y2: int|
            0 <= x1 < WIDTH && 0 <= y1 < HEIGHT && 0 <= x2 < WIDTH && 0 <= y2 < HEIGHT && s[source_index(c, x1, y1)] == upper
                && s[source_index(c, x2, y2)] == upper ==> #[trigger] g[WIDTH * y1 + x1]
                == #[trigger] g[WIDTH * y2 + x2],
        forall|x1: int, y1: int, x2: int, y2: int|
            0 <= x1 < WIDTH && 0 <= y1 < HEIGHT && 0 <= x2 < WIDTH && 0 <= y2 < HEIGHT && s[source_index(c, x1, y1)] == upper
                && s[source_index(c, x2, y2)] == upper + 32 ==> #[trigger] g[WIDTH * y2 + x2]
                == opposite(#[trigger] g[WIDTH * y1 + x1]),
{
}

/// The first of the `n` lines from index `from` on that is missing or is not
/// one row of `WIDTH` bytes.
pub open spec fn bad_row(lines: Seq<Seq<u8>>, from: int, n: int) -> Option<int>
    decreases n,
{
    if n <= 0 {
        None
    } else if from >= lines.len() || lines[from].len() != WIDTH {
        Some(from)
    } else {
        bad_row(lines, from + 1, n - 1)
    }
}

/// The `n` lines from index `from` on, joined.
pub open spec fn rows_from(lines: Seq<Seq<u8>>, from: int, n: int) -> Seq<u8>
    decreases n,
{
    if n <= 0 {
        Seq::empty()
    } else {
        lines[from] + rows_from(lines, from + 1, n - 1)
    }
}

/// The schemes of a scheme file from line index `start` on: each is one
/// separating line and then `HEIGHT` rows of `WIDTH` symbols. A missing or
/// misshapen row is a shape error carrying its line number, counted from 1.
pub open spec fn parse_from(lines: Seq<Seq<u8>>, start: int) -> Result<Seq<Seq<u8>>, MapError>
    decreases lines.len() + 1 + HEIGHT - start,
{
    if start >= lines.len() || start < 0 {
        Ok(Seq::empty())
    } else {
        match bad_row(lines, start + 1, HEIGHT as int) {
            Some(b) => Err(MapError::ShapeError((b + 1) as usize)),
            None => match parse_from(lines, start + 1 + HEIGHT) {
                Ok(rest) => Ok(seq![rows_from(lines, start + 1, HEIGHT as int)] + rest),
                Err(e) => Err(e),
            },
        }
    }
}

pub open spec fn after(done: Seq<Seq<u8>>, r: Result<Seq<Seq<u8>>, MapError>) -> Result<
    Seq<Seq<u8>>,
    MapError,
> {
    match r {
        Ok(rest) => Ok(done + rest),
        Err(e) => Err(e),
    }
}

pub open spec fn grids_view(v: Seq<Scheme>) -> Seq<Seq<u8>> {
    Seq::new(v.len(), |j: int| v[j].grid@)
}

/// Reads the schemes of a scheme file given as its lines.
pub fn parse_schemes(lines: &Vec<Vec<u8>>) -> (r: Result<Vec<Scheme>, MapError>)
    requires
        lines@.len() < usize::MAX - 16,
    ensures
        match parse_from(lines.deep_view(), 0) {
            Ok(schemes) => r is Ok && grids_view(r->Ok_0@) == schemes && forall|j: int|
                0 <= j < r->Ok_0@.len() ==> (#[trigger] r->Ok_0@[j]).wf(),
            Err(e) => r == Err::<Vec<Scheme>, MapError>(e),
        },
{
    let ghost all = lines.deep_view();
    let mut maps: Vec<Scheme> = Vec::new();
    let mut i: usize = 0;
    loop
        invariant
            all == lines.deep_view(),
            all.len() == lines@.len(),
            lines@.len() < usize::MAX - 16,
            i <= lines@.len(),
            parse_from(all, 0) == after(grids_view(maps@), parse_from(all, i as int)),
            forall|j: int| 0 <= j < maps@.len() ==> (#[trigger] maps@[j]).wf(),
        decreases lines@.len() - i,
    {
        if i >= lines.len() {
            assert(grids_view(maps@) + Seq::<Seq<u8>>::empty() =~= grids_view(maps@));
            return Ok(maps);
        }
        let start = i;
        i = i + 1;
        let mut grid: Vec<u8> = Vec::with_capacity(CELLS);
        let mut k: usize = 0;
        while k < HEIGHT
            invariant
                all == lines.deep_view(),
                all.len() == lines@.len(),
                lines@.len() < usize::MAX - 16,
                start < lines@.len(),
                k <= HEIGHT,
                i == start + 1 + k,
                i <= lines@.len(),
                parse_from(all, 0) == after(grids_view(maps@), parse_from(all, start as int)),
                forall|j: int| 0 <= j < maps@.len() ==> (#[trigger] maps@[j]).wf(),
                grid@.len() == WIDTH * k,
                bad_row(all, start + 1, HEIGHT as int) == bad_row(all, i as int, HEIGHT - k),
                grid@ + rows_from(all, i as int, HEIGHT - k) == rows_from(all, start + 1, HEIGHT as int),
            decreases HEIGHT - k,
        {
            if i >= lines.len() || lines[i].len() != WIDTH {
                return Err(MapError::ShapeError(i + 1));
            }
            let row = &lines[i];
            assert(all[i as int] == row@);
            let mut c: usize = 0;
            let ghost before = grid@;
            while c < WIDTH
                invariant
                    row@.len() == WIDTH,
                    c <= WIDTH,
                    grid@ == before + row@.subrange(0, c as int),
                decreases WIDTH - c,
            {
                grid.push(row[c]);
                c = c + 1;
            }
            assert(row@.subrange(0, WIDTH as int) =~= row@);
            assert(before + rows_from(all, i as int, HEIGHT - k) =~= grid@ + rows_from(all, i + 1, HEIGHT - k - 1));
            i = i + 1;
            k = k + 1;
        }
        assert(grid@ + rows_from(all, i as int, 0) =~= grid@);
        let ghost done = grids_view(maps@);
        maps.push(Grid { grid });
        assert(grids_view(maps@) =~= done + seq![rows_from(all, start + 1, HEIGHT as int)]);
        proof {
            match parse_from(all, i as int) {
                Ok(rest) => {
                    assert(done + (seq![rows_from(all, start + 1, HEIGHT as int)] + rest) =~= grids_view(maps@) + rest);
                },
                Err(e) => {},
            }
        }
    }
}

} // verus!
