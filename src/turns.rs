use rand::rngs::StdRng;
use vstd::prelude::*;
use crate::geometry::{cheby_between, taxi_between, Point};
use crate::grid::Grid;
use crate::level::Level;
use crate::log::{told, Log};
use crate::monster::{Alert, Monster};
use crate::speech::{expands_to, shout_line, shout_pattern};
use crate::world::World;
use crate::random::shuffle;

verus! {

/// `a` comes before `b` in lexicographic order.
pub open spec fn lex_less(a: (int, int), b: (int, int)) -> bool {
    a.0 < b.0 || (a.0 == b.0 && a.1 < b.1)
}

/// How a step from `from` to `p` changes the Chebyshev and taxicab distances
/// to `target`; lower is better.
pub open spec fn step_score(from: Point, p: Point, target: Point) -> (int, int) {
    (
        cheby_between(p, target) - cheby_between(from, target),
        taxi_between(p, target) - taxi_between(from, target),
    )
}

/// `p` is `from` or one of its eight neighbors.
pub open spec fn within_one(from: Point, p: Point) -> bool {
    -1 <= p.0 - from.0 <= 1 && -1 <= p.1 - from.1 <= 1
}

/// A cell that brings a monster at `from` closer to `target`.
pub open spec fn improving(from: Point, p: Point, target: Point) -> bool {
    within_one(from, p) && lex_less(step_score(from, p, target), (0, 0))
}

/// A cell a monster can step on: on the board, open, and free of living monsters.
pub open spec fn enterable(level: &Level, p: Point) -> bool {
    p.on_board() && level.tiles.at(p).open_spec() && !level.occupied(p)
}

proof fn lemma_push_contains(s: Seq<Point>, p: Point, q: Point)
    ensures
        s.push(p).contains(q) <==> (s.contains(q) || q == p),
{
    if s.contains(q) {
        let j = choose|j: int| 0 <= j < s.len() && s[j] == q;
        assert(s.push(p)[j] == q);
    }
    if q == p {
        assert(s.push(p)[s.len() as int] == q);
    }
    if s.push(p).contains(q) && q != p {
        let j = choose|j: int| 0 <= j < s.push(p).len() && s.push(p)[j] == q;
        assert(s[j] == q);
    }
}

/// `after` is `before` with monster `i` moved toward `target` as `approach`
/// moves it: onto an enterable improving cell that no other such cell beats,
/// or nowhere when there is none.
pub open spec fn approached(before: Level, after: Level, i: int, target: Point) -> bool {
    let from = before.monsters@[i].position;
    &&& after == Level { monsters: after.monsters, ..before }
    &&& !(exists|p: Point| #[trigger] improving(from, p, target) && enterable(&before, p))
        ==> after.monsters == before.monsters
    &&& (exists|p: Point| #[trigger] improving(from, p, target) && enterable(&before, p))
        ==> exists|p: Point|
        {
            &&& #[trigger] improving(from, p, target)
            &&& enterable(&before, p)
            &&& forall|q: Point|
                #[trigger] improving(from, q, target) && enterable(&before, q) ==> !lex_less(
                    step_score(from, q, target),
                    step_score(from, p, target),
                )
            &&& after.monsters@ == before.monsters@.update(
                i,
                Monster { position: p, ..before.monsters@[i] },
            )
        }
}

/// The cells that bring `from` closer to `target`, in row order.
fn improving_cells(from: Point, target: Point) -> (r: Vec<Point>)
    requires
        from.encodable(),
        target.encodable(),
    ensures
        forall|p: Point| improving(from, p, target) <==> r@.contains(p),
{
    let mut r: Vec<Point> = Vec::new();
    let current_cheby = from.cheby_dist(target);
    let current_taxi = from.taxi_dist(target);
    let mut dy: i32 = -1;
    while dy <= 1
        invariant
            from.encodable(),
            target.encodable(),
            -1 <= dy <= 2,
            current_cheby == cheby_between(from, target),
            current_taxi == taxi_between(from, target),
            forall|p: Point|
                (improving(from, p, target) && p.1 - from.1 < dy) <==> r@.contains(p),
        decreases 2 - dy,
    {
        let mut dx: i32 = -1;
        while dx <= 1
            invariant
                from.encodable(),
                target.encodable(),
                -1 <= dy <= 1,
                -1 <= dx <= 2,
                current_cheby == cheby_between(from, target),
                current_taxi == taxi_between(from, target),
                forall|p: Point|
                    (improving(from, p, target) && (p.1 - from.1 < dy || (p.1 - from.1 == dy
                        && p.0 - from.0 < dx))) <==> r@.contains(p),
            decreases 2 - dx,
        {
            let p = Point(from.0 + dx, from.1 + dy);
            let sc = p.cheby_dist(target) - current_cheby;
            let st = p.taxi_dist(target) - current_taxi;
            if sc < 0 || (sc == 0 && st < 0) {
                let ghost before = r@;
                assert(within_one(from, p));
                assert(step_score(from, p, target) == (sc as int, st as int));
                assert(improving(from, p, target));
                r.push(p);
                proof {
                    assert(r@ == before.push(p));
                    assert forall|q: Point|
                        (improving(from, q, target) && (q.1 - from.1 < dy || (q.1 - from.1 == dy
                            && q.0 - from.0 < dx + 1))) <==> r@.contains(q) by {
                        lemma_push_contains(before, p, q);
                        if q.0 == p.0 && q.1 == p.1 {
                            assert(q == p);
                        } else {
                            assert((q.1 - from.1 < dy || (q.1 - from.1 == dy && q.0 - from.0 < dx
                                + 1)) <==> (q.1 - from.1 < dy || (q.1 - from.1 == dy && q.0
                                - from.0 < dx)));
                        }
                    }
                }
            }
            dx = dx + 1;
        }
        dy = dy + 1;
    }
    r
}

/// Moves monster `monster_index` one step toward `target`: onto the enterable
/// cell that improves its distances the most, the first in a random order
/// among equally good ones. Returns false, and changes nothing, when no
/// enterable cell improves them.
pub fn approach(level: &mut Level, monster_index: usize, target: Point, rng: &mut StdRng) -> (r:
    bool)
    requires
        old(level).wf(),
        monster_index < 5,
        target.encodable(),
    ensures
        final(level).wf(),
        r == exists|p: Point|
            #[trigger] improving(old(level).monsters@[monster_index as int].position, p, target)
                && enterable(&*old(level), p),
        approached(*old(level), *final(level), monster_index as int, target),
{
    let from = level.monsters[monster_index].position;
    proof {
        assert(level.monsters@[monster_index as int].position.encodable());
    }
    let current_cheby = from.cheby_dist(target);
    let current_taxi = from.taxi_dist(target);
    let mut choices = improving_cells(from, target);
    let ghost listed = choices@;
    shuffle(rng, &mut choices);
    proof {
        broadcast use vstd::seq_lib::group_to_multiset_ensures;

        assert forall|p: Point| improving(from, p, target) <==> choices@.contains(p) by {
            assert(listed.contains(p) <==> listed.to_multiset().count(p) > 0);
            assert(choices@.contains(p) <==> choices@.to_multiset().count(p) > 0);
        }
    }
    let mut best: Option<Point> = None;
    let mut best_score: (i32, i32) = (0, 0);
    let mut k: usize = 0;
    while k < choices.len()
        invariant
            level.wf(),
            from.encodable(),
            target.encodable(),
            k <= choices@.len(),
            current_cheby == cheby_between(from, target),
            current_taxi == taxi_between(from, target),
            forall|p: Point| improving(from, p, target) <==> choices@.contains(p),
            forall|j: int| 0 <= j < choices@.len() ==> improving(from, #[trigger] choices@[j], target),
            match best {
                Some(b) => {
                    &&& improving(from, b, target)
                    &&& enterable(&*level, b)
                    &&& (best_score.0 as int, best_score.1 as int) == step_score(from, b, target)
                    &&& forall|j: int|
                        0 <= j < k && enterable(&*level, #[trigger] choices@[j]) ==> !lex_less(
                            step_score(from, choices@[j], target),
                            step_score(from, b, target),
                        )
                },
                None => forall|j: int| 0 <= j < k ==> !enterable(&*level, #[trigger] choices@[j]),
            },
        decreases choices@.len() - k,
    {
        let p = choices[k];
        assert(improving(from, p, target));
        let score = (p.cheby_dist(target) - current_cheby, p.taxi_dist(target) - current_taxi);
        let open = p.0 >= 0 && p.0 < 19 && p.1 >= 0 && p.1 < 13 && level.tiles.get(p).is_open()
            && level.monster_at(p).is_none();
        if open {
            let better = match best {
                None => true,
                Some(_) => score.0 < best_score.0 || (score.0 == best_score.0 && score.1
                    < best_score.1),
            };
            if better {
                best = Some(p);
                best_score = score;
            }
        }
        k = k + 1;
    }
    match best {
        Some(p) => {
            proof {
                assert forall|q: Point|
                    improving(from, q, target) && enterable(&*old(level), q) implies !lex_less(
                        step_score(from, q, target),
                        step_score(from, p, target),
                    ) by {
                    let j = choose|j: int| 0 <= j < choices@.len() && choices@[j] == q;
                }
            }
            let moved = crate::monster::Monster { position: p, ..level.monsters[monster_index] };
            level.monsters[monster_index] = moved;
            assert(level.monsters@ =~= old(level).monsters@.update(monster_index as int, moved));
            assert(improving(from, p, target) && enterable(&*old(level), p));
            true
        },
        None => {
            proof {
                assert forall|q: Point| improving(from, q, target) implies !enterable(&*level, q) by {
                    let j = choose|j: int| 0 <= j < choices@.len() && choices@[j] == q;
                }
            }
            false
        },
    }
}

/// The key by which monster `i` takes its turn: its Chebyshev, then taxicab,
/// distance to `target`.
pub open spec fn turn_key(level: &Level, i: int, target: Point) -> (int, int) {
    let p = level.monsters@[i].position;
    (cheby_between(p, target), taxi_between(p, target))
}

/// Monster `i` acts before monster `j`: it is nearer, or as near and in an
/// earlier slot.
pub open spec fn acts_before(level: &Level, i: int, j: int, target: Point) -> bool {
    lex_less(turn_key(level, i, target), turn_key(level, j, target)) || (turn_key(level, i, target)
        == turn_key(level, j, target) && i < j)
}

proof fn lemma_insert_in_order(level: &Level, target: Point, before: Seq<usize>, p: int, i: usize)
    requires
        0 <= p <= before.len(),
        forall|k: int| 0 <= k < before.len() ==> #[trigger] before[k] < i,
        forall|a: int, b: int|
            0 <= a < b < before.len() ==> acts_before(level, #[trigger] before[a] as int, #[trigger] before[b] as int, target),
        forall|k: int| 0 <= k < p ==> lex_less(turn_key(level, #[trigger] before[k] as int, target), turn_key(level, i as int, target)) || turn_key(level, before[k] as int, target) == turn_key(level, i as int, target),
        p < before.len() ==> !(lex_less(turn_key(level, before[p] as int, target), turn_key(level, i as int, target)) || turn_key(level, before[p] as int, target) == turn_key(level, i as int, target)),
    ensures
        forall|a: int, b: int|
            0 <= a < b < before.insert(p, i).len() ==> acts_before(level, #[trigger] before.insert(p, i)[a] as int, #[trigger] before.insert(p, i)[b] as int, target),
{
    let r = before.insert(p, i);
    assert forall|a: int, b: int| 0 <= a < b < r.len() implies acts_before(level, #[trigger] r[a] as int, #[trigger] r[b] as int, target) by {
        if b < p {
            assert(r[a] == before[a] && r[b] == before[b]);
        } else if a > p {
            assert(r[a] == before[a - 1] && r[b] == before[b - 1]);
        } else if a < p && b > p {
            assert(r[a] == before[a] && r[b] == before[b - 1]);
        } else if a == p {
            assert(r[b] == before[b - 1]);
            if b - 1 > p {
                assert(acts_before(level, before[p] as int, before[b - 1] as int, target));
            }
        } else {
            assert(r[a] == before[a]);
        }
    }
}

/// The slots of the living monsters, in the order they act.
pub fn turn_order(level: &Level, target: Point) -> (r: Vec<usize>)
    requires
        level.wf(),
        target.encodable(),
    ensures
        forall|k: int| 0 <= k < r@.len() ==> #[trigger] r@[k] < 5 && level.monsters@[r@[k] as int].hp > 0,
        forall|i: int| 0 <= i < 5 && level.monsters@[i].hp > 0 ==> r@.contains(i as usize),
        forall|a: int, b: int|
            0 <= a < b < r@.len() ==> acts_before(level, #[trigger] r@[a] as int, #[trigger] r@[b] as int, target),
{
    let mut r: Vec<usize> = Vec::new();
    let mut keys: Vec<(i32, i32)> = Vec::new();
    let mut i: usize = 0;
    while i < 5
        invariant
            level.wf(),
            target.encodable(),
            i <= 5,
            keys@.len() == r@.len(),
            forall|k: int| 0 <= k < r@.len() ==> #[trigger] r@[k] < i && level.monsters@[r@[k] as int].hp > 0,
            forall|k: int| 0 <= k < r@.len() ==> (#[trigger] keys@[k].0 as int, keys@[k].1 as int) == turn_key(level, r@[k] as int, target),
            forall|j: int| 0 <= j < i && level.monsters@[j].hp > 0 ==> r@.contains(j as usize),
            forall|a: int, b: int|
                0 <= a < b < r@.len() ==> acts_before(level, #[trigger] r@[a] as int, #[trigger] r@[b] as int, target),
        decreases 5 - i,
    {
        let m = &level.monsters[i];
        proof {
            assert(level.monsters@[i as int].position.encodable());
        }
        if m.alive() {
            let key = (m.position.cheby_dist(target), m.position.taxi_dist(target));
            let mut p: usize = 0;
            while p < r.len() && (keys[p].0 < key.0 || (keys[p].0 == key.0 && keys[p].1 <= key.1))
                invariant
                    p <= r@.len(),
                    keys@.len() == r@.len(),
                    forall|k: int| 0 <= k < p ==> lex_less(turn_key(level, #[trigger] r@[k] as int, target), (key.0 as int, key.1 as int)) || turn_key(level, r@[k] as int, target) == (key.0 as int, key.1 as int),
                    forall|k: int| 0 <= k < r@.len() ==> (#[trigger] keys@[k].0 as int, keys@[k].1 as int) == turn_key(level, r@[k] as int, target),
                decreases r@.len() - p,
            {
                p = p + 1;
            }
            let ghost before = r@;
            let ghost before_keys = keys@;
            r.insert(p, i);
            keys.insert(p, key);
            proof {
                assert(r@ == before.insert(p as int, i));
                assert forall|k: int| 0 <= k < r@.len() implies #[trigger] r@[k] < i + 1 && level.monsters@[r@[k] as int].hp > 0 by {
                    if k < p { assert(r@[k] == before[k]); } else if k > p { assert(r@[k] == before[k - 1]); }
                }
                assert forall|k: int| 0 <= k < r@.len() implies (#[trigger] keys@[k].0 as int, keys@[k].1 as int) == turn_key(level, r@[k] as int, target) by {
                    if k < p { assert(r@[k] == before[k] && keys@[k] == before_keys[k]); } else if k > p { assert(r@[k] == before[k - 1] && keys@[k] == before_keys[k - 1]); }
                }
                assert forall|j: int| 0 <= j < i + 1 && level.monsters@[j].hp > 0 implies r@.contains(j as usize) by {
                    if j == i {
                        assert(r@[p as int] == i);
                    } else {
                        let k = choose|k: int| 0 <= k < before.len() && before[k] == j as usize;
                        if k < p { assert(r@[k] == before[k]); } else { assert(r@[k + 1] == before[k]); }
                    }
                }
                lemma_insert_in_order(level, target, before, p as int, i);
            }
        }
        i = i + 1;
    }
    r
}

/// Whether `p` is among the cells in `visible`.
pub open spec fn in_sight(visible: &Grid<bool>, p: Point) -> bool {
    p.on_board() && visible.at(p)
}

fn sees_cell(visible: &Grid<bool>, p: Point) -> (r: bool)
    requires
        visible.wf(),
    ensures
        r == in_sight(visible, p),
{
    p.0 >= 0 && p.0 < 19 && p.1 >= 0 && p.1 < 13 && *visible.get(p)
}

/// Monster `i` has taken its turn, from `before` to `after`, telling the log
/// what it shouts: see `monster_turn`.
pub open spec fn turn_taken(
    before: Level,
    after: Level,
    log_before: Log,
    log_after: Log,
    i: int,
    target: Point,
    visible: Grid<bool>,
) -> bool {
    let m = before.monsters@[i];
    if m.alert == Alert::Dormant {
        if in_sight(&visible, m.position) {
            &&& after == Level { monsters: after.monsters, ..before }
            &&& after.monsters@ == before.monsters@.update(i, Monster { alert: Alert::Alerted, ..m })
            &&& exists|line: Seq<char>|
                #[trigger] expands_to(shout_pattern(m.kind)@, line) && told(log_before, log_after, line)
        } else {
            after == before && log_after == log_before
        }
    } else {
        &&& log_after == log_before
        &&& if cheby_between(m.position, target) == 1 || !in_sight(&visible, m.position) {
            after == before
        } else {
            approached(before, after, i, target)
        }
    }
}

/// One monster's turn. A dormant monster that the player sees wakes and
/// shouts. An alerted monster next to the player stays; one further away
/// that the player sees approaches.
pub fn monster_turn(
    level: &mut Level,
    monster_index: usize,
    target: Point,
    visible: &Grid<bool>,
    log: &mut Log,
    rng: &mut StdRng,
)
    requires
        old(level).wf(),
        monster_index < 5,
        target.encodable(),
        visible.wf(),
    ensures
        final(level).wf(),
        turn_taken(*old(level), *final(level), *old(log), *final(log), monster_index as int, target, *visible),
{
    let m = level.monsters[monster_index];
    proof {
        assert(level.monsters@[monster_index as int].position.encodable());
    }
    match m.alert {
        Alert::Alerted => {
            if m.position.cheby_dist(target) == 1 {
                // Next to the player: attacks are resolved elsewhere.
            } else if sees_cell(visible, m.position) {
                approach(level, monster_index, target, rng);
            }
        },
        Alert::Dormant => {
            if sees_cell(visible, m.position) {
                let line = shout_line(m.kind, rng);
                let ghost said = line@;
                log.tell(line);
                level.monsters[monster_index] = Monster { alert: Alert::Alerted, ..m };
                assert(level.monsters@ =~= old(level).monsters@.update(monster_index as int, Monster { alert: Alert::Alerted, ..m }));
                assert(expands_to(shout_pattern(m.kind)@, said));
            }
        },
    }
}

/// The monsters of the player's level take their turns, nearest first.
pub fn take_turns(world: &mut World, rng: &mut StdRng)
    requires
        old(world).wf(),
    ensures
        final(world).wf(),
        final(world).player == old(world).player,
        final(world).dungeon@.len() == old(world).dungeon@.len(),
        forall|i: int|
            0 <= i < old(world).dungeon@.len() && Some(i) != old(world).player.level_index(
                old(world).dungeon@,
            ) ==> #[trigger] final(world).dungeon@[i] == old(world).dungeon@[i],
        forall|i: int|
            0 <= i < old(world).dungeon@.len() ==> (#[trigger] final(world).dungeon@[i]).tiles
                == old(world).dungeon@[i].tiles,
        old(world).player.depth == 0 ==> final(world).dungeon@ == old(world).dungeon@ && final(world).log == old(world).log,
        old(world).player.depth != 0 ==> ({
            let li = old(world).player.depth - 1;
            let level = old(world).dungeon@[li];
            let target = old(world).player.position;
            exists|order: Seq<usize>, levels: Seq<Level>, logs: Seq<Log>|
                {
                    &&& forall|k: int| 0 <= k < order.len() ==> #[trigger] order[k] < 5 && level.monsters@[order[k] as int].hp > 0
                    &&& forall|i: int| 0 <= i < 5 && level.monsters@[i].hp > 0 ==> order.contains(i as usize)
                    &&& forall|a: int, b: int| 0 <= a < b < order.len() ==> acts_before(&level, #[trigger] order[a] as int, #[trigger] order[b] as int, target)
                    &&& levels.len() == order.len() + 1
                    &&& logs.len() == order.len() + 1
                    &&& levels[0] == level
                    &&& logs[0] == old(world).log
                    &&& levels.last() == final(world).dungeon@[li]
                    &&& logs.last() == final(world).log
                    &&& forall|k: int| 0 <= k < order.len() ==> #[trigger] turn_taken(levels[k], levels[k + 1], logs[k], logs[k + 1], order[k] as int, target, old(world).player.visible)
                }
        }),
{
    if world.player.depth == 0 {
        return;
    }
    let li = world.player.depth as usize - 1;
    let target = world.player.position;
    proof {
        assert(world.dungeon@[li as int].wf());
    }
    let order = turn_order(&world.dungeon[li], target);
    let ghost mut levels: Seq<Level> = seq![world.dungeon@[li as int]];
    let ghost mut logs: Seq<Log> = seq![world.log];
    let mut k: usize = 0;
    while k < order.len()
        invariant
            levels.len() == k + 1,
            logs.len() == k + 1,
            levels[0] == old(world).dungeon@[li as int],
            logs[0] == old(world).log,
            levels.last() == world.dungeon@[li as int],
            logs.last() == world.log,
            forall|j: int| 0 <= j < k ==> #[trigger] turn_taken(levels[j], levels[j + 1], logs[j], logs[j + 1], order@[j] as int, target, old(world).player.visible),
            k <= order@.len(),
            world.wf(),
            world.player == old(world).player,
            li == old(world).player.depth - 1,
            li < world.dungeon@.len(),
            target == world.player.position,
            world.dungeon@.len() == old(world).dungeon@.len(),
            forall|k: int| 0 <= k < order@.len() ==> #[trigger] order@[k] < 5,
            forall|i: int|
                0 <= i < old(world).dungeon@.len() && i != li ==> #[trigger] world.dungeon@[i]
                    == old(world).dungeon@[i],
            world.dungeon@[li as int].tiles == old(world).dungeon@[li as int].tiles,
        decreases order@.len() - k,
    {
        let index = order[k];
        let player = &world.player;
        let level = &mut world.dungeon[li];
        monster_turn(level, index, target, &player.visible, &mut world.log, rng);
        proof {
            let ghost before_levels = levels;
            let ghost before_logs = logs;
            levels = levels.push(world.dungeon@[li as int]);
            logs = logs.push(world.log);
            assert forall|j: int| 0 <= j < k + 1 implies #[trigger] turn_taken(levels[j], levels[j + 1], logs[j], logs[j + 1], order@[j] as int, target, old(world).player.visible) by {
                if j < k {
                    assert(levels[j] == before_levels[j] && levels[j + 1] == before_levels[j + 1]);
                    assert(logs[j] == before_logs[j] && logs[j + 1] == before_logs[j + 1]);
                }
            }
        }
        k = k + 1;
    }
    proof {
        assert(order@.len() == k);
    }
}

} // verus!
