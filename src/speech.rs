use rand::rngs::StdRng;
use vstd::prelude::*;
use vstd::string::StrSliceExecFns;
use crate::monster::Kind;
use crate::random::random_range;

verus! {

/// A brace group from `i` to `j` (exclusive) in `s`: an opening and a closing
/// brace with at least one character and no brace between them.
pub open spec fn group_at(s: Seq<char>, i: int, j: int) -> bool {
    &&& 0 <= i
    &&& i + 3 <= j <= s.len()
    &&& s[i] == '{'
    &&& s[j - 1] == '}'
    &&& forall|k: int| i < k < j - 1 ==> #[trigger] s[k] != '{' && s[k] != '}'
}

pub open spec fn group_starts(s: Seq<char>, i: int) -> bool {
    exists|j: int| group_at(s, i, j)
}

/// The brace group from `i` to `j` is the leftmost one of `s`.
pub open spec fn leftmost_group(s: Seq<char>, i: int, j: int) -> bool {
    group_at(s, i, j) && forall|k: int| 0 <= k < i ==> !#[trigger] group_starts(s, k)
}

pub open spec fn no_group(s: Seq<char>) -> bool {
    forall|k: int| !#[trigger] group_starts(s, k)
}

/// `a` is one of the `|`-separated alternatives of `inner`.
pub open spec fn is_alternative(inner: Seq<char>, a: Seq<char>) -> bool {
    exists|x: int, y: int|
        0 <= x <= y <= inner.len() && (x == 0 || inner[x - 1] == '|') && (y == inner.len()
            || inner[y] == '|') && (forall|k: int| x <= k < y ==> #[trigger] inner[k] != '|') && a
            == #[trigger] inner.subrange(x, y)
}

/// `t` is `s` with its leftmost brace group replaced by one of its alternatives.
pub open spec fn one_step(s: Seq<char>, t: Seq<char>) -> bool {
    exists|i: int, j: int, a: Seq<char>|
        #![trigger leftmost_group(s, i, j), is_alternative(s.subrange(i + 1, j - 1), a)]
        leftmost_group(s, i, j) && is_alternative(s.subrange(i + 1, j - 1), a) && t
            == s.subrange(0, i) + a + s.subrange(j, s.len() as int)
}

/// `r` is what `pattern` can become: brace groups replaced, leftmost first, by
/// one of their alternatives until none is left.
pub open spec fn expands_to(pattern: Seq<char>, r: Seq<char>) -> bool {
    &&& no_group(r)
    &&& exists|steps: Seq<Seq<char>>|
        {
            &&& steps.len() >= 1
            &&& steps[0] == pattern
            &&& steps.last() == r
            &&& forall|k: int| 0 <= k < steps.len() - 1 ==> one_step(#[trigger] steps[k], steps[k + 1])
        }
}

/// Relies on `regex::Regex::find` with the pattern `\{([^\{\}]+)\}`: the leftmost
/// brace group with no brace inside, if any. Its byte offsets are turned into
/// character offsets.
#[verifier::external_body]
fn find_group(s: &str) -> (r: Option<(usize, usize)>)
    ensures
        match r {
            Some((i, j)) => leftmost_group(s@, i as int, j as int),
            None => no_group(s@),
        },
{
    let re = regex::Regex::new(r"\{([^\{\}]+)\}").unwrap();
    match re.find(s) {
        Some(m) => Some((s[..m.start()].chars().count(), s[..m.end()].chars().count())),
        None => None,
    }
}

/// The `|`-separated alternatives of `inner`, in order.
fn split_alternatives(inner: &str) -> (r: Vec<String>)
    ensures
        r@.len() >= 1,
        forall|k: int| 0 <= k < r@.len() ==> is_alternative(inner@, #[trigger] r@[k]@),
{
    let n = inner.unicode_len();
    let mut r: Vec<String> = Vec::new();
    let mut start: usize = 0;
    let mut k: usize = 0;
    while k < n
        invariant
            n == inner@.len(),
            start <= k <= n,
            start == 0 || inner@[start - 1] == '|',
            forall|m: int| start <= m < k ==> #[trigger] inner@[m] != '|',
            forall|m: int| 0 <= m < r@.len() ==> is_alternative(inner@, #[trigger] r@[m]@),
        decreases n - k,
    {
        if inner.get_char(k) == '|' {
            let piece = inner.substring_char(start, k);
            proof {
                assert(piece@ == inner@.subrange(start as int, k as int));
            }
            let ghost before = r@;
            r.push(String::from_str(piece));
            proof {
                assert forall|m: int| 0 <= m < r@.len() implies is_alternative(inner@, #[trigger] r@[m]@) by {
                    if m < before.len() {
                        assert(r@[m] == before[m]);
                    }
                }
            }
            start = k + 1;
        }
        k = k + 1;
    }
    let piece = inner.substring_char(start, n);
    let ghost before = r@;
    r.push(String::from_str(piece));
    proof {
        assert forall|m: int| 0 <= m < r@.len() implies is_alternative(inner@, #[trigger] r@[m]@) by {
            if m < before.len() {
                assert(r@[m] == before[m]);
            }
        }
    }
    r
}

/// Replaces brace groups of `pattern`, leftmost first, by one of their
/// alternatives drawn at random, until none is left: `a{b|c}d` becomes `abd`
/// or `acd`.
pub fn generate(pattern: &str, rng: &mut StdRng) -> (r: String)
    ensures
        expands_to(pattern@, r@),
{
    let mut s = String::from_str(pattern);
    let ghost mut steps: Seq<Seq<char>> = seq![pattern@];
    loop
        invariant
            steps.len() >= 1,
            steps[0] == pattern@,
            steps.last() == s@,
            forall|k: int| 0 <= k < steps.len() - 1 ==> one_step(#[trigger] steps[k], steps[k + 1]),
        decreases s@.len(),
    {
        match find_group(s.as_str()) {
            None => {
                return s;
            },
            Some((i, j)) => {
                let text = s.as_str();
                let n = text.unicode_len();
                let inner = text.substring_char(i + 1, j - 1);
                let alternatives = split_alternatives(inner);
                let pick = random_range(rng, 0, alternatives.len());
                let chosen = alternatives[pick].as_str();
                proof {
                    let a = chosen@;
                    let inner_s = s@.subrange(i + 1, j - 1);
                    assert(is_alternative(inner_s, a));
                    let (x, y) = choose|x: int, y: int|
                        0 <= x <= y <= inner_s.len() && (x == 0 || inner_s[x - 1] == '|') && (y
                            == inner_s.len() || inner_s[y] == '|') && (forall|k: int|
                            x <= k < y ==> #[trigger] inner_s[k] != '|') && a
                            == #[trigger] inner_s.subrange(x, y);
                    assert(a.len() <= inner_s.len());
                }
                let mut t = String::from_str(text.substring_char(0, i));
                t.append(chosen);
                t.append(text.substring_char(j, n));
                proof {
                    let next = s@.subrange(0, i as int) + chosen@ + s@.subrange(j as int, s@.len() as int);
                    assert(t@ == next);
                    assert(one_step(s@, next));
                    steps = steps.push(next);
                    assert forall|k: int| 0 <= k < steps.len() - 1 implies one_step(#[trigger] steps[k], steps[k + 1]) by {
                        if k < steps.len() - 2 {
                            assert(steps[k] == steps.drop_last()[k]);
                            assert(steps[k + 1] == steps.drop_last()[k + 1]);
                        }
                    }
                }
                s = t;
            },
        }
    }
}

pub open spec fn intro_pattern(i: int) -> &'static str {
    if i == 0 {
        "Anxious but determined, you begin your quest."
    } else if i == 1 {
        "Welcome to the Cellar. Will you prevail or perish?"
    } else {
        "Dive down, nab the pendant, abscond. Let's do this."
    }
}

/// One of the opening lines, drawn at random.
pub fn intro_line(rng: &mut StdRng) -> (r: String)
    ensures
        exists|i: int| 0 <= i < 3 && expands_to(intro_pattern(i)@, r@),
{
    let i = random_range(rng, 0, 3);
    let pattern = if i == 0 {
        "Anxious but determined, you begin your quest."
    } else if i == 1 {
        "Welcome to the Cellar. Will you prevail or perish?"
    } else {
        "Dive down, nab the pendant, abscond. Let's do this."
    };
    assert(pattern == intro_pattern(i as int));
    let r = generate(pattern, rng);
    assert(expands_to(intro_pattern(i as int)@, r@));
    r
}

/// What a monster of each kind shouts when it notices the player.
pub open spec fn shout_pattern(kind: Kind) -> &'static str {
    match kind {
        Kind::Kestrel => "The kestrel {screeches|caws|shrieks}!",
        Kind::Skeleton => "The skeleton rattles!",
        Kind::Troll => "The troll {grunts|bellows}!",
        Kind::Android => "The android {{beeps|shouts} at you|sounds an alarm}!",
        Kind::Jelly => "The jelly makes a loud, squishy sound!",
        Kind::Salamander => "The salamander hisses!",
        Kind::TinyUFO => "The tiny UFO bleeps a {brief|frenzied} melody!",
        Kind::Minotaur => "The minotaur {snorts|huffs}!",
        Kind::Glitch => "The glitch emits {a loud sine wave|crashing white noise|jarring beeps}!",
        Kind::Witch => "The witch yells, \"{Hey, you!|Who goes there?!|Die, thief!}\"",
        Kind::Specter => "The dungeon {rattles|shakes|tremors} around the ghost.",
        Kind::Soldier => "The soldier shouts, \"{Halt|Hold it|Freeze}!\"",
        Kind::Attractor => "The attractor sounds a {deep|piercing|mysterious|low} hum.",
        Kind::Turret => "The turret's servos whirr rapidly!",
        Kind::Elf => "(You should never see this.)",
        Kind::GoldenDragon => "The golden dragon blasts {a prismatic|an astral|a luminous} roar!",
    }
}

/// The shout of a monster of `kind`, its alternatives drawn at random.
pub fn shout_line(kind: Kind, rng: &mut StdRng) -> (r: String)
    ensures
        expands_to(shout_pattern(kind)@, r@),
{
    let pattern = match kind {
            Kind::Kestrel => "The kestrel {screeches|caws|shrieks}!",
            Kind::Skeleton => "The skeleton rattles!",
            Kind::Troll => "The troll {grunts|bellows}!",
            Kind::Android => "The android {{beeps|shouts} at you|sounds an alarm}!",
            Kind::Jelly => "The jelly makes a loud, squishy sound!",
            Kind::Salamander => "The salamander hisses!",
            Kind::TinyUFO => "The tiny UFO bleeps a {brief|frenzied} melody!",
            Kind::Minotaur => "The minotaur {snorts|huffs}!",
            Kind::Glitch => "The glitch emits {a loud sine wave|crashing white noise|jarring beeps}!",
            Kind::Witch => "The witch yells, \"{Hey, you!|Who goes there?!|Die, thief!}\"",
            Kind::Specter => "The dungeon {rattles|shakes|tremors} around the ghost.",
            Kind::Soldier => "The soldier shouts, \"{Halt|Hold it|Freeze}!\"",
            Kind::Attractor => "The attractor sounds a {deep|piercing|mysterious|low} hum.",
            Kind::Turret => "The turret's servos whirr rapidly!",
            Kind::Elf => "(You should never see this.)",
            Kind::GoldenDragon => "The golden dragon blasts {a prismatic|an astral|a luminous} roar!",
    };
    generate(pattern, rng)
}

pub open spec fn combat_pattern(kind: Kind) -> &'static str {
    match kind {
        Kind::Kestrel => "The kestrel flutters around.",
        _ => "(more monster combat prose here)",
    }
}

/// What a monster of `kind` does in combat.
pub fn combat_line(kind: Kind, rng: &mut StdRng) -> (r: String)
    ensures
        expands_to(combat_pattern(kind)@, r@),
{
    let pattern = match kind {
        Kind::Kestrel => "The kestrel flutters around.",
        _ => "(more monster combat prose here)",
    };
    generate(pattern, rng)
}

} // verus!
