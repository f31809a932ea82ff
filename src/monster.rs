use rand::rngs::StdRng;
use vstd::prelude::*;
use crate::geometry::Point;
use crate::random::random_range;
use crate::sprite::{Color, Palette, Sprite};

verus! {

/// The sixteen kinds of monster; a kind is stored in four bits.
#[derive(Clone, Copy, Debug, PartialEq, Eq, Structural)]
pub enum Kind {
    Kestrel,
    Skeleton,
    Troll,
    Android,
    Jelly,
    Salamander,
    TinyUFO,
    Minotaur,
    Glitch,
    Witch,
    Specter,
    Soldier,
    Attractor,
    Turret,
    Elf,
    GoldenDragon,
}

/// What is fixed about a kind of monster.
pub struct Info {
    pub name: &'static str,
    pub sprite: Sprite,
    /// The depths, inclusive, at which the kind appears.
    pub habitat: (u8, u8),
    pub max_hp: u8,
}

impl Kind {
    /// The four-bit number of the kind.
    pub open spec fn nibble(self) -> u8 {
        match self {
            Kind::Kestrel => 0,
            Kind::Skeleton => 1,
            Kind::Troll => 2,
            Kind::Android => 3,
            Kind::Jelly => 4,
            Kind::Salamander => 5,
            Kind::TinyUFO => 6,
            Kind::Minotaur => 7,
            Kind::Glitch => 8,
            Kind::Witch => 9,
            Kind::Specter => 10,
            Kind::Soldier => 11,
            Kind::Attractor => 12,
            Kind::Turret => 13,
            Kind::Elf => 14,
            Kind::GoldenDragon => 15,
        }
    }

    pub open spec fn habitat_spec(self) -> (u8, u8) {
        match self {
            Kind::Kestrel => (1, 4),
            Kind::Skeleton => (1, 5),
            Kind::Troll => (2, 6),
            Kind::Android => (3, 7),
            Kind::Jelly => (4, 8),
            Kind::Salamander => (5, 9),
            Kind::TinyUFO => (6, 10),
            Kind::Minotaur => (8, 15),
            Kind::Glitch => (0, 0),
            Kind::Witch => (11, 16),
            Kind::Specter => (13, 19),
            Kind::Soldier => (14, 20),
            Kind::Attractor => (15, 20),
            Kind::Turret => (15, 20),
            Kind::Elf => (1, 0),
            Kind::GoldenDragon => (20, 255),
        }
    }

    pub open spec fn max_hp_spec(self) -> u8 {
        match self {
            Kind::Kestrel => 6,
            Kind::Skeleton => 8,
            Kind::Troll => 20,
            Kind::Android => 15,
            Kind::Jelly => 13,
            Kind::Salamander => 18,
            Kind::TinyUFO => 16,
            Kind::Minotaur => 40,
            Kind::Glitch => 15,
            Kind::Witch => 24,
            Kind::Specter => 35,
            Kind::Soldier => 45,
            Kind::Attractor => 50,
            Kind::Turret => 60,
            Kind::Elf => 40,
            Kind::GoldenDragon => 200,
        }
    }

    pub open spec fn name_spec(self) -> &'static str {
        match self {
            Kind::Kestrel => "kestrel",
            Kind::Skeleton => "skeleton",
            Kind::Troll => "troll",
            Kind::Android => "android",
            Kind::Jelly => "jelly",
            Kind::Salamander => "salamander",
            Kind::TinyUFO => "tiny UFO",
            Kind::Minotaur => "minotaur",
            Kind::Glitch => "glitch",
            Kind::Witch => "witch",
            Kind::Specter => "ghost",
            Kind::Soldier => "soldier",
            Kind::Attractor => "attractor",
            Kind::Turret => "turret",
            Kind::Elf => "elf",
            Kind::GoldenDragon => "golden dragon",
        }
    }

    pub open spec fn sprite_spec(self) -> Sprite {
        match self {
            Kind::Kestrel => Sprite { character: 'K', color: Palette::One(Color::White) },
            Kind::Skeleton => Sprite { character: 'Z', color: Palette::One(Color::Gray) },
            Kind::Troll => Sprite { character: 'T', color: Palette::One(Color::Brown) },
            Kind::Android => Sprite { character: 'A', color: Palette::One(Color::Teal) },
            Kind::Jelly => Sprite { character: 'J', color: Palette::One(Color::Lime) },
            Kind::Salamander => Sprite { character: 'S', color: Palette::One(Color::Red) },
            Kind::TinyUFO => Sprite { character: 'U', color: Palette::One(Color::Aqua) },
            Kind::Minotaur => Sprite { character: 'M', color: Palette::One(Color::Maroon) },
            Kind::Glitch => Sprite { character: 'B', color: Palette::Glitch },
            Kind::Witch => Sprite { character: 'W', color: Palette::One(Color::Purple) },
            Kind::Specter => Sprite { character: 'G', color: Palette::One(Color::Dark) },
            Kind::Soldier => Sprite { character: '@', color: Palette::One(Color::Blue) },
            Kind::Attractor => Sprite { character: '8', color: Palette::One(Color::Teal) },
            Kind::Turret => Sprite { character: '9', color: Palette::One(Color::Dark) },
            Kind::Elf => Sprite { character: 'E', color: Palette::One(Color::Lime) },
            Kind::GoldenDragon => Sprite { character: 'D', color: Palette::Gold },
        }
    }

    pub fn to_nibble(self) -> (r: u8)
        ensures
            r == self.nibble(),
            r < 16,
    {
        match self {
            Kind::Kestrel => 0,
            Kind::Skeleton => 1,
            Kind::Troll => 2,
            Kind::Android => 3,
            Kind::Jelly => 4,
            Kind::Salamander => 5,
            Kind::TinyUFO => 6,
            Kind::Minotaur => 7,
            Kind::Glitch => 8,
            Kind::Witch => 9,
            Kind::Specter => 10,
            Kind::Soldier => 11,
            Kind::Attractor => 12,
            Kind::Turret => 13,
            Kind::Elf => 14,
            Kind::GoldenDragon => 15,
        }
    }

    pub fn from_nibble(n: u8) -> (r: Kind)
        requires
            n < 16,
        ensures
            r.nibble() == n,
    {
        match n {
            0 => Kind::Kestrel,
            1 => Kind::Skeleton,
            2 => Kind::Troll,
            3 => Kind::Android,
            4 => Kind::Jelly,
            5 => Kind::Salamander,
            6 => Kind::TinyUFO,
            7 => Kind::Minotaur,
            8 => Kind::Glitch,
            9 => Kind::Witch,
            10 => Kind::Specter,
            11 => Kind::Soldier,
            12 => Kind::Attractor,
            13 => Kind::Turret,
            14 => Kind::Elf,
            _ => Kind::GoldenDragon,
        }
    }

    pub fn info(self) -> (r: Info)
        ensures
            r.habitat == self.habitat_spec(),
            r.max_hp == self.max_hp_spec(),
            r.name == self.name_spec(),
            r.sprite == self.sprite_spec(),
    {
        match self {
            Kind::Kestrel => Info {
                name: "kestrel",
                sprite: Sprite { character: 'K', color: Palette::One(Color::White) },
                habitat: (1, 4),
                max_hp: 6,
            },
            Kind::Skeleton => Info {
                name: "skeleton",
                sprite: Sprite { character: 'Z', color: Palette::One(Color::Gray) },
                habitat: (1, 5),
                max_hp: 8,
            },
            Kind::Troll => Info {
                name: "troll",
                sprite: Sprite { character: 'T', color: Palette::One(Color::Brown) },
                habitat: (2, 6),
                max_hp: 20,
            },
            Kind::Android => Info {
                name: "android",
                sprite: Sprite { character: 'A', color: Palette::One(Color::Teal) },
                habitat: (3, 7),
                max_hp: 15,
            },
            Kind::Jelly => Info {
                name: "jelly",
                sprite: Sprite { character: 'J', color: Palette::One(Color::Lime) },
                habitat: (4, 8),
                max_hp: 13,
            },
            Kind::Salamander => Info {
                name: "salamander",
                sprite: Sprite { character: 'S', color: Palette::One(Color::Red) },
                habitat: (5, 9),
                max_hp: 18,
            },
            Kind::TinyUFO => Info {
                name: "tiny UFO",
                sprite: Sprite { character: 'U', color: Palette::One(Color::Aqua) },
                habitat: (6, 10),
                max_hp: 16,
            },
            Kind::Minotaur => Info {
                name: "minotaur",
                sprite: Sprite { character: 'M', color: Palette::One(Color::Maroon) },
                habitat: (8, 15),
                max_hp: 40,
            },
            Kind::Glitch => Info {
                name: "glitch",
                sprite: Sprite { character: 'B', color: Palette::Glitch },
                habitat: (0, 0),
                max_hp: 15,
            },
            Kind::Witch => Info {
                name: "witch",
                sprite: Sprite { character: 'W', color: Palette::One(Color::Purple) },
                habitat: (11, 16),
                max_hp: 24,
            },
            Kind::Specter => Info {
                name: "ghost",
                sprite: Sprite { character: 'G', color: Palette::One(Color::Dark) },
                habitat: (13, 19),
                max_hp: 35,
            },
            Kind::Soldier => Info {
                name: "soldier",
                sprite: Sprite { character: '@', color: Palette::One(Color::Blue) },
                habitat: (14, 20),
                max_hp: 45,
            },
            Kind::Attractor => Info {
                name: "attractor",
                sprite: Sprite { character: '8', color: Palette::One(Color::Teal) },
                habitat: (15, 20),
                max_hp: 50,
            },
            Kind::Turret => Info {
                name: "turret",
                sprite: Sprite { character: '9', color: Palette::One(Color::Dark) },
                habitat: (15, 20),
                max_hp: 60,
            },
            Kind::Elf => Info {
                name: "elf",
                sprite: Sprite { character: 'E', color: Palette::One(Color::Lime) },
                habitat: (1, 0),
                max_hp: 40,
            },
            Kind::GoldenDragon => Info {
                name: "golden dragon",
                sprite: Sprite { character: 'D', color: Palette::Gold },
                habitat: (20, 255),
                max_hp: 200,
            },
        }
    }
}

/// Distinct kinds have distinct numbers.
pub proof fn lemma_nibble_injective(a: Kind, b: Kind)
    requires
        a.nibble() == b.nibble(),
    ensures
        a == b,
{
}

/// Whether a kind of monster appears at `depth`.
pub open spec fn habitable_spec(kind: Kind, depth: u8) -> bool {
    kind.habitat_spec().0 <= depth <= kind.habitat_spec().1
}

pub fn habitable(info: &Info, depth: u8) -> (r: bool)
    ensures
        r == (info.habitat.0 <= depth <= info.habitat.1),
{
    let (low, high) = info.habitat;
    low <= depth && depth <= high
}

/// Whether a monster has noticed the player.
#[derive(Clone, Copy, Debug, PartialEq, Eq, Structural)]
pub enum Alert {
    Dormant,
    Alerted,
}

/// One monster slot of a level; a slot with no hit points is empty.
#[derive(Clone, Copy, Debug, PartialEq, Eq, Structural)]
pub struct Monster {
    pub kind: Kind,
    /// Deals double damage.
    pub charged: bool,
    /// Has no defense.
    pub vulnerable: bool,
    /// Poisons.
    pub venomous: bool,
    /// Deals double damage and flips bits.
    pub corrupted: bool,
    pub position: Point,
    pub hp: u8,
    pub alert: Alert,
}

impl Monster {
    /// A fresh monster of `kind` at `position`: full hit points, no status, dormant.
    pub open spec fn fresh(kind: Kind, position: Point) -> Monster {
        Monster {
            kind,
            charged: false,
            vulnerable: false,
            venomous: false,
            corrupted: false,
            position,
            hp: kind.max_hp_spec(),
            alert: Alert::Dormant,
        }
    }

    /// The empty slot.
    pub fn null() -> (r: Monster)
        ensures
            r == (Monster {
                kind: Kind::Kestrel,
                charged: false,
                vulnerable: false,
                venomous: false,
                corrupted: false,
                position: Point(0, 0),
                hp: 0,
                alert: Alert::Dormant,
            }),
    {
        Monster {
            kind: Kind::Kestrel,
            charged: false,
            vulnerable: false,
            venomous: false,
            corrupted: false,
            position: Point::of_byte(0),
            hp: 0,
            alert: Alert::Dormant,
        }
    }

    /// A monster for `depth`: its kind drawn among those whose habitat holds the depth.
    pub fn generate(depth: u8, position: Point, rng: &mut StdRng) -> (r: Monster)
        ensures
            habitable_spec(r.kind, depth),
            r == Monster::fresh(r.kind, position),
    {
        let mut kinds: Vec<Kind> = Vec::new();
        let mut n: u8 = 0;
        while n < 16
            invariant
                n <= 16,
                forall|i: int| 0 <= i < kinds@.len() ==> habitable_spec(#[trigger] kinds@[i], depth),
                forall|k: Kind| k.nibble() < n && habitable_spec(k, depth) ==> kinds@.contains(k),
            decreases 16 - n,
        {
            let kind = Kind::from_nibble(n);
            let ghost before = kinds@;
            if habitable(&kind.info(), depth) {
                kinds.push(kind);
                assert(kinds@.last() == kind);
            }
            proof {
                assert forall|k: Kind| k.nibble() <= n && habitable_spec(k, depth) implies kinds@.contains(k) by {
                    if k.nibble() == n {
                        lemma_nibble_injective(k, kind);
                    } else {
                        assert(before.contains(k));
                        let j = choose|j: int| 0 <= j < before.len() && before[j] == k;
                        assert(kinds@[j] == k);
                    }
                }
            }
            n = n + 1;
        }
        proof {
            let witness = if depth == 0 {
                Kind::Glitch
            } else if depth <= 4 {
                Kind::Kestrel
            } else if depth <= 9 {
                Kind::Salamander
            } else if depth <= 15 {
                Kind::Minotaur
            } else if depth <= 20 {
                Kind::Soldier
            } else {
                Kind::GoldenDragon
            };
            assert(habitable_spec(witness, depth));
            assert(kinds@.contains(witness));
        }
        let kind = kinds[random_range(&mut *rng, 0, kinds.len())];
        Monster {
            kind,
            charged: false,
            vulnerable: false,
            venomous: false,
            corrupted: false,
            position,
            hp: kind.info().max_hp,
            alert: Alert::Dormant,
        }
    }

    pub fn sprite(&self) -> (r: Sprite)
        ensures
            r == self.kind.sprite_spec(),
    {
        self.kind.info().sprite
    }

    pub fn name(&self) -> (r: &'static str)
        ensures
            r == self.kind.name_spec(),
    {
        self.kind.info().name
    }

    pub open spec fn alive_spec(self) -> bool {
        self.hp > 0
    }

    pub fn alive(&self) -> (r: bool)
        ensures
            r == self.alive_spec(),
    {
        self.hp > 0
    }
}

} // verus!
