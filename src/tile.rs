use vstd::prelude::*;
use crate::byte::{get, BitNumber};
use crate::sprite::{byte_sprite, Color, Palette, Sprite};
use crate::world::World;
use crate::player::Player;

verus! {

#[derive(Clone, Copy, Debug, PartialEq, Eq, Structural)]
pub enum Stairs {
    Up,
    Down,
}

/// What stands on one cell of a level.
#[derive(Clone, Copy, Debug, PartialEq, Eq, Structural)]
pub enum Tile {
    Floor,
    Wall,
    Door,
    Doorway,
    Stairs(Stairs),
    Switch(BitNumber),
}

impl Tile {
    /// Floor, doorways and stairs can be walked on and seen through.
    pub open spec fn open_spec(self) -> bool {
        match self {
            Tile::Floor | Tile::Doorway | Tile::Stairs(_) => true,
            Tile::Wall | Tile::Door | Tile::Switch(_) => false,
        }
    }

    pub fn is_open(self) -> (r: bool)
        ensures
            r == self.open_spec(),
    {
        match self {
            Tile::Floor | Tile::Doorway | Tile::Stairs(_) => true,
            Tile::Wall | Tile::Door | Tile::Switch(_) => false,
        }
    }

    /// How the tile shows: walls and doors as the world's appearance bytes say,
    /// a switch yellow when its bit of the selected address is set, navy if not.
    pub open spec fn sprite_spec(self, wall: u8, door: u8, selected: u8) -> Sprite {
        match self {
            Tile::Floor => Sprite { character: '.', color: Palette::One(Color::Gray) },
            Tile::Wall => byte_sprite(wall, false),
            Tile::Door => byte_sprite(door, false),
            Tile::Doorway => Sprite { character: '\'', color: Palette::One(Color::Brown) },
            Tile::Stairs(Stairs::Up) => Sprite { character: '<', color: Palette::One(Color::White) },
            Tile::Stairs(Stairs::Down) => Sprite { character: '>', color: Palette::One(Color::White) },
            Tile::Switch(bn) => Sprite {
                character: (48 + bn.index()) as char,
                color: Palette::One(
                    if selected & bn.mask_spec() != 0 {
                        Color::Yellow
                    } else {
                        Color::Navy
                    },
                ),
            },
        }
    }

    pub fn sprite(self, world: &World) -> (r: Sprite)
        ensures
            r == self.sprite_spec(
                world.wall_appearance_byte,
                world.door_appearance_byte,
                world.player.selected,
            ),
    {
        match self {
            Tile::Floor => Sprite { character: '.', color: Palette::One(Color::Gray) },
            Tile::Wall => Sprite::of_byte(world.wall_appearance_byte, false),
            Tile::Door => Sprite::of_byte(world.door_appearance_byte, false),
            Tile::Doorway => Sprite { character: '\'', color: Palette::One(Color::Brown) },
            Tile::Stairs(Stairs::Up) => Sprite { character: '<', color: Palette::One(Color::White) },
            Tile::Stairs(Stairs::Down) => Sprite { character: '>', color: Palette::One(Color::White) },
            Tile::Switch(bn) => {
                let on = get(world.player.selected, bn);
                Sprite {
                    character: bn.char(),
                    color: Palette::One(
                        if on {
                            Color::Yellow
                        } else {
                            Color::Navy
                        },
                    ),
                }
            },
        }
    }

    pub fn permits_sight(self) -> (r: bool)
        ensures
            r == self.open_spec(),
    {
        self.is_open()
    }
}

impl Stairs {
    /// The depth reached by these stairs from `depth` with the given stairs delta
    /// (wrapping modulo 256).
    pub open spec fn destination_spec(self, depth: u8, delta: u8) -> u8 {
        match self {
            Stairs::Up => ((depth - delta) % 256) as u8,
            Stairs::Down => ((depth + delta) % 256) as u8,
        }
    }

    /// Where these stairs take `player`: the depth moved by the stairs delta.
    pub fn destination(self, player: &Player) -> (r: u8)
        ensures
            r == self.destination_spec(player.depth, player.stairs_delta),
    {
        match self {
            Stairs::Up => player.depth.wrapping_sub(player.stairs_delta),
            Stairs::Down => player.depth.wrapping_add(player.stairs_delta),
        }
    }

    pub fn flip(self) -> (r: Stairs)
        ensures
            r != self,
    {
        match self {
            Stairs::Up => Stairs::Down,
            Stairs::Down => Stairs::Up,
        }
    }
}

} // verus!
