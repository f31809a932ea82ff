use vstd::prelude::*;
use crate::dungeon::{Dungeon, LEVEL_COUNT};
use crate::item::AppearanceMap;
use crate::log::Log;
use crate::player::Player;
use crate::item::random_appearance_map;
use rand::rngs::StdRng;

verus! {

/// Everything the game knows.
pub struct World {
    pub dungeon: Dungeon,
    pub player: Player,
    pub item_appearance_map: AppearanceMap,
    pub player_appearance_byte: u8,
    pub door_appearance_byte: u8,
    pub wall_appearance_byte: u8,
    pub log: Log,
}

impl World {
    pub open spec fn wf(&self) -> bool {
        &&& self.dungeon@.len() == LEVEL_COUNT
        &&& forall|i: int| 0 <= i < self.dungeon@.len() ==> (#[trigger] self.dungeon@[i]).wf()
        &&& self.player.position.encodable()
        &&& self.player.visible.wf()
    }

    /// The world at the start of a game in `dungeon`: the player on the up
    /// staircase of the first level, white `@`, brown `+` doors, teal `#` walls.
    pub fn new(dungeon: Dungeon, rng: &mut StdRng) -> (r: World)
        requires
            dungeon@.len() == LEVEL_COUNT,
            forall|i: int| 0 <= i < dungeon@.len() ==> (#[trigger] dungeon@[i]).wf(),
        ensures
            r.wf(),
            r.player.depth == 1,
            r.player_appearance_byte == 0b11111111,
            r.door_appearance_byte == 0b11001010,
            r.wall_appearance_byte == 0b01100010,
    {
        let mut dungeon = dungeon;
        let mut log = Log::new();
        let player = Player::new(&mut log, &mut dungeon, rng);
        World {
            player,
            dungeon,
            item_appearance_map: random_appearance_map(rng),
            player_appearance_byte: 0b11111111,
            door_appearance_byte: 0b11001010,
            wall_appearance_byte: 0b01100010,
            log,
        }
    }
}

} // verus!
