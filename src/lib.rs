pub mod byte;
pub mod dungeon;
pub mod fov;
pub mod geometry;
pub mod grid;
pub mod item;
pub mod level;
pub mod log;
pub mod memory;
pub mod monster;
pub mod names;
pub mod player;
pub mod random;
pub mod scheme;
pub mod speech;
pub mod spell;
pub mod sprite;
pub mod tile;
pub mod turns;
pub mod world;
