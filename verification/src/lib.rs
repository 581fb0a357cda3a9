//! A text adventure on a rectangular grid of rooms: the world, the player,
//! and the interpreter that turns one line of input into one step of play.

pub mod command;
pub mod game;
pub mod inventory_item;
pub mod location;
pub mod npc;
pub mod player;
pub mod room;
pub mod scan;
pub mod text;
pub mod world_map;
