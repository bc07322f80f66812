//! Decision logic of a bot for a two-player strategy game: a registry of
//! building sites, the hero's retreat, build and training decisions of one
//! turn, and the text of the commands that carry them out.

pub mod codes;
pub mod geometry;
pub mod search;
pub mod site;
pub mod registry;
pub mod command;
pub mod unit;
pub mod resource_manager;
pub mod manager;
pub mod protocol;
