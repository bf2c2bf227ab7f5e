//! Verified core logic of the Devil May Cry 3 Archipelago randomizer client.
pub mod atlas;
pub mod bank;
pub mod cache;
pub mod config;
pub mod connection;
pub mod constants;
pub mod game_manager;
pub mod game_structs;
pub mod hint;
pub mod hooks;
pub mod item_map;
pub mod location;
pub mod mapping;
pub mod receive;
pub mod skill_manager;
pub mod store;
pub mod strings;
pub mod sync;
pub mod tables;
pub mod tracker;
pub mod ui;
