//! Verified game rules of the L2R game server: inventories and item stacks,
//! soulshot/spiritshot charging, chat flood protection and chat logging,
//! chat commands, scripting repository keys, doors, encounters and the
//! small state machines that drive the server's loading and database states.

pub mod text;
pub mod cooldown;
pub mod chat;
pub mod items;
pub mod inventory;
pub mod shots;
pub mod repo;
pub mod commands;
pub mod world;
pub mod characters;
pub mod gui;
