//! A declarative UI composition and styling library for a top-down 2D action
//! game, together with the game's own rules.
//!
//! The heart of the crate is the styling framework: utility-class style atoms
//! (`stylesheet`, `atoms`), ordered class lists resolved once per interaction
//! state into immutable style snapshots, a declarative element tree
//! (`elements`) lowered into a live entity graph (`world`), and the per-frame
//! reactive systems that swap snapshots and dispatch clicks.  Around it stand
//! the game rules the screens display: rooms, walls, doors, the player,
//! the inventory and the items it fires.
//!
//! Everything the host engine owns (rendering, physics, input devices,
//! scheduling) stays outside; the library works on plain values and hands
//! plain values back.

pub mod atoms;
pub mod casual_bullet_item;
pub mod console_item;
pub mod constants;
pub mod debug_overlay;
pub mod doors;
pub mod dungeon;
pub mod elements;
pub mod input;
pub mod interact;
pub mod inventory;
pub mod items;
pub mod main_menu;
pub mod math;
pub mod pause_menu;
pub mod player;
pub mod player_overlay;
pub mod rooms;
pub mod stylesheet;
pub mod walls;
pub mod world;
