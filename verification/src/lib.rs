//! Rules of a turn-based Sengoku (warring provinces) strategy game: provinces
//! and their resources, domestic commands, battles and conquest, the order
//! of action within a turn, computer-run warlords, seasonal progression,
//! victory, the action log and the screen transitions of the terminal
//! client.

pub mod value_objects;
pub mod error;
pub mod resource;
pub mod daimyo;
mod random;
pub mod kuni;
pub mod kuni_names;
pub mod battle_service;
pub mod turn_service;
pub mod repository;
pub mod domestic_usecase;
pub mod battle_usecase;
pub mod neighbor_repository;
pub mod query_usecase;
pub mod game_rules;
pub mod game_state;
pub mod action_log;
pub mod cpu_decision;
pub mod turn_progression;
pub mod info_usecase;
pub mod game_lifecycle;
pub mod screen;
pub mod amount_input;
pub mod handler;
pub mod screen_sync;
pub mod laws;
