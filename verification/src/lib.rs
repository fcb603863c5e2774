pub mod action_tickets;
pub mod commands;
pub mod config;
pub mod patrol;
pub mod progress;
pub mod rules;
pub mod shared;
pub mod storage;
pub mod text;
pub mod usage;
pub mod win;
