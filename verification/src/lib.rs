//! Quest Log: daily quests earn experience points (EXP), weekly goals unlock
//! rewards. This library holds the rules of the game and the pure parts of
//! the web application; the server itself lives in the application crate.

pub mod text;
pub mod dates;
pub mod models;
pub mod rewards;
pub mod errors;
pub mod stats;
pub mod day_view;
pub mod auth;
pub mod editor;
pub mod upload;
pub mod session;
pub mod config;
pub mod timezone;
pub mod clock;
pub mod tui;
pub mod samples;
