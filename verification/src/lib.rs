//! Decoding, validation and request planning for game-boosting orders.

pub mod api;
pub mod cli;
pub mod constants;
pub mod display;
pub mod heroes;
pub mod json;
pub mod models;
pub mod parser;
pub mod utils;
