//! A gravity-drop board game for two teams and a token-bucket admission
//! controller, with the rules of both stated as contracts, and the smaller
//! rules of the service that is built around them.

pub mod address;
pub mod admission;
pub mod board;
pub mod decor;
pub mod game;
pub mod gift;
pub mod manifest;
pub mod milk;
pub mod play;
pub mod render;
pub mod text;
