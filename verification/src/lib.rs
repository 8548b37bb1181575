//! RailQ: the verified core of a small terminal railway game.

pub mod model;
pub mod storage;
pub mod text;
pub mod ui;
