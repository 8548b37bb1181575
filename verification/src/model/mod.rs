//! The game's domain model: identities, units, the Rail Network, the Rail
//! Authority's programme, the Player Company and the whole saved state.

pub mod catalogue;
pub mod company;
pub mod facts;
pub mod identity;
pub mod ids;
pub mod laws;
pub mod network;
pub mod project;
pub mod state;
pub mod units;
