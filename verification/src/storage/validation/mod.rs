//! Validation of reconstructed or imported game state before it enters the simulation.

pub mod fault;
pub mod journeys;
pub mod laws;
pub mod network;
pub mod projects;
pub mod reasons;
pub mod sameness;
pub mod services;
pub mod state;
