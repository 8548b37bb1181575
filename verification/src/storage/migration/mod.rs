//! Upgrades of saves that earlier versions wrote.

pub mod amounts;
pub mod laws;
pub mod plan;
pub mod services;
pub mod vehicles;
