//! Saved games: validation, the stored tables, migrations and save slots.

pub mod codec;
pub mod laws;
pub mod legacy;
pub mod legacy_laws;
pub mod migration;
pub mod slot;
pub mod tables;
pub mod validation;
