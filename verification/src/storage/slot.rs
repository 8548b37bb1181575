//! Decisions of a save slot: the names of its files, when history is kept, when an earlier
//! save is imported, and the messages of its errors.

use vstd::prelude::*;
use vstd::string::StringExecFns;

use super::codec::{LoadError, SaveCodecError};
use super::validation::state::{state_fault, valid_game, validate_game_state};
use crate::model::facts::SimulationFacts;
use crate::model::state::GameState;
use crate::text::{decimal, decimal_text, same_text};

verus! {

/// Why a save slot could not be used. Paths and the messages of outside errors are texts.
#[derive(Clone, Debug, PartialEq, Eq)]
pub enum SaveSlotError {
    InvalidPath { path: String },
    AlreadyOwned { path: String },
    Io { action: &'static str, path: String, source: String },
    Database { action: &'static str, path: String, source: String },
    InvalidSave { path: String, source: SaveCodecError },
}

impl SaveSlotError {
    /// The message shown to the player.
    pub open spec fn text(self) -> Seq<char> {
        match self {
            SaveSlotError::InvalidPath { path } => "save path "@ + path@ + " has no file name"@,
            SaveSlotError::AlreadyOwned { path } => "save slot "@ + path@ + " is already owned"@,
            SaveSlotError::Io { action, path, source } => "could not "@ + action@ + " "@ + path@
                + ": "@ + source@,
            SaveSlotError::Database { action, path, source } => "could not "@ + action@
                + " SQLite save "@ + path@ + ": "@ + source@,
            SaveSlotError::InvalidSave { path, source } => "save "@ + path@
                + " is invalid and was preserved: "@ + source.text(),
        }
    }

    pub fn message(&self) -> (result: String)
        ensures
            result@ == self.text(),
    {
        match self {
            SaveSlotError::InvalidPath { path } => "save path ".to_owned().concat(
                path.as_str(),
            ).concat(" has no file name"),
            SaveSlotError::AlreadyOwned { path } => "save slot ".to_owned().concat(
                path.as_str(),
            ).concat(" is already owned"),
            SaveSlotError::Io { action, path, source } => "could not ".to_owned().concat(
                action,
            ).concat(" ").concat(path.as_str()).concat(": ").concat(source.as_str()),
            SaveSlotError::Database { action, path, source } => "could not ".to_owned().concat(
                action,
            ).concat(" SQLite save ").concat(path.as_str()).concat(": ").concat(source.as_str()),
            SaveSlotError::InvalidSave { path, source } => {
                let reason = source.message();
                "save ".to_owned().concat(path.as_str()).concat(
                    " is invalid and was preserved: ",
                ).concat(reason.as_str())
            },
        }
    }
}

/// What a slot reports where its tables hold no game: a row that cannot be decoded is a
/// failure of the database, everything else an invalid save.
pub open spec fn load_reported(error: LoadError, path: Seq<char>, reported: SaveSlotError) -> bool {
    match error {
        LoadError::Row { action, field } => reported matches SaveSlotError::Database {
            action: doing,
            path: shown,
            source,
        } && doing == action && shown@ == path && source@ == "invalid SQLite value for "@ + field@,
        LoadError::Save(reason) => reported matches SaveSlotError::InvalidSave {
            path: shown,
            source,
        } && shown@ == path && source == reason,
    }
}

pub fn load_error(error: LoadError, path: &str) -> (result: SaveSlotError)
    ensures
        load_reported(error, path@, result),
{
    match error {
        LoadError::Row { action, field } => SaveSlotError::Database {
            action,
            path: path.to_owned(),
            source: "invalid SQLite value for ".to_owned().concat(field),
        },
        LoadError::Save(source) => SaveSlotError::InvalidSave { path: path.to_owned(), source },
    }
}

/// The name of the lock file beside a save.
pub fn sidecar_lock_name(file_name: &str) -> (result: String)
    ensures
        result@ == file_name@ + ".lock"@,
{
    file_name.to_owned().concat(".lock")
}

/// The name of a backup made before a restart.
pub open spec fn backup_name(file_name: Seq<char>, process: nat, sequence: nat) -> Seq<char> {
    file_name + ".bankrupt-backup-"@ + decimal(process) + "."@ + decimal(sequence) + ".db"@
}

pub fn archive_name(file_name: &str, process: u32, sequence: u64) -> (result: String)
    ensures
        result@ == backup_name(file_name@, process as nat, sequence as nat),
{
    let process_text = decimal_text(process as u64);
    let sequence_text = decimal_text(sequence);
    file_name.to_owned().concat(".bankrupt-backup-").concat(process_text.as_str()).concat(
        ".",
    ).concat(sequence_text.as_str()).concat(".db")
}

/// How often a unique backup name is tried.
pub const BACKUP_ATTEMPTS: u32 = 128;

/// Whether a database holds a game of the same world.
pub open spec fn keeps_history(existing_world_seed: Option<String>, world_seed: u64) -> bool {
    existing_world_seed is Some && existing_world_seed->0@ == decimal(
        world_seed as nat,
    )
}

/// Whether the receipts of a database are kept when a game is written to it: only where the
/// database already holds a game of the same world.
pub fn preserves_receipt_history(existing_world_seed: &Option<String>, world_seed: u64) -> (result:
    bool)
    ensures
        result == keeps_history(*existing_world_seed, world_seed),
{
    match existing_world_seed {
        Some(existing) => {
            let current = decimal_text(world_seed);
            same_text(existing.as_str(), current.as_str())
        },
        None => false,
    }
}

/// Whether only a save in the first format is there.
pub open spec fn imports(database_existed: bool, legacy_exists: bool) -> bool {
    !database_existed && legacy_exists
}

/// Whether opening the default slot imports a save in the first format: only where there was
/// no database and such a save exists.
pub fn imports_legacy_save(database_existed: bool, legacy_exists: bool) -> (result: bool)
    ensures
        result == imports(database_existed, legacy_exists),
{
    !database_existed && legacy_exists
}

/// Accepts a game that a slot loaded or is about to save, if it is valid.
pub fn accept_game(state: &GameState, facts: &SimulationFacts) -> (result: Result<
    (),
    SaveCodecError,
>)
    ensures
        match result {
            Ok(()) => valid_game(*state, *facts),
            Err(error) => state_fault(*state, *facts) is Some && error
                == SaveCodecError::InvalidState(state_fault(*state, *facts)->0),
        },
{
    match validate_game_state(state, facts) {
        Ok(()) => Ok(()),
        Err(error) => Err(SaveCodecError::InvalidState(error)),
    }
}

} // verus!
