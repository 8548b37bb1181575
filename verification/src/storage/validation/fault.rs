//! Why a saved game is refused, and the identity checks that every collection shares.

use vstd::prelude::*;
use vstd::string::StringExecFns;

use crate::model::ids::{is_version_four, version_four};
use crate::model::units::CalculationError;

verus! {

/// Why a decoded game cannot safely enter the simulation.
#[derive(Clone, Copy, Debug, PartialEq, Eq)]
pub enum SaveValidationError {
    /// An ID is duplicated within the collection that owns it.
    DuplicateId { kind: &'static str },
    /// An ID is reserved or otherwise not valid for a persisted entity.
    InvalidId { kind: &'static str },
    /// A value is outside the valid domain for a saved game.
    InvalidValue { field: &'static str },
    /// A reference does not resolve within this game state.
    DanglingReference { field: &'static str },
    /// Fields that must agree describe an impossible operating state.
    ImpossibleState { reason: &'static str },
    /// A derived value cannot be calculated in its storage unit.
    Calculation(CalculationError),
}

impl SaveValidationError {
    /// The message shown to the player.
    pub open spec fn text(self) -> Seq<char> {
        match self {
            SaveValidationError::DuplicateId { kind } => "duplicate "@ + kind@ + " ID"@,
            SaveValidationError::InvalidId { kind } => "invalid "@ + kind@ + " ID"@,
            SaveValidationError::InvalidValue { field } => "invalid saved value for "@ + field@,
            SaveValidationError::DanglingReference { field } => "saved "@ + field@
                + " references an entity that does not exist"@,
            SaveValidationError::ImpossibleState { reason } => "impossible saved state: "@ + reason@,
            SaveValidationError::Calculation(error) => error.text(),
        }
    }

    pub fn message(&self) -> (result: String)
        ensures
            result@ == self.text(),
    {
        match self {
            SaveValidationError::DuplicateId { kind } => "duplicate ".to_owned().concat(
                kind,
            ).concat(" ID"),
            SaveValidationError::InvalidId { kind } => "invalid ".to_owned().concat(kind).concat(
                " ID",
            ),
            SaveValidationError::InvalidValue { field } => "invalid saved value for ".to_owned().concat(
            field),
            SaveValidationError::DanglingReference { field } => "saved ".to_owned().concat(
                field,
            ).concat(" references an entity that does not exist"),
            SaveValidationError::ImpossibleState { reason } => "impossible saved state: ".to_owned().concat(
            reason),
            SaveValidationError::Calculation(error) => error.message(),
        }
    }
}

/// The outcome of a check that found this fault, or none.
pub open spec fn outcome(fault: Option<SaveValidationError>) -> Result<(), SaveValidationError> {
    match fault {
        Some(error) => Err(error),
        None => Ok(()),
    }
}

pub open spec fn invalid_value(field: &'static str) -> Option<SaveValidationError> {
    Some(SaveValidationError::InvalidValue { field })
}

pub open spec fn dangling(field: &'static str) -> Option<SaveValidationError> {
    Some(SaveValidationError::DanglingReference { field })
}

pub open spec fn impossible(reason: &'static str) -> Option<SaveValidationError> {
    Some(SaveValidationError::ImpossibleState { reason })
}

/// Whether some identity occurs twice.
pub open spec fn repeats(values: Seq<u128>) -> bool {
    exists|i: int, j: int| 0 <= i < j < values.len() && #[trigger] values[i] == #[trigger] values[j]
}

pub open spec fn all_version_four(values: Seq<u128>) -> bool {
    forall|i: int| 0 <= i < values.len() ==> is_version_four(#[trigger] values[i])
}

/// What is wrong with the identities of a collection.
pub open spec fn identity_fault(values: Seq<u128>, kind: &'static str) -> Option<
    SaveValidationError,
> {
    if repeats(values) {
        Some(SaveValidationError::DuplicateId { kind })
    } else if !all_version_four(values) {
        Some(SaveValidationError::InvalidId { kind })
    } else {
        None
    }
}

/// Whether some identity occurs twice.
pub fn has_repeat(values: &Vec<u128>) -> (result: bool)
    ensures
        result == repeats(values@),
{
    let mut i: usize = 0;
    while i < values.len()
        invariant
            i <= values.len(),
            forall|a: int, b: int| 0 <= a < b < i ==> #[trigger] values@[a] != #[trigger] values@[b],
        decreases values.len() - i,
    {
        let mut j: usize = 0;
        while j < i
            invariant
                j <= i < values.len(),
                forall|a: int| 0 <= a < j ==> #[trigger] values@[a] != values@[i as int],
            decreases i - j,
        {
            if values[j] == values[i] {
                assert(values@[j as int] == values@[i as int]);
                return true;
            }
            j += 1;
        }
        i += 1;
    }
    false
}

/// Checks the identities of a collection.
pub fn check_identities(values: &Vec<u128>, kind: &'static str) -> (result: Result<
    (),
    SaveValidationError,
>)
    ensures
        result == outcome(identity_fault(values@, kind)),
{
    if has_repeat(values) {
        return Err(SaveValidationError::DuplicateId { kind });
    }
    let mut i: usize = 0;
    while i < values.len()
        invariant
            i <= values.len(),
            !repeats(values@),
            forall|j: int| 0 <= j < i ==> is_version_four(#[trigger] values@[j]),
        decreases values.len() - i,
    {
        if !version_four(values[i]) {
            assert(!is_version_four(values@[i as int]));
            return Err(SaveValidationError::InvalidId { kind });
        }
        i += 1;
    }
    Ok(())
}

} // verus!
