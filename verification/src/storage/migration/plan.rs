//! Which step a save's schema needs next.

use vstd::prelude::*;

use crate::storage::codec::SaveCodecError;

verus! {

/// The schema version that this version writes.
pub const SAVE_VERSION: u32 = 40;

/// What a save's schema needs before the save can be used.
#[derive(Clone, Copy, Debug, PartialEq, Eq, Structural)]
pub enum SchemaStep {
    /// An empty database: create the schema.
    Create,
    /// The current schema: make sure that all of it is there.
    Verify,
    /// An earlier schema: upgrade it by one version.
    Upgrade { from: u32 },
}

pub open spec fn step_for(version: u32) -> SchemaStep {
    if version == 0 {
        SchemaStep::Create
    } else if version == SAVE_VERSION {
        SchemaStep::Verify
    } else {
        SchemaStep::Upgrade { from: version }
    }
}

/// Decides what the schema of a found version needs; a later version is refused.
pub fn schema_step(version: u32) -> (result: Result<SchemaStep, SaveCodecError>)
    ensures
        match result {
            Ok(step) => version <= SAVE_VERSION && step == step_for(version),
            Err(error) => version > SAVE_VERSION && error == (SaveCodecError::UnsupportedVersion {
                found: version,
            }),
        },
{
    if version == 0 {
        return Ok(SchemaStep::Create);
    }
    if version > SAVE_VERSION {
        return Err(SaveCodecError::UnsupportedVersion { found: version });
    }
    if version == SAVE_VERSION {
        return Ok(SchemaStep::Verify);
    }
    Ok(SchemaStep::Upgrade { from: version })
}

/// The version that a schema has after so many upgrades by one version.
pub open spec fn upgraded(version: u32, steps: nat) -> int
    decreases steps,
{
    if steps == 0 {
        version as int
    } else {
        upgraded(version, (steps - 1) as nat) + 1
    }
}

proof fn lemma_upgraded(version: u32, steps: nat)
    ensures
        upgraded(version, steps) == version + steps,
    decreases steps,
{
    if steps > 0 {
        lemma_upgraded(version, (steps - 1) as nat);
    }
}

/// Upgrading an earlier save version by version ends at the current schema, and every
/// version on the way needs a further upgrade.
pub proof fn upgrades_end_at_the_current_schema(version: u32, steps: nat)
    requires
        0 < version <= SAVE_VERSION,
        steps <= SAVE_VERSION - version,
    ensures
        steps < SAVE_VERSION - version ==> step_for(upgraded(version, steps) as u32)
            is Upgrade,
        steps == SAVE_VERSION - version ==> step_for(upgraded(version, steps) as u32)
            == SchemaStep::Verify,
{
    lemma_upgraded(version, steps);
}

} // verus!
