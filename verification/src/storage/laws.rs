//! What a save slot does with games and with failures, whatever they are.

use vstd::prelude::*;

use super::codec::{LoadError, SaveCodecError};
use super::slot::{backup_name, imports, keeps_history, load_reported, SaveSlotError};
use super::tables::operations::{journey_overflow, journeys_overflow};
use super::tables::projects::planned_lines;
use super::tables::state::state_overflow;
use crate::model::company::Journey;
use crate::model::state::GameState;
use crate::text::decimal;

verus! {

proof fn lemma_journeys(journeys: Seq<Journey>, count: int)
    requires
        0 <= count <= journeys.len(),
    ensures
        journeys_overflow(journeys, count) is None <==> forall|i: int|
            0 <= i < count ==> journey_overflow(#[trigger] journeys[i]) is None,
    decreases count,
{
    if count > 0 {
        lemma_journeys(journeys, count - 1);
    }
}

/// A game is saved exactly if its numbers fit the database: nothing else keeps it from being
/// saved.
pub proof fn games_that_fit_are_saved(state: GameState)
    ensures
        state_overflow(state) is None <==> {
            let region = state.region;
            let lines = region.rail_authority.rail_network.rail_lines@;
            let projects = region.rail_authority.infrastructure_projects@;
            let demand = state.origin_destination_demand@;
            let journeys = state.active_journeys@;
            let authority = state.rules.authority;
            &&& state.bulletin_seen_count <= i64::MAX
            &&& region.population <= i64::MAX
            &&& forall|i: int|
                0 <= i < region.settlements@.len() ==> (
                #[trigger] region.settlements@[i]).population <= i64::MAX
            &&& forall|i: int|
                0 <= i < lines.len() ==> (#[trigger] lines[i]).distance.metres <= i64::MAX
            &&& forall|i: int, j: int|
                0 <= i < projects.len() && 0 <= j < planned_lines(projects[i].kind).len() ==> (
                #[trigger] planned_lines(projects[i].kind)[j]).distance.metres <= i64::MAX
            &&& state.player_company.fleet.next_train_display_number <= i64::MAX
            &&& forall|i: int|
                0 <= i < demand.len() ==> (#[trigger] demand[i]).fractional_passenger_seconds
                    <= i64::MAX
            &&& forall|i: int|
                0 <= i < journeys.len() ==> (#[trigger] journeys[i]).fare_rate.cents_per_kilometre
                    <= i64::MAX && journeys[i].current_stop_index <= i64::MAX
            &&& state.rules.balance.fare_per_passenger_kilometre.cents_per_kilometre <= i64::MAX
            &&& state.rules.balance.access_fee_per_train_kilometre.cents_per_kilometre <= i64::MAX
            &&& state.rules.demand.cap_duration.seconds <= i64::MAX
            &&& authority.request_queue_delay.seconds <= i64::MAX
            &&& authority.review_duration.seconds <= i64::MAX
            &&& authority.proposal_duration.seconds <= i64::MAX
            &&& authority.council_request_cooldown.seconds <= i64::MAX
            &&& authority.deferred_reconsideration_delay.seconds <= i64::MAX
            &&& authority.construction_mobilisation_delay.seconds <= i64::MAX
            &&& authority.new_line_base_construction_duration.seconds <= i64::MAX
            &&& authority.low_difficulty_seconds_per_kilometre <= i64::MAX
            &&& authority.moderate_difficulty_seconds_per_kilometre <= i64::MAX
            &&& authority.high_difficulty_seconds_per_kilometre <= i64::MAX
        },
{
    let journeys = state.active_journeys@;
    let projects = state.region.rail_authority.infrastructure_projects@;
    let demand = state.origin_destination_demand@;
    let lines = state.region.rail_authority.rail_network.rail_lines@;
    let settlements = state.region.settlements@;
    lemma_journeys(journeys, journeys.len() as int);
    assert(super::tables::world::settlements_unstorable(settlements) <==> exists|i: int|
        0 <= i < settlements.len() && (#[trigger] settlements[i]).population > i64::MAX) by {
        if exists|i: int| 0 <= i < settlements.len() && (#[trigger] settlements[i]).population
            > i64::MAX {
            let i = choose|i: int|
                0 <= i < settlements.len() && (#[trigger] settlements[i]).population > i64::MAX;
            assert(super::tables::world::settlement_unstorable(settlements[i]));
        }
    }
    assert(super::tables::world::lines_unstorable(lines) <==> exists|i: int|
        0 <= i < lines.len() && (#[trigger] lines[i]).distance.metres > i64::MAX) by {
        if exists|i: int| 0 <= i < lines.len() && (#[trigger] lines[i]).distance.metres > i64::MAX {
            let i = choose|i: int|
                0 <= i < lines.len() && (#[trigger] lines[i]).distance.metres > i64::MAX;
            assert(super::tables::world::line_unstorable(lines[i]));
        }
    }
    assert(super::tables::operations::demands_unstorable(demand) <==> exists|i: int|
        0 <= i < demand.len() && (#[trigger] demand[i]).fractional_passenger_seconds > i64::MAX) by {
        if exists|i: int|
            0 <= i < demand.len() && (#[trigger] demand[i]).fractional_passenger_seconds
                > i64::MAX {
            let i = choose|i: int|
                0 <= i < demand.len() && (#[trigger] demand[i]).fractional_passenger_seconds
                    > i64::MAX;
            assert(super::tables::operations::demand_unstorable(demand[i]));
        }
    }
    assert(super::tables::projects::any_overlong(projects) <==> exists|i: int, j: int|
        0 <= i < projects.len() && 0 <= j < planned_lines(projects[i].kind).len() && (
        #[trigger] planned_lines(projects[i].kind)[j]).distance.metres > i64::MAX) by {
        if exists|i: int, j: int|
            0 <= i < projects.len() && 0 <= j < planned_lines(projects[i].kind).len() && (
            #[trigger] planned_lines(projects[i].kind)[j]).distance.metres > i64::MAX {
            let (i, j) = choose|i: int, j: int|
                0 <= i < projects.len() && 0 <= j < planned_lines(projects[i].kind).len() && (
                #[trigger] planned_lines(projects[i].kind)[j]).distance.metres > i64::MAX;
            assert(super::tables::projects::overlong(projects[i]));
        }
        if super::tables::projects::any_overlong(projects) {
            let i = choose|i: int|
                0 <= i < projects.len() && super::tables::projects::overlong(
                    #[trigger] projects[i],
                );
            let j = choose|j: int|
                0 <= j < planned_lines(projects[i].kind).len() && (#[trigger] planned_lines(
                    projects[i].kind,
                )[j]).distance.metres > i64::MAX;
            assert(planned_lines(projects[i].kind)[j].distance.metres > i64::MAX);
        }
    }
}

/// A row that cannot be decoded is reported as a failure of the database, and what makes a save
/// invalid as that, both with the save's path.
pub proof fn failures_are_reported_as_what_they_are(
    error: LoadError,
    path: Seq<char>,
    reported: SaveSlotError,
)
    requires
        load_reported(error, path, reported),
    ensures
        error is Row <==> reported is Database,
        error is Save <==> reported is InvalidSave,
        error matches LoadError::Save(reason) ==> (reported matches SaveSlotError::InvalidSave {
            source,
            ..
        } && source == reason),
        reported matches SaveSlotError::Database { path: shown, .. } ==> shown@ == path,
        reported matches SaveSlotError::InvalidSave { path: shown, .. } ==> shown@ == path,
{
}

/// A save's history is kept for a game of the same world, and for no other.
pub proof fn histories_belong_to_their_world(existing: Option<String>, seed: u64)
    ensures
        existing is None ==> !keeps_history(existing, seed),
        existing is Some && existing->0@ == decimal(seed as nat) ==> keeps_history(existing, seed),
        existing is Some && existing->0@ != decimal(seed as nat) ==> !keeps_history(existing, seed),
{
}

/// A save of the first format is imported where it is all there is, and never over a database.
pub proof fn imports_never_replace_a_database(legacy: bool)
    ensures
        !imports(true, legacy),
        imports(false, legacy) == legacy,
{
}

/// A backup is named after its save, the process and a number of its own.
pub proof fn backups_are_named_after_their_save(name: Seq<char>, process: nat, number: nat)
    ensures
        backup_name(name, process, number) == name + ".bankrupt-backup-"@ + decimal(process) + "."@
            + decimal(number) + ".db"@,
        backup_name(name, process, number).take(name.len() as int) == name,
{
    assert(backup_name(name, process, number).take(name.len() as int) =~= name);
}

/// What is wrong with a save is told with the word for it.
pub proof fn reasons_are_told(found: u32, field: &'static str)
    ensures
        (SaveCodecError::UnsupportedVersion { found }).text() == "save version "@ + decimal(
            found as nat,
        ) + " is not supported"@,
        (SaveCodecError::InvalidValue { field }).text() == "invalid SQLite value for "@ + field@,
{
}

} // verus!
