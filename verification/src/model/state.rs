//! The whole saved state of a game.

use vstd::prelude::*;

use super::company::{Financials, Journey, OriginDestinationDemand, PlayerCompany};
use super::network::Settlement;
use super::project::RailAuthority;
use super::units::{DurationSeconds, Money, MoneyPerKilometre, UtcSeconds};

verus! {

/// The Region's code in vehicle numbers and its mark.
#[derive(Clone, Debug, PartialEq, Eq)]
pub struct RailwayRegistration {
    pub numeric_code: u8,
    pub mark: String,
}

#[derive(Clone, Copy, Debug, PartialEq, Eq, Structural)]
pub enum BulletinCategory {
    Local,
    Authority,
    Construction,
    Network,
}

#[derive(Clone, Debug, PartialEq, Eq)]
pub struct BulletinEntry {
    pub occurred_at: UtcSeconds,
    pub category: BulletinCategory,
    pub headline: String,
    pub detail: String,
}

#[derive(Clone, Debug, PartialEq, Eq)]
pub struct Region {
    pub name: String,
    pub railway_registration: RailwayRegistration,
    pub population: u64,
    pub settlements: Vec<Settlement>,
    pub bulletin: Vec<BulletinEntry>,
    pub rail_authority: RailAuthority,
}

/// Prices of the game's economy.
#[derive(Clone, Copy, Debug, PartialEq, Eq, Structural)]
pub struct BalanceConfig {
    pub fare_per_passenger_kilometre: MoneyPerKilometre,
    pub access_fee_per_train_kilometre: MoneyPerKilometre,
    pub starting_company_funds: Money,
}

#[derive(Clone, Copy, Debug, PartialEq, Eq, Structural)]
pub struct DemandRules {
    pub cap_duration: DurationSeconds,
}

/// The cadence of the Rail Authority's decisions and works.
#[derive(Clone, Copy, Debug, PartialEq, Eq, Structural)]
pub struct AuthorityRules {
    pub request_queue_delay: DurationSeconds,
    pub review_duration: DurationSeconds,
    pub proposal_duration: DurationSeconds,
    pub council_request_cooldown: DurationSeconds,
    pub deferred_reconsideration_delay: DurationSeconds,
    pub construction_mobilisation_delay: DurationSeconds,
    pub new_line_base_construction_duration: DurationSeconds,
    pub low_difficulty_seconds_per_kilometre: u64,
    pub moderate_difficulty_seconds_per_kilometre: u64,
    pub high_difficulty_seconds_per_kilometre: u64,
    pub max_active_expansion_projects: u32,
}

#[derive(Clone, Copy, Debug, PartialEq, Eq, Structural)]
pub struct GameRules {
    pub balance: BalanceConfig,
    pub demand: DemandRules,
    pub authority: AuthorityRules,
}

#[derive(Clone, Debug, PartialEq, Eq)]
pub struct GameState {
    pub world_seed: u64,
    pub region: Region,
    pub player_company: PlayerCompany,
    pub origin_destination_demand: Vec<OriginDestinationDemand>,
    pub active_journeys: Vec<Journey>,
    pub financials: Financials,
    pub rules: GameRules,
    pub last_processed_at: UtcSeconds,
    pub bulletin_seen_count: u64,
}

} // verus!
