use railq::model::catalogue::{TrainCatalogue, TrainModel};
use railq::model::company::{
    Financials, Fleet, Journey, JourneyPassengerGroup, JourneyPurpose, JourneyReceipt,
    ModelUnitSequence, OriginDestinationDemand, PassengerService, PlayerCompany, ServiceAssignment,
    ServiceDirectionMode, Train, TrainStatus,
};
use railq::model::facts::{ServicePath, SimulationFacts, StationRoute, WaitingCap};
use railq::model::identity::{
    EuropeanVehicleNumber, TrainModelId, TrainNickname, VehicleKeeperMark,
};
use railq::model::ids::{
    InfrastructureProjectId, JourneyId, RailLineId, RailStationId, ServiceId, SettlementId, TrainId,
};
use railq::model::network::{
    ConstructionDifficulty, Electrification, RailLine, RailNetwork, RailStation, Settlement,
    WorldPosition,
};
use railq::model::project::{
    InfrastructureAccessDiscount, InfrastructureProject, InfrastructureProjectFunding,
    InfrastructureProjectKind, InfrastructureProjectStatus, InfrastructureProjectTimeline,
    RailAuthority, RailAuthorityFinances,
};
use railq::model::state::{
    AuthorityRules, BalanceConfig, BulletinCategory, BulletinEntry, DemandRules, GameRules,
    GameState, RailwayRegistration, Region,
};
use railq::model::units::{
    CalculationError, DistanceMetres, DurationSeconds, MarketMaturity, Money, MoneyPerKilometre,
    PassengerArrivalRate, SpeedKilometresPerHour, TrackCount, UtcSeconds,
};
use railq::storage::codec::{
    from_db_u32, from_db_u64, parse_u64, read_time, row_u32, row_u64, store_time, to_db_u64,
    LoadError, RowError, SaveCodecError, DECODE_ROW,
};
use railq::storage::legacy::{
    decode_legacy_game_state, LegacyAdditions, LegacyGame, LegacyService, LegacyTrain,
};
use railq::storage::migration::amounts::{
    access_credit, credited_treasury, discount_for_credit, estimated_cost, fare_rate_snapshot,
    journey_fare_rate, next_utc_midnight, rebalanced_rates, seeded_reserve, slower_authority_pace, PlannedLength,
    TrackLength, MAINTENANCE_RESERVE_CENTS_PER_TRACK_KILOMETRE, REGIONAL_PUBLIC_ALLOCATION_CENTS,
};
use railq::storage::migration::plan::{schema_step, SchemaStep, SAVE_VERSION};
use railq::storage::migration::services::{
    number_services, plan_passenger_services, resumed_stop_index, routes_are_exact_reciprocals,
    stored_service_route_is_reversible, LineEndpoints, ServiceChange, StoredService, TrainNumbers,
};
use railq::storage::migration::vehicles::{
    assign_vehicle_numbers, catalogue_model_for_legacy_signature, catalogue_model_for_persisted_id,
    merged_next_unit, replacement_model_id, replacement_vehicle_number, UnnumberedTrain,
};
use railq::storage::slot::{
    accept_game, archive_name, imports_legacy_save, load_error, preserves_receipt_history,
    sidecar_lock_name, SaveSlotError,
};
use railq::storage::tables::history::recent_receipts;
use railq::storage::tables::operations::{GroupRow, ReceiptRow};
use railq::storage::tables::state::{insert_state, load_state};
use railq::storage::validation::fault::SaveValidationError;
use railq::storage::validation::state::validate_game_state;
use railq::text::{is_white_space, trim};

fn at(seconds: i64) -> UtcSeconds {
    UtcSeconds::from_unix_seconds(seconds)
}

fn cents(cents: i64) -> Money {
    Money::from_cents(cents)
}

fn hours(hours: u64) -> DurationSeconds {
    DurationSeconds::from_seconds(hours * 3_600)
}

fn model(id: &str, name: &str, price: i64, seats: u32, speed: u64, fuel: i64, series: u16) -> TrainModel {
    TrainModel {
        id: TrainModelId { name: id.to_string() },
        name: name.to_string(),
        purchase_price: cents(price),
        passenger_capacity: seats,
        speed_metres_per_second: speed,
        fuel_cost_per_kilometre: MoneyPerKilometre::new(fuel).unwrap(),
        evn_type_code: 95,
        evn_series_code: series,
    }
}

fn catalogue() -> TrainCatalogue {
    TrainCatalogue {
        models: vec![
            model("helvetra-r70", "Helvetra R70", 300_000, 70, 25, 45, 701),
            model("veltrian-d121", "Veltrian D121", 450_000, 120, 33, 60, 721),
        ],
    }
}

fn line(id: u64, first: u64, second: u64, metres: i64) -> RailLine {
    RailLine {
        id: RailLineId::new(id),
        first_station_id: RailStationId::new(first),
        second_station_id: RailStationId::new(second),
        distance: DistanceMetres::new(metres).unwrap(),
        speed_limit: SpeedKilometresPerHour::new(70).unwrap(),
        track_count: TrackCount::single(),
        electrification: Electrification::Unelectrified,
        construction_difficulty: ConstructionDifficulty::Moderate,
    }
}

fn settlement(id: u64, name: &str) -> Settlement {
    Settlement {
        id: SettlementId::new(id),
        name: name.to_string(),
        population: 1_000,
        position: WorldPosition { x: id as i64 * 10, y: -3 },
    }
}

fn station(id: u64) -> RailStation {
    RailStation { id: RailStationId::new(id), settlement_id: SettlementId::new(id) }
}

fn authority_rules() -> AuthorityRules {
    AuthorityRules {
        request_queue_delay: hours(1),
        review_duration: hours(2),
        proposal_duration: hours(1),
        council_request_cooldown: hours(24),
        deferred_reconsideration_delay: hours(24),
        construction_mobilisation_delay: hours(1),
        new_line_base_construction_duration: hours(5),
        low_difficulty_seconds_per_kilometre: 120,
        moderate_difficulty_seconds_per_kilometre: 180,
        high_difficulty_seconds_per_kilometre: 240,
        max_active_expansion_projects: 2,
    }
}

fn facts() -> SimulationFacts {
    let first = RailStationId::new(1);
    let second = RailStationId::new(2);
    let lines = vec![RailLineId::new(1)];
    SimulationFacts {
        catalogue: catalogue(),
        routes: vec![
            StationRoute { from: first, to: second, rail_line_ids: lines.clone() },
            StationRoute { from: second, to: first, rail_line_ids: lines.clone() },
        ],
        service_paths: vec![
            ServicePath { stop_station_ids: vec![first, second], rail_line_ids: lines.clone() },
            ServicePath { stop_station_ids: vec![second, first], rail_line_ids: lines },
        ],
        waiting_caps: vec![WaitingCap {
            origin_station_id: first,
            destination_station_id: second,
            passengers: 100,
        }],
    }
}

/// A game with one Train under way between the first two stations.
fn active_game() -> GameState {
    let train_id = TrainId::new(1);
    let service_id = ServiceId::new(1);
    let journey_id = JourneyId::new(1);
    GameState {
        world_seed: 42,
        region: Region {
            name: "Federation of Varelia".to_string(),
            railway_registration: RailwayRegistration { numeric_code: 67, mark: "VA".to_string() },
            population: 5_000,
            settlements: vec![
                settlement(1, "Alden"),
                settlement(2, "Bellhaven"),
                settlement(3, "Corin"),
                settlement(4, "Dunmore"),
                settlement(5, "Eastmere"),
            ],
            bulletin: vec![],
            rail_authority: RailAuthority {
                name: "Varelia Rail Authority".to_string(),
                rail_network: RailNetwork {
                    rail_stations: vec![station(1), station(2), station(3), station(4)],
                    rail_lines: vec![
                        line(1, 1, 2, 98_000),
                        line(2, 2, 3, 40_000),
                        line(3, 3, 4, 25_000),
                    ],
                },
                finances: RailAuthorityFinances {
                    treasury: cents(10_000_000),
                    maintenance_reserve: cents(500_000),
                    committed_investment: cents(0),
                    carried_over_funds: cents(0),
                    regional_public_allocation: cents(10_000_000),
                    infrastructure_access_fee_revenue: cents(0),
                    next_fiscal_period_at: Some(at(86_400)),
                },
                construction_capacity: 1,
                infrastructure_projects: vec![],
            },
        },
        player_company: PlayerCompany {
            name: "Alden Passenger".to_string(),
            vehicle_keeper_mark: VehicleKeeperMark::parse("ALDP").unwrap(),
            funds: cents(195_100),
            fleet: Fleet {
                trains: vec![Train {
                    id: train_id,
                    evn: EuropeanVehicleNumber::generate(95, 67, 701, 1).unwrap(),
                    nickname: Some(TrainNickname::parse("Morning Star").unwrap()),
                    status: TrainStatus::Travelling { journey_id },
                    model_id: TrainModelId { name: "helvetra-r70".to_string() },
                    original_purchase_price: cents(300_000),
                }],
                next_train_display_number: 2,
                next_evn_unit_by_model: vec![ModelUnitSequence {
                    model_id: TrainModelId { name: "helvetra-r70".to_string() },
                    next_unit_number: 2,
                }],
                service_assignments: vec![ServiceAssignment { train_id, service_id }],
            },
            passenger_services: vec![PassengerService {
                id: service_id,
                name: "R1".to_string(),
                custom_name: None,
                direction_mode: ServiceDirectionMode::BothDirections,
                forward_train_number: 100,
                reverse_train_number: Some(101),
                stop_station_ids: vec![RailStationId::new(1), RailStationId::new(2)],
                rail_line_ids: vec![RailLineId::new(1)],
            }],
        },
        origin_destination_demand: vec![OriginDestinationDemand {
            origin_station_id: RailStationId::new(1),
            destination_station_id: RailStationId::new(2),
            waiting_passengers: 12,
            market_maturity: MarketMaturity::from_basis_points(4_321).unwrap(),
            passenger_arrival_rate_per_hour: PassengerArrivalRate::new(4).unwrap(),
            fractional_passenger_seconds: 1_234,
        }],
        active_journeys: vec![Journey {
            id: journey_id,
            purpose: JourneyPurpose::RevenueService,
            service_id,
            train_id,
            origin_station_id: RailStationId::new(1),
            destination_station_id: RailStationId::new(2),
            passengers_carried: 10,
            fare_rate: MoneyPerKilometre::new(12).unwrap(),
            fare: cents(1_176),
            operating_revenue: cents(11_760),
            credited_revenue: cents(0),
            infrastructure_access_fee: cents(3_430),
            fuel_cost: cents(4_410),
            current_stop_index: 0,
            passenger_groups: vec![JourneyPassengerGroup {
                origin_station_id: RailStationId::new(1),
                destination_station_id: RailStationId::new(2),
                passengers: 10,
                fare: cents(1_176),
            }],
            started_at: Some(at(1_000)),
            departed_at: at(1_000),
            arrives_at: at(4_920),
        }],
        financials: Financials {
            operating_revenue: cents(0),
            infrastructure_access_fees: cents(3_430),
            fuel_costs: cents(4_410),
            recent_journey_receipts: vec![],
        },
        rules: GameRules {
            balance: BalanceConfig {
                fare_per_passenger_kilometre: MoneyPerKilometre::new(12).unwrap(),
                access_fee_per_train_kilometre: MoneyPerKilometre::new(35).unwrap(),
                starting_company_funds: cents(500_000),
            },
            demand: DemandRules { cap_duration: hours(24) },
            authority: authority_rules(),
        },
        last_processed_at: at(1_000),
        bulletin_seen_count: 0,
    }
}

/// The game's train has arrived and its receipt is kept.
fn arrived_game() -> GameState {
    let mut state = active_game();
    let journey = state.active_journeys.remove(0);
    state.player_company.fleet.trains[0].status = TrainStatus::Ready { at: RailStationId::new(2) };
    state.financials.operating_revenue = journey.operating_revenue;
    state.financials.recent_journey_receipts.push(JourneyReceipt {
        journey_id: journey.id,
        revenue: journey.operating_revenue,
        infrastructure_access_fee: journey.infrastructure_access_fee,
        fuel_cost: journey.fuel_cost,
        train_id: Some(journey.train_id),
        train_model_name: Some("Helvetra R70".to_string()),
        origin_station_id: Some(journey.origin_station_id),
        destination_station_id: Some(journey.destination_station_id),
        passengers_carried: Some(journey.passengers_carried),
        passenger_capacity: Some(70),
        completed_at: Some(journey.arrives_at),
        service_id: Some(journey.service_id),
        service_code: Some("R1".to_string()),
        purpose: Some(journey.purpose),
        departed_at: Some(journey.departed_at),
    });
    state.last_processed_at = journey.arrives_at;
    state
}

/// How many receipts the tests load.
const RECENT: usize = 50;

fn saved_and_loaded(state: &GameState) -> Option<GameState> {
    assert_eq!(validate_game_state(state, &facts()), Ok(()));
    let rows = insert_state(state).unwrap();
    load_state(&Some(rows), RECENT).unwrap()
}

fn requested(seconds: i64) -> InfrastructureProjectTimeline {
    InfrastructureProjectTimeline {
        requested_at: at(seconds),
        review_started_at: None,
        proposed_at: None,
        approved_at: None,
        funding_completed_at: None,
        scheduled_start_at: None,
        construction_started_at: None,
        planned_completion_at: None,
        completed_at: None,
        deferred_at: None,
        cancelled_at: None,
        reconsideration_count: 0,
    }
}

fn opened() -> InfrastructureProjectTimeline {
    InfrastructureProjectTimeline {
        requested_at: at(1_000),
        review_started_at: Some(at(1_100)),
        proposed_at: Some(at(1_200)),
        approved_at: Some(at(1_300)),
        funding_completed_at: Some(at(1_400)),
        scheduled_start_at: Some(at(1_500)),
        construction_started_at: Some(at(1_600)),
        planned_completion_at: Some(at(1_700)),
        completed_at: Some(at(1_700)),
        deferred_at: None,
        cancelled_at: None,
        reconsideration_count: 0,
    }
}

fn random_project_id() -> InfrastructureProjectId {
    InfrastructureProjectId { value: uuid::Uuid::new_v4().as_u128() }
}

fn project(
    id: u64,
    kind: InfrastructureProjectKind,
    status: InfrastructureProjectStatus,
    timeline: InfrastructureProjectTimeline,
) -> InfrastructureProject {
    InfrastructureProject {
        id: InfrastructureProjectId::new(id),
        kind,
        status,
        timeline,
        funding: InfrastructureProjectFunding::default(),
    }
}

#[test]
fn a_game_under_way_is_valid() {
    assert_eq!(validate_game_state(&active_game(), &facts()), Ok(()));
    assert_eq!(validate_game_state(&arrived_game(), &facts()), Ok(()));
}

#[test]
fn migrated_bidirectional_journey_snapshot_remains_loadable() {
    let mut state = active_game();
    state.player_company.passenger_services[0].stop_station_ids.reverse();
    state.player_company.passenger_services[0].rail_line_ids.reverse();
    state.active_journeys[0].current_stop_index =
        state.player_company.passenger_services[0].stop_station_ids.len().saturating_sub(1);

    assert_eq!(saved_and_loaded(&state), Some(state));
}

#[test]
fn sqlite_round_trips_all_current_operating_state() {
    let mut state = active_game();
    state.player_company.passenger_services[0].custom_name = Some("Capital Link".into());
    state.player_company.passenger_services[0].direction_mode = ServiceDirectionMode::ForwardOnly;
    state.player_company.passenger_services[0].reverse_train_number = None;
    state.region.rail_authority.construction_capacity = 2;
    state.region.bulletin.push(BulletinEntry {
        occurred_at: at(12_345),
        category: BulletinCategory::Authority,
        headline: "Alden connection approved".into(),
        detail: "The regional case passed formal review.".into(),
    });
    state.region.rail_authority.finances = RailAuthorityFinances {
        treasury: cents(9_000_000),
        maintenance_reserve: cents(1_500_000),
        committed_investment: cents(2_000_000),
        carried_over_funds: cents(750_000),
        regional_public_allocation: cents(3_000_000),
        infrastructure_access_fee_revenue: cents(425_000),
        next_fiscal_period_at: Some(at(25_000)),
    };

    assert_eq!(saved_and_loaded(&state), Some(state));
}

#[test]
fn sqlite_round_trips_journey_receipt_service_telemetry() {
    let state = arrived_game();
    let service_id = state.player_company.passenger_services[0].id;

    let receipt = state.financials.recent_journey_receipts[0].clone();
    assert_eq!(receipt.service_id, Some(service_id));
    assert_eq!(receipt.service_code.as_deref(), Some("R1"));
    assert_eq!(receipt.purpose, Some(JourneyPurpose::RevenueService));
    assert_eq!(receipt.departed_at, Some(at(1_000)));

    let loaded = saved_and_loaded(&state).unwrap();

    assert_eq!(loaded.financials.recent_journey_receipts, vec![receipt]);
}

#[test]
fn sqlite_round_trips_infrastructure_access_discount() {
    let mut state = active_game();
    let rail_line_id = state.region.rail_authority.rail_network.rail_lines[0].id;
    state.region.rail_authority.infrastructure_projects = vec![InfrastructureProject {
        id: random_project_id(),
        kind: InfrastructureProjectKind::Renewal { rail_line_ids: vec![rail_line_id] },
        status: InfrastructureProjectStatus::Open,
        timeline: opened(),
        funding: InfrastructureProjectFunding {
            estimated_cost: cents(1_000),
            authority_committed: cents(900),
            operator_contributed: cents(100),
            access_fee_discount: Some(InfrastructureAccessDiscount {
                basis_points: 5_000,
                expires_at: at(691_200),
            }),
        },
    }];

    assert_eq!(saved_and_loaded(&state), Some(state));
}

#[test]
fn sqlite_round_trips_all_infrastructure_project_kinds() {
    let mut state = active_game();
    let mut reconsidered_timeline = requested(2_004);
    reconsidered_timeline.reconsideration_count = 2;
    state.region.rail_authority.infrastructure_projects = vec![
        project(
            1,
            InfrastructureProjectKind::NewLine {
                planned_stations: vec![station(5)],
                planned_lines: vec![line(4, 4, 5, 12_000)],
            },
            InfrastructureProjectStatus::Requested,
            requested(2_000),
        ),
        project(
            2,
            InfrastructureProjectKind::SpeedUpgrade {
                rail_line_ids: vec![RailLineId::new(1)],
                target_speed_limit: SpeedKilometresPerHour::new(100).unwrap(),
            },
            InfrastructureProjectStatus::UnderReview,
            requested(2_001),
        ),
        project(
            3,
            InfrastructureProjectKind::DoubleTracking {
                rail_line_ids: vec![RailLineId::new(2)],
                target_track_count: TrackCount::double(),
            },
            InfrastructureProjectStatus::Proposed,
            requested(2_002),
        ),
        project(
            4,
            InfrastructureProjectKind::Electrification { rail_line_ids: vec![RailLineId::new(3)] },
            InfrastructureProjectStatus::Approved,
            requested(2_003),
        ),
        project(
            5,
            InfrastructureProjectKind::Renewal { rail_line_ids: vec![RailLineId::new(1)] },
            InfrastructureProjectStatus::Deferred,
            reconsidered_timeline,
        ),
        project(
            6,
            InfrastructureProjectKind::StationUpgrade {
                rail_station_ids: vec![RailStationId::new(1)],
            },
            InfrastructureProjectStatus::Funding,
            requested(2_005),
        ),
        project(
            7,
            InfrastructureProjectKind::StationUpgrade {
                rail_station_ids: vec![RailStationId::new(2)],
            },
            InfrastructureProjectStatus::Rejected,
            requested(2_006),
        ),
    ];

    assert_eq!(saved_and_loaded(&state), Some(state));
}

#[test]
fn validation_rejects_conflicting_projects_under_construction() {
    let mut state = active_game();
    state.region.rail_authority.construction_capacity = 2;
    state.region.rail_authority.infrastructure_projects = vec![
        project(
            1,
            InfrastructureProjectKind::SpeedUpgrade {
                rail_line_ids: vec![RailLineId::new(1)],
                target_speed_limit: SpeedKilometresPerHour::new(100).unwrap(),
            },
            InfrastructureProjectStatus::Construction,
            requested(2_000),
        ),
        project(
            2,
            InfrastructureProjectKind::Electrification { rail_line_ids: vec![RailLineId::new(1)] },
            InfrastructureProjectStatus::Construction,
            requested(2_000),
        ),
    ];
    assert_eq!(
        validate_game_state(&state, &facts()),
        Err(SaveValidationError::ImpossibleState {
            reason: "conflicting Infrastructure Projects are simultaneously under construction",
        })
    );
}

#[test]
fn validation_allows_parallel_construction_on_disjoint_rail_lines() {
    let mut state = active_game();
    state.region.rail_authority.construction_capacity = 2;
    state.region.rail_authority.infrastructure_projects = vec![
        project(
            1,
            InfrastructureProjectKind::SpeedUpgrade {
                rail_line_ids: vec![RailLineId::new(1)],
                target_speed_limit: SpeedKilometresPerHour::new(100).unwrap(),
            },
            InfrastructureProjectStatus::Construction,
            requested(2_000),
        ),
        project(
            2,
            InfrastructureProjectKind::Renewal { rail_line_ids: vec![RailLineId::new(2)] },
            InfrastructureProjectStatus::Construction,
            requested(2_000),
        ),
    ];
    assert_eq!(validate_game_state(&state, &facts()), Ok(()));
}

#[test]
fn construction_is_fully_funded_with_or_without_timestamps() {
    let mut state = active_game();
    let mut renewal = project(
        1,
        InfrastructureProjectKind::Renewal { rail_line_ids: vec![RailLineId::new(1)] },
        InfrastructureProjectStatus::Construction,
        requested(2_000),
    );
    renewal.funding.estimated_cost = cents(1);
    state.region.rail_authority.infrastructure_projects = vec![renewal.clone()];
    assert_eq!(
        validate_game_state(&state, &facts()),
        Err(SaveValidationError::ImpossibleState {
            reason: "Infrastructure Project under construction is missing construction timestamps",
        })
    );
    renewal.funding.authority_committed = cents(1);
    state.region.rail_authority.finances.committed_investment = cents(1);
    state.region.rail_authority.infrastructure_projects = vec![renewal];
    assert_eq!(validate_game_state(&state, &facts()), Ok(()));
}

#[test]
fn validation_allows_open_project_to_keep_historical_authority_commitment() {
    let mut state = active_game();
    let historical_commitment = cents(250_000);
    state.region.rail_authority.finances.committed_investment = Money::zero();
    state.region.rail_authority.infrastructure_projects = vec![InfrastructureProject {
        id: random_project_id(),
        kind: InfrastructureProjectKind::Renewal {
            rail_line_ids: vec![state.region.rail_authority.rail_network.rail_lines[0].id],
        },
        status: InfrastructureProjectStatus::Open,
        timeline: opened(),
        funding: InfrastructureProjectFunding {
            estimated_cost: historical_commitment,
            authority_committed: historical_commitment,
            operator_contributed: Money::zero(),
            access_fee_discount: None,
        },
    }];

    assert_eq!(validate_game_state(&state, &facts()), Ok(()));
}

#[test]
fn validation_rejects_more_active_projects_than_construction_capacity() {
    let mut state = active_game();
    state.region.rail_authority.construction_capacity = 1;
    state.region.rail_authority.infrastructure_projects = vec![
        project(
            101,
            InfrastructureProjectKind::Renewal { rail_line_ids: vec![RailLineId::new(1)] },
            InfrastructureProjectStatus::Construction,
            requested(2_000),
        ),
        project(
            102,
            InfrastructureProjectKind::Renewal { rail_line_ids: vec![RailLineId::new(2)] },
            InfrastructureProjectStatus::Construction,
            requested(2_000),
        ),
    ];

    assert_eq!(
        validate_game_state(&state, &facts()),
        Err(SaveValidationError::ImpossibleState {
            reason: "Rail Authority active construction exceeds its capacity",
        })
    );
}

#[test]
fn save_uses_normalized_tables_instead_of_one_state_blob() {
    let rows = insert_state(&active_game()).unwrap();

    assert_eq!(rows.trains.len(), 1);
    assert_eq!(rows.journeys.len(), 1);
    assert_eq!(rows.services[0].stop_station_ids.len(), 2);
    assert!(!rows.journeys[0].passenger_groups.is_empty());
    for id in [&rows.trains[0].id, &rows.stations[0].id] {
        uuid::Uuid::parse_str(id).unwrap();
        assert_eq!(&id[14..15], "4");
        assert!(matches!(&id[19..20], "8" | "9" | "a" | "b"));
    }
    assert_eq!(rows.trains[0].model_id, "helvetra-r70");
    let evn = EuropeanVehicleNumber::parse(&rows.trains[0].evn).unwrap();
    assert_eq!(evn.registration_code(), 67);
    assert_eq!(evn.series_code(), 701);
    assert_eq!(evn.unit_number(), 1);
    assert_eq!(rows.company.next_train_display_number, 2);
    assert_eq!(rows.units[0].next_unit_number, 2);
}

#[test]
fn v9_catalogue_ids_migrate_to_replacement_models() {
    let catalogue = catalogue();
    let old_local_evn = EuropeanVehicleNumber::generate(95, 67, 70, 1).unwrap();
    let old_express_evn = EuropeanVehicleNumber::generate(95, 67, 120, 1).unwrap();

    let mut migrated = vec![];
    for (stored, evn) in [("local-70", old_local_evn), ("express-120", old_express_evn)] {
        let model = catalogue_model_for_persisted_id(&catalogue, stored).unwrap();
        let number = replacement_vehicle_number(evn.as_str(), model).unwrap();
        migrated.push((model.id.name.clone(), number.series_code()));
    }
    assert_eq!(
        migrated,
        vec![("helvetra-r70".to_string(), 701), ("veltrian-d121".to_string(), 721)]
    );
    assert_eq!(merged_next_unit(2, None), 2);
    assert_eq!(merged_next_unit(2, Some(5)), 5);
    assert_eq!(merged_next_unit(7, Some(5)), 7);
}

#[test]
fn missing_database_is_reported_without_creating_a_fresh_game() {
    assert_eq!(load_state(&None, RECENT), Ok(None));
}

#[test]
fn unsupported_schema_version_is_preserved_and_rejected() {
    assert_eq!(
        schema_step(SAVE_VERSION + 1),
        Err(SaveCodecError::UnsupportedVersion { found: SAVE_VERSION + 1 })
    );
    assert_eq!(schema_step(0), Ok(SchemaStep::Create));
    assert_eq!(schema_step(SAVE_VERSION), Ok(SchemaStep::Verify));
    let mut version = 1;
    while version < SAVE_VERSION {
        assert_eq!(schema_step(version), Ok(SchemaStep::Upgrade { from: version }));
        version += 1;
    }
}

#[test]
fn v1_sqlite_schema_migrates_owned_trains_to_stable_model_ids() {
    let catalogue = catalogue();
    let model =
        catalogue_model_for_legacy_signature(&catalogue, "Local 70", 70, 25, 45).unwrap();
    assert_eq!(model.id.name, "helvetra-r70");

    let trains = vec![UnnumberedTrain { id: 1, model_id: model.id.name.clone() }];
    let (numbered, sequences) = assign_vehicle_numbers(&trains, 67, &catalogue).unwrap();

    assert_eq!(numbered[0].id, 1);
    assert_eq!(numbered[0].evn.as_str(), "956707010016");
    assert_eq!(sequences.len(), 1);
    assert_eq!(sequences[0].next_unit_number, 2);
    assert_eq!(TrainId::new(1).text(), "00000005-0000-4000-8000-000000000001");
    assert_eq!(JourneyId::new(1).text(), "00000007-0000-4000-8000-000000000001");
    assert_eq!(ServiceId::new(1).text(), "00000006-0000-4000-8000-000000000001");
}

#[test]
fn v16_schema_migrates_entity_ids_to_uuid_v4_text() {
    assert_eq!(TrainId::new(1).text(), "00000005-0000-4000-8000-000000000001");
    assert_eq!(RailLineId::new(1).text(), "00000003-0000-4000-8000-000000000001");
    assert_eq!(InfrastructureProjectId::new(1).text(), "00000004-0000-4000-8000-000000000001");
    for id in [
        TrainId::new(1).text(),
        RailLineId::new(1).text(),
        InfrastructureProjectId::new(1).text(),
    ] {
        uuid::Uuid::parse_str(&id).unwrap();
        assert_eq!(&id[14..15], "4");
        assert!(matches!(&id[19..20], "8" | "9" | "a" | "b"));
    }
}

#[test]
fn v22_schema_aligns_the_next_authority_fiscal_period_to_utc_midnight() {
    assert_eq!(next_utc_midnight(1_000), Some(86_400));
}

#[test]
fn v23_schema_realigns_existing_fiscal_schedule_to_next_utc_midnight() {
    assert_eq!(next_utc_midnight(50_000), Some(86_400));
    assert_eq!(next_utc_midnight(86_400), Some(172_800));
    assert_eq!(next_utc_midnight(i64::MAX), None);
    assert_eq!(next_utc_midnight(-1), Some(86_400));
    assert_eq!(next_utc_midnight(-86_400), Some(0));
}

#[test]
fn v13_schema_migrates_and_seeds_regional_public_allocation() {
    let allocation = REGIONAL_PUBLIC_ALLOCATION_CENTS;
    assert_eq!(credited_treasury(5_000, allocation), Some(5_000 + allocation));
}

#[test]
fn v15_schema_credits_historical_access_fees_to_authority() {
    assert_eq!(credited_treasury(10_000_000, 325_000), Some(10_325_000));
    assert_eq!(credited_treasury(i64::MAX, 1), None);
}

#[test]
fn v33_migration_adds_the_slower_authority_pacing_target() {
    let pace = slower_authority_pace();
    let rules = (
        pace.request_queue_delay.seconds(),
        pace.review_duration.seconds(),
        pace.proposal_duration.seconds(),
        pace.council_request_cooldown.seconds(),
        pace.deferred_reconsideration_delay.seconds(),
        pace.construction_mobilisation_delay.seconds(),
        pace.new_line_base_construction_duration.seconds(),
        pace.low_difficulty_seconds_per_kilometre,
        pace.moderate_difficulty_seconds_per_kilometre,
        pace.high_difficulty_seconds_per_kilometre,
        pace.max_active_expansion_projects,
    );
    assert_eq!(
        rules,
        (3_600, 7_200, 3_600, 86_400, 86_400, 3_600, 18_000, 120, 180, 240, 2)
    );
}

#[test]
fn v14_schema_seeds_network_sized_maintenance_reserve() {
    let lines =
        vec![TrackLength { metres: 10_000, tracks: 1 }, TrackLength { metres: 5_000, tracks: 2 }];
    let rate = MAINTENANCE_RESERVE_CENTS_PER_TRACK_KILOMETRE;
    assert_eq!(seeded_reserve(10_000_000, 1_000_000, &lines, rate), 500_000);
    assert_eq!(seeded_reserve(1_100_000, 1_000_000, &lines, 25_000), 100_000);
    assert_eq!(seeded_reserve(10_000_000, 1_000_000, &vec![], 25_000), 0);
    assert_eq!(
        seeded_reserve(10_000_000, 0, &vec![TrackLength { metres: 1, tracks: 3 }], 25_000),
        75
    );
}

#[test]
fn legacy_ron_decoder_accepts_the_previous_versioned_envelope() {
    let mut state = active_game();
    state.player_company.fleet.trains[0].nickname = None;
    state.player_company.fleet.service_assignments.clear();
    let legacy = legacy_of(&state, 1);

    let decoded = decode_legacy_game_state(legacy, additions_of(&state), &facts());

    assert_eq!(decoded, Ok(state));
}

fn legacy_of(state: &GameState, version: u32) -> LegacyGame {
    let models = catalogue();
    LegacyGame {
        version,
        world_seed: state.world_seed,
        region: state.region.clone(),
        company_name: state.player_company.name.clone(),
        funds: state.player_company.funds,
        trains: state
            .player_company
            .fleet
            .trains
            .iter()
            .map(|train| {
                let model = models.by_id(&train.model_id).unwrap();
                LegacyTrain {
                    id: train.id,
                    status: train.status,
                    model_name: model.name.clone(),
                    original_purchase_price: train.original_purchase_price,
                    passenger_capacity: model.passenger_capacity,
                    speed_metres_per_second: model.speed_metres_per_second,
                    fuel_cost_per_kilometre: model.fuel_cost_per_kilometre,
                }
            })
            .collect(),
        services: state
            .player_company
            .passenger_services
            .iter()
            .map(|service| LegacyService {
                id: service.id,
                first_station_id: service.origin_station_id().unwrap(),
                second_station_id: service.destination_station_id().unwrap(),
                rail_line_ids: service.rail_line_ids.clone(),
            })
            .collect(),
        origin_destination_demand: state.origin_destination_demand.clone(),
        active_journeys: state.active_journeys.clone(),
        financials: state.financials.clone(),
        balance: state.rules.balance,
        demand: state.rules.demand,
        last_processed_at: state.last_processed_at,
    }
}

fn additions_of(state: &GameState) -> LegacyAdditions {
    LegacyAdditions {
        registration: state.region.railway_registration.clone(),
        vehicle_keeper_mark: state.player_company.vehicle_keeper_mark.clone(),
        authority: state.rules.authority,
    }
}

#[test]
fn legacy_decoder_reports_what_it_cannot_read() {
    let mut state = active_game();
    state.player_company.fleet.trains[0].nickname = None;
    state.player_company.fleet.service_assignments.clear();

    assert_eq!(
        decode_legacy_game_state(legacy_of(&state, 2), additions_of(&state), &facts()),
        Err(SaveCodecError::UnsupportedVersion { found: 2 })
    );

    let mut unknown = legacy_of(&state, 1);
    unknown.trains[0].model_name = "Phantom 9".to_string();
    assert_eq!(
        decode_legacy_game_state(unknown, additions_of(&state), &facts()),
        Err(SaveCodecError::TrainModelNotFound { model_name: "Phantom 9".to_string() })
    );

    let mut fast = legacy_of(&state, 1);
    fast.trains[0].speed_metres_per_second = u64::MAX;
    assert_eq!(
        decode_legacy_game_state(fast, additions_of(&state), &facts()),
        Err(SaveCodecError::InvalidValue { field: "legacy Train speed" })
    );

    let mut poor = legacy_of(&state, 1);
    poor.funds = cents(-1);
    assert_eq!(
        decode_legacy_game_state(poor, additions_of(&state), &facts()),
        Err(SaveCodecError::InvalidState(SaveValidationError::InvalidValue {
            field: "Company Funds or financial total",
        }))
    );
}

#[test]
fn legacy_journeys_without_groups_carry_all_passengers_through() {
    let mut state = active_game();
    state.player_company.fleet.trains[0].nickname = None;
    state.player_company.fleet.service_assignments.clear();
    let mut legacy = legacy_of(&state, 1);
    legacy.active_journeys[0].passenger_groups.clear();

    let decoded = decode_legacy_game_state(legacy, additions_of(&state), &facts()).unwrap();

    assert_eq!(decoded.active_journeys[0].passenger_groups.len(), 1);
    assert_eq!(decoded, state);
}

fn stored(id: &str, sequence: i64, stops: &[&str], lines: &[&str], active: bool) -> StoredService {
    StoredService {
        id: id.to_string(),
        sequence,
        stop_station_ids: stops.iter().map(|stop| stop.to_string()).collect(),
        rail_line_ids: lines.iter().map(|line| line.to_string()).collect(),
        has_active_journey: active,
    }
}

fn endpoints(id: &str, first: &str, second: &str) -> LineEndpoints {
    LineEndpoints {
        id: id.to_string(),
        first_station_id: first.to_string(),
        second_station_id: second.to_string(),
    }
}

fn reciprocal_lines() -> Vec<LineEndpoints> {
    vec![
        endpoints("line-ab", "station-a", "station-b"),
        endpoints("line-bc", "station-b", "station-c"),
    ]
}

fn reciprocal_pair(first_active: bool, second_active: bool) -> Vec<StoredService> {
    vec![
        stored(
            "service-a",
            0,
            &["station-a", "station-b", "station-c"],
            &["line-ab", "line-bc"],
            first_active,
        ),
        stored(
            "service-b",
            1,
            &["station-c", "station-b", "station-a"],
            &["line-bc", "line-ab"],
            second_active,
        ),
    ]
}

#[test]
fn v27_schema_falls_back_to_one_way_when_route_cannot_be_verified() {
    let services = vec![stored("00000004-0000-4000-8000-000000000001", 0, &[], &[], false)];
    assert_eq!(plan_passenger_services(&services, &vec![]), vec![]);
    assert!(!stored_service_route_is_reversible(
        &services[0].stop_station_ids,
        &services[0].rail_line_ids,
        &vec![]
    ));
}

#[test]
fn v28_migration_merges_idle_reciprocal_services_into_the_older_service() {
    let services = reciprocal_pair(false, false);
    assert!(routes_are_exact_reciprocals(&services[0], &services[1]));
    assert_eq!(
        plan_passenger_services(&services, &reciprocal_lines()),
        vec![ServiceChange::Merge { survivor: 0, retired: 1 }]
    );
}

#[test]
fn v28_migration_preserves_the_active_direction_when_merging_a_pair() {
    assert_eq!(
        plan_passenger_services(&reciprocal_pair(false, true), &reciprocal_lines()),
        vec![ServiceChange::Merge { survivor: 1, retired: 0 }]
    );
}

#[test]
fn v28_migration_keeps_both_reciprocal_services_one_way_when_both_are_active() {
    assert_eq!(plan_passenger_services(&reciprocal_pair(true, true), &reciprocal_lines()), vec![]);
}

#[test]
fn v28_migration_upgrades_a_valid_standalone_service_to_bidirectional() {
    let services = vec![stored("service-a", 0, &["station-a", "station-b"], &["line-ab"], false)];
    assert_eq!(
        plan_passenger_services(&services, &vec![endpoints("line-ab", "station-a", "station-b")]),
        vec![ServiceChange::BothWays { service: 0 }]
    );
    assert_eq!(
        number_services(&vec![ServiceDirectionMode::BothDirections]),
        Ok(vec![TrainNumbers { forward: 100, reverse: Some(101) }])
    );
}

#[test]
fn train_numbers_follow_each_other() {
    assert_eq!(
        number_services(&vec![
            ServiceDirectionMode::ForwardOnly,
            ServiceDirectionMode::BothDirections,
            ServiceDirectionMode::ForwardOnly,
        ]),
        Ok(vec![
            TrainNumbers { forward: 100, reverse: None },
            TrainNumbers { forward: 101, reverse: Some(102) },
            TrainNumbers { forward: 103, reverse: None },
        ])
    );
}

#[test]
fn v35_migration_rebalances_default_operating_rates_and_preserves_custom_rates() {
    for (fare, access, expected_fare, expected_access) in [(20, 12, 12, 35), (18, 9, 18, 9)] {
        assert_eq!(rebalanced_rates(fare, access), (expected_fare, expected_access));
    }
}

#[test]
fn v36_migration_preserves_in_flight_legacy_fare_snapshot() {
    assert_eq!(fare_rate_snapshot(1_960, 98_000), Some(20));
    assert_eq!(fare_rate_snapshot(1_960, 0), None);
}

#[test]
fn upgraded_journeys_keep_what_they_were_sold_at() {
    for (rate, metres) in [(20, 98_000), (12, 1), (7, 333), (35, 12_345), (1, 999_999)] {
        let distance = DistanceMetres::new(metres).unwrap();
        let fare = MoneyPerKilometre::new(rate).unwrap().checked_charge(distance).unwrap();
        let upgraded = journey_fare_rate(fare.cents, metres, Some(12)).unwrap();
        assert!(upgraded >= rate);
        let again = MoneyPerKilometre::new(upgraded).unwrap();
        assert_eq!(again.checked_charge(distance), Ok(fare));
    }
    assert_eq!(journey_fare_rate(1_960, 98_000, Some(12)), Some(20));
    assert_eq!(journey_fare_rate(1, 333, None), Some(3));
    assert_eq!(journey_fare_rate(0, 98_000, Some(12)), Some(12));
    assert_eq!(journey_fare_rate(1_960, 0, Some(12)), Some(12));
    assert_eq!(journey_fare_rate(-1, 98_000, Some(12)), Some(12));
    assert_eq!(journey_fare_rate(i64::MAX, 1, Some(12)), Some(12));
    assert_eq!(journey_fare_rate(0, 98_000, None), None);
}

#[test]
fn v37_migration_converts_remaining_access_credit_into_temporary_discount() {
    assert_eq!(discount_for_credit(60, 100_000), Some((5_000, 8 * 86_400)));
    assert_eq!(discount_for_credit(0, 100_000), None);
    assert_eq!(access_credit(100), Some(115));
}

#[test]
fn estimated_costs_follow_length_and_difficulty() {
    let lines = vec![
        PlannedLength { metres: 12_000, difficulty: ConstructionDifficulty::Low },
        PlannedLength { metres: 500, difficulty: ConstructionDifficulty::High },
    ];
    let short = PlannedLength { metres: 10_001, difficulty: ConstructionDifficulty::Low };
    assert_eq!(estimated_cost(&vec![short]), Some(1_200_120));
    let low = estimated_cost(&vec![lines[0]]).unwrap();
    let high = estimated_cost(&vec![lines[1]]).unwrap();
    let both = estimated_cost(&lines).unwrap();
    let base = estimated_cost(&vec![]).unwrap();
    assert_eq!(both - base, (low - base) + (high - base));
    assert!(low > base && high > base);
}

#[test]
fn replaced_models_keep_unknown_identities() {
    assert_eq!(replacement_model_id("local-70").name, "helvetra-r70");
    assert_eq!(replacement_model_id("helvetra-r70").name, "helvetra-r70");
    assert_eq!(replacement_model_id("something-else").name, "something-else");
    assert_eq!(catalogue_model_for_persisted_id(&catalogue(), "something-else"), None);
    assert_eq!(catalogue_model_for_legacy_signature(&catalogue(), "Local 70", 71, 25, 45), None);
}

#[test]
fn vehicle_numbers_of_a_model_count_up() {
    let catalogue = catalogue();
    let trains = vec![
        UnnumberedTrain { id: 1, model_id: "helvetra-r70".to_string() },
        UnnumberedTrain { id: 2, model_id: "veltrian-d121".to_string() },
        UnnumberedTrain { id: 3, model_id: "helvetra-r70".to_string() },
    ];
    let (numbered, sequences) = assign_vehicle_numbers(&trains, 67, &catalogue).unwrap();
    assert_eq!(numbered[0].evn.unit_number(), 1);
    assert_eq!(numbered[1].evn.unit_number(), 1);
    assert_eq!(numbered[2].evn.unit_number(), 2);
    assert_eq!(sequences.len(), 2);
    assert_eq!(sequences[0].next_unit_number, 3);
    assert_eq!(
        assign_vehicle_numbers(
            &vec![UnnumberedTrain { id: 1, model_id: "phantom".to_string() }],
            67,
            &catalogue
        ),
        Err(SaveCodecError::TrainModelNotFound { model_name: "phantom".to_string() })
    );
}

#[test]
fn stored_numbers_keep_their_domain() {
    assert_eq!(to_db_u64(7, "n"), Ok(7));
    assert_eq!(to_db_u64(u64::MAX, "n"), Err(SaveCodecError::InvalidValue { field: "n" }));
    assert_eq!(from_db_u64(7, "n"), Ok(7));
    assert_eq!(from_db_u64(-7, "n"), Err(SaveCodecError::InvalidValue { field: "n" }));
    assert_eq!(from_db_u32(7, "n"), Ok(7));
    assert_eq!(from_db_u32(1 << 32, "n"), Err(SaveCodecError::InvalidValue { field: "n" }));
    assert_eq!(row_u64(7, "n"), Ok(7));
    assert_eq!(row_u64(-7, "n"), Err(RowError { field: "n" }));
    assert_eq!(row_u32(7, "n"), Ok(7));
    assert_eq!(row_u32(-7, "n"), Err(RowError { field: "n" }));
    assert_eq!(parse_u64("18446744073709551615"), Some(u64::MAX));
    assert_eq!(parse_u64("18446744073709551616"), None);
    assert_eq!(parse_u64(""), None);
    assert_eq!(parse_u64("4 2"), None);
    assert_eq!(read_time(store_time(Some(at(-5)))), Some(at(-5)));
    assert_eq!(store_time(None), None);
}

fn undecodable(field: &'static str) -> Result<Option<GameState>, LoadError> {
    Err(LoadError::Row { action: DECODE_ROW, field })
}

fn invalid(field: &'static str) -> Result<Option<GameState>, LoadError> {
    Err(LoadError::Save(SaveCodecError::InvalidValue { field }))
}

#[test]
fn damaged_rows_are_refused() {
    let rows = insert_state(&active_game()).unwrap();

    let mut damaged = rows.clone();
    damaged.meta.world_seed = "seed".to_string();
    assert_eq!(load_state(&Some(damaged), RECENT), invalid("world seed"));

    let mut damaged = rows.clone();
    damaged.trains[0].id = "not an identity".to_string();
    assert_eq!(load_state(&Some(damaged), RECENT), undecodable("Train ID"));

    let mut damaged = rows.clone();
    damaged.trains[0].evn = "956707010017".to_string();
    assert_eq!(load_state(&Some(damaged), RECENT), undecodable("European Vehicle Number"));

    let mut damaged = rows.clone();
    damaged.services[0].direction_mode = "sideways".to_string();
    assert_eq!(load_state(&Some(damaged), RECENT), undecodable("Passenger Service direction mode"));

    let mut damaged = rows.clone();
    damaged.lines[0].electrification = "steam".to_string();
    assert_eq!(load_state(&Some(damaged), RECENT), undecodable("Rail Line electrification"));

    let mut damaged = rows.clone();
    damaged.lines[0].construction_difficulty = "none".to_string();
    assert_eq!(load_state(&Some(damaged), RECENT), undecodable("Rail Line construction difficulty"));

    let mut damaged = rows.clone();
    damaged.settlements[0].population = -1;
    assert_eq!(load_state(&Some(damaged), RECENT), undecodable("Settlement Population"));

    let mut damaged = rows.clone();
    damaged.company.vkm = "keeper".to_string();
    assert_eq!(load_state(&Some(damaged), RECENT), invalid("Player Company VKM"));

    let mut damaged = rows.clone();
    damaged.region.population = -1;
    assert_eq!(load_state(&Some(damaged), RECENT), invalid("Region Population"));

    let mut damaged = rows;
    damaged.rules.fare_cents_per_passenger_km = 0;
    assert_eq!(load_state(&Some(damaged), RECENT), invalid("fare rate"));
}

#[test]
fn rows_are_decoded_before_their_parts() {
    let mut rows = insert_state(&active_game()).unwrap();
    let mut second = rows.services[0].clone();
    second.id = "not an identity".to_string();
    rows.services[0].stop_station_ids[0] = "no station".to_string();
    rows.services[0].rail_line_ids[0] = "no line".to_string();
    assert_eq!(load_state(&Some(rows.clone()), RECENT), invalid("Rail Station ID"));
    rows.services.push(second);
    assert_eq!(load_state(&Some(rows), RECENT), undecodable("Passenger Service ID"));

    let mut rows = insert_state(&active_game()).unwrap();
    let mut second = rows.journeys[0].clone();
    second.train_id = "no train".to_string();
    rows.journeys[0].passenger_groups = vec![GroupRow {
        sequence: 0,
        origin_station_id: rows.journeys[0].origin_station_id.clone(),
        destination_station_id: rows.journeys[0].destination_station_id.clone(),
        passengers: -1,
        fare_cents: 0,
    }];
    assert_eq!(
        load_state(&Some(rows.clone()), RECENT),
        Err(LoadError::Row {
            action: "read Journey passenger group from",
            field: "Journey passenger group",
        })
    );
    rows.journeys.push(second);
    assert_eq!(load_state(&Some(rows), RECENT), undecodable("Train ID"));
}

#[test]
fn undecodable_rows_are_failures_of_the_database() {
    let error = load_error(
        LoadError::Row { action: DECODE_ROW, field: "Train ID" },
        "company.db",
    );
    assert_eq!(
        error,
        SaveSlotError::Database {
            action: "decode row from",
            path: "company.db".to_string(),
            source: "invalid SQLite value for Train ID".to_string(),
        }
    );
    assert_eq!(
        error.message(),
        "could not decode row from SQLite save company.db: invalid SQLite value for Train ID"
    );
    let reason = SaveCodecError::InvalidValue { field: "world seed" };
    assert_eq!(
        load_error(LoadError::Save(reason.clone()), "company.db"),
        SaveSlotError::InvalidSave { path: "company.db".to_string(), source: reason }
    );
}

#[test]
fn validation_reports_each_kind_of_fault() {
    let facts = facts();

    let mut state = active_game();
    let again = state.region.settlements[0].clone();
    state.region.settlements.push(again);
    assert_eq!(
        validate_game_state(&state, &facts),
        Err(SaveValidationError::DuplicateId { kind: "Settlement" })
    );

    let mut state = active_game();
    state.region.settlements[0].id = SettlementId { value: 0 };
    assert_eq!(
        validate_game_state(&state, &facts),
        Err(SaveValidationError::InvalidId { kind: "Settlement" })
    );

    let mut state = active_game();
    state.rules.demand.cap_duration = DurationSeconds::from_seconds(0);
    assert_eq!(
        validate_game_state(&state, &facts),
        Err(SaveValidationError::InvalidValue { field: "demand cap duration" })
    );

    let mut state = active_game();
    state.active_journeys[0].train_id = TrainId::new(9);
    assert!(validate_game_state(&state, &facts).is_err());

    let mut state = active_game();
    state.player_company.fleet.trains[0].status =
        TrainStatus::Travelling { journey_id: JourneyId::new(9) };
    assert_eq!(
        validate_game_state(&state, &facts),
        Err(SaveValidationError::DanglingReference { field: "travelling Train Journey" })
    );

    let mut state = active_game();
    state.region.population = 4_999;
    assert_eq!(
        validate_game_state(&state, &facts),
        Err(SaveValidationError::ImpossibleState {
            reason: "Region Population does not equal its Settlement Populations",
        })
    );
}

#[test]
fn fleets_hold_one_entry_for_each_key() {
    let facts = facts();
    let duplicate = Err(SaveValidationError::DuplicateId { kind: "Fleet entry" });

    let mut state = active_game();
    let train_id = state.player_company.fleet.trains[0].id;
    let service_id = state.player_company.passenger_services[0].id;
    let assignment = ServiceAssignment { train_id, service_id };
    state.player_company.fleet.service_assignments = vec![assignment];
    assert!(state.player_company.fleet.is_well_formed());
    assert_eq!(validate_game_state(&state, &facts), Ok(()));
    state.player_company.fleet.service_assignments.push(assignment);
    assert_eq!(validate_game_state(&state, &facts), duplicate);

    let mut state = active_game();
    let sequence = state.player_company.fleet.next_evn_unit_by_model[0].clone();
    state.player_company.fleet.next_evn_unit_by_model.push(sequence);
    assert!(!state.player_company.fleet.is_well_formed());
    assert_eq!(validate_game_state(&state, &facts), duplicate);
}

#[test]
fn white_space_is_that_of_unicode() {
    for character in '\0'..=char::MAX {
        assert_eq!(is_white_space(character), character.is_whitespace(), "{character:?}");
    }
    assert_eq!(trim("\u{3000} Alden\u{2009}\t"), "Alden");
}

#[test]
fn faults_and_errors_read_well() {
    assert_eq!(
        SaveValidationError::DuplicateId { kind: "Train" }.message(),
        "duplicate Train ID"
    );
    assert_eq!(
        SaveValidationError::Calculation(CalculationError::Overflow { operation: "fare" })
            .message(),
        "fare overflows its unit"
    );
    assert_eq!(
        SaveCodecError::TrainModelNotFound { model_name: "A \"B\"".to_string() }.message(),
        "saved Train model \"A \\\"B\\\"\" does not exist in the central catalogue"
    );
    assert_eq!(
        SaveSlotError::AlreadyOwned { path: "company.db".to_string() }.message(),
        "save slot company.db is already owned"
    );
}

#[test]
fn accepted_games_are_valid_games() {
    assert_eq!(accept_game(&active_game(), &facts()), Ok(()));
    let mut state = active_game();
    state.player_company.funds = cents(-1);
    assert_eq!(
        accept_game(&state, &facts()),
        Err(SaveCodecError::InvalidState(SaveValidationError::InvalidValue {
            field: "Company Funds or financial total",
        }))
    );
}

#[test]
fn slots_name_their_files() {
    assert_eq!(sidecar_lock_name("company.db"), "company.db.lock");
    assert_eq!(archive_name("company.db", 12, 3), "company.db.bankrupt-backup-12.3.db");
    assert!(preserves_receipt_history(&Some("42".to_string()), 42));
    assert!(!preserves_receipt_history(&Some("43".to_string()), 42));
    assert!(!preserves_receipt_history(&None, 42));
    assert!(imports_legacy_save(false, true));
    assert!(!imports_legacy_save(true, true));
    assert!(!imports_legacy_save(false, false));
}

#[test]
fn identities_read_back_what_they_write() {
    let id = TrainId::new(1234);
    assert_eq!(id.get(), 1234);
    assert!(id.is_v4());
    assert_eq!(TrainId::parse(&id.text()), Some(id));
    assert_eq!(TrainId::parse("00000005-0000-4000-8000-0000000004D2"), Some(id));
    assert_eq!(TrainId::parse("nonsense"), None);
    assert!(!TrainId { value: 0 }.is_v4());
}

#[test]
fn conflicting_projects_conflict_both_ways() {
    let first = project(
        1,
        InfrastructureProjectKind::Renewal { rail_line_ids: vec![RailLineId::new(1)] },
        InfrastructureProjectStatus::Requested,
        requested(0),
    );
    let second = project(
        2,
        InfrastructureProjectKind::Electrification {
            rail_line_ids: vec![RailLineId::new(2), RailLineId::new(1)],
        },
        InfrastructureProjectStatus::Requested,
        requested(0),
    );
    let third = project(
        3,
        InfrastructureProjectKind::StationUpgrade { rail_station_ids: vec![RailStationId::new(1)] },
        InfrastructureProjectStatus::Requested,
        requested(0),
    );
    assert!(first.conflicts_with(&second) && second.conflicts_with(&first));
    assert!(!first.conflicts_with(&third) && !third.conflicts_with(&first));
}

#[test]
fn suggested_contributions_respect_every_cap() {
    let funding = InfrastructureProjectFunding {
        estimated_cost: cents(100_000),
        authority_committed: cents(85_000),
        operator_contributed: cents(10_000),
        access_fee_discount: None,
    };
    assert_eq!(funding.funding_gap(), Ok(cents(5_000)));
    assert_eq!(funding.remaining_operator_contribution_capacity(), Ok(cents(10_000)));
    assert_eq!(funding.suggested_operator_contribution(cents(1_000_000)), Ok(cents(5_000)));
    assert_eq!(funding.suggested_operator_contribution(cents(300)), Ok(cents(300)));
    assert!(!funding.is_fully_funded());
}

#[test]
fn charges_round_up() {
    let rate = MoneyPerKilometre::new(35).unwrap();
    assert_eq!(rate.checked_charge(DistanceMetres::new(98_000).unwrap()), Ok(cents(3_430)));
    assert_eq!(rate.checked_charge(DistanceMetres::new(1).unwrap()), Ok(cents(1)));
    assert_eq!(
        cents(i64::MAX).checked_add(cents(1)),
        Err(CalculationError::Overflow { operation: "money addition" })
    );
}

#[test]
fn early_journeys_stand_on_the_last_leg_of_their_direction() {
    let stops: Vec<String> = ["a", "b", "c"].iter().map(|stop| stop.to_string()).collect();
    assert_eq!(resumed_stop_index("a", &stops), 1);
    assert_eq!(resumed_stop_index("c", &stops), 1);
    assert_eq!(resumed_stop_index("b", &stops), 0);
    assert_eq!(resumed_stop_index("a", &stops[..2].to_vec()), 0);
    assert_eq!(resumed_stop_index("b", &stops[..2].to_vec()), 1);
    assert_eq!(resumed_stop_index("a", &vec!["a".to_string()]), 0);
    assert_eq!(resumed_stop_index("a", &vec![]), 0);
}

#[test]
fn a_game_loads_with_its_latest_receipts() {
    let row = |id: &str, completed_at: Option<i64>| ReceiptRow {
        journey_id: id.to_string(),
        revenue_cents: 0,
        infrastructure_access_fee_cents: 0,
        fuel_cost_cents: 0,
        train_id: None,
        train_model_name: None,
        origin_station_id: None,
        destination_station_id: None,
        passengers_carried: None,
        passenger_capacity: None,
        completed_at,
        service_id: None,
        service_code: None,
        purpose: None,
        departed_at: None,
    };
    let history = vec![
        row("b", Some(20)),
        row("c", None),
        row("a", Some(20)),
        row("d", Some(-5)),
        row("ab", Some(20)),
    ];
    assert_eq!(recent_receipts(&history, 10), vec![1, 3, 2, 4, 0]);
    assert_eq!(recent_receipts(&history, 3), vec![2, 4, 0]);
    assert_eq!(recent_receipts(&history, 0), Vec::<usize>::new());
}

#[test]
fn games_load_with_the_latest_receipts() {
    let state = arrived_game();
    let mut rows = insert_state(&state).unwrap();
    let written = rows.receipts[0].clone();
    let mut kept = written.clone();
    kept.journey_id = JourneyId::new(77).text();
    kept.completed_at = Some(state.last_processed_at.seconds - 1);
    rows.receipts = vec![kept, written];

    let loaded = load_state(&Some(rows.clone()), 1).unwrap().unwrap();
    assert_eq!(loaded, state);
    assert_eq!(validate_game_state(&loaded, &facts()), Ok(()));
    let loaded = load_state(&Some(rows.clone()), 2).unwrap().unwrap();
    let receipts = &loaded.financials.recent_journey_receipts;
    assert_eq!(receipts.len(), 2);
    assert_eq!(receipts[0].journey_id, JourneyId::new(77));
    assert_eq!(receipts[1], state.financials.recent_journey_receipts[0]);
    rows.receipts[0].train_id = Some("no train".to_string());
    assert_eq!(load_state(&Some(rows.clone()), 1), Ok(Some(state)));
    assert_eq!(load_state(&Some(rows), 2), undecodable("Journey receipt Train ID"));
}
