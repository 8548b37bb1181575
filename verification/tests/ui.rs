use railq::model::catalogue::{TrainCatalogue, TrainModel};
use railq::model::company::{
    Financials, Fleet, Journey, JourneyPassengerGroup, JourneyPurpose, JourneyReceipt,
    OriginDestinationDemand, PassengerService, PlayerCompany, ServiceDirectionMode, Train,
    TrainStatus,
};
use railq::model::identity::{EuropeanVehicleNumber, TrainModelId, VehicleKeeperMark};
use railq::model::ids::{
    InfrastructureProjectId, JourneyId, RailLineId, RailStationId, ServiceId, SettlementId, TrainId,
};
use railq::model::network::{
    ConstructionDifficulty, Electrification, RailLine, RailNetwork, RailStation, Settlement,
    WorldPosition,
};
use railq::model::project::{
    InfrastructureAccessDiscount, InfrastructureProject, InfrastructureProjectFunding,
    InfrastructureProjectKind, InfrastructureProjectStatus, InfrastructureProjectTimeline,
    RailAuthority, RailAuthorityFinances,
};
use railq::model::state::{
    AuthorityRules, BalanceConfig, BulletinCategory, BulletinEntry, DemandRules, GameRules,
    GameState, RailwayRegistration, Region,
};
use railq::model::units::{
    DistanceMetres, DurationSeconds, MarketMaturity, Money, MoneyPerKilometre,
    PassengerArrivalRate, SpeedKilometresPerHour, TrackCount, UtcSeconds,
};
use railq::ui::authority::analytics::{
    AuthorityDashboardSnapshot, NextNetworkChange, ProgrammeCounts, ProgrammeStage,
};
use railq::ui::authority::contribution::{contribution_review_lines, ContributionReview};
use railq::ui::authority::dashboard::{
    authority_layout, compact_areas, compact_summary, delivery_card, identity_lines,
    investment_card, network_card, overview_lines, render_text, tiny_lines, wide_areas,
    AuthorityLayout,
};
use railq::ui::authority::format::{
    access_discount_label, deferred_next, maturity_label, maturity_percent, planning_stage_next,
    project_next, project_scope, project_status, ProjectOutlook, ReviewScore,
};
use railq::ui::authority::order::ordered_project_indices;
use railq::ui::authority::programme::{
    funding_percent, programme_page_size, programme_pipeline, programme_rows, progress_bar,
    stage_progress,
};
use railq::ui::authority::project::{
    is_measurable, milestones, preferred_project_detail_height, progress_line,
    project_context_lines, project_layout, project_summary, stage_focus_lines, total_metres,
    ProjectLayout,
};
use railq::ui::authority::selection::ProjectSelection;
use railq::ui::authority::workspace::{AuthorityWorkspace, AuthorityWorkspaceAction};
use railq::ui::bulletin::detail::{article_lines, empty_lines, entry_is_new, tiny_article};
use railq::ui::bulletin::filter::{category_count, filter_bar, visible_entries, BulletinFilter};
use railq::ui::bulletin::header::{
    development_count_label, lead_development, lead_summary, new_since_visit, summary_lines,
};
use railq::ui::bulletin::layout::{
    compact_areas as compact_bulletin, wide_areas as wide_bulletin, BulletinLayout,
};
use railq::ui::bulletin::log::{
    chronology_line, chronology_rows, development_group, log_page_size, selected_row,
    ChronologyRow, DevelopmentGroup,
};
use railq::ui::calendar::{
    civil_date_from_unix_days, construction_remaining_duration, format_project_timestamp,
    relative_time, CivilDate,
};
use railq::ui::company::analytics::{
    ActiveJourneyExposure, RecentJourneyPerformance, RECENT_JOURNEY_WINDOW,
};
use railq::ui::company::dashboard::{
    company_layout, compact_summary as company_summary, margin_card, network_lines, review_areas,
    service_lines,
    standing_lines, warning_lines, wide_areas as wide_company, CompanyLayout,
};
use railq::ui::company::editor::{VkmEditor, VkmEditorAction};
use railq::ui::company::figures::{operating_margin_label, settlement_coverage_label};
use railq::ui::company::receipts::{
    receipt_age_label, receipt_detail_lines, receipt_passenger_label, receipt_rows,
    receipt_title, receipt_train_label,
};
use railq::ui::company::recovery::{
    recovery_instructions, recovery_routes, train_ids_label, CompanyOutlook, FinancialEvaluation,
    FinancialStatus, RecoveryDestination, RecoveryJourney, RecoveryOption,
};
use railq::ui::company::report::render;
use railq::ui::company::selection::{ReceiptSelection, RecoverySelection};
use railq::ui::company::workspace::{CompanyWorkspace, CompanyWorkspaceAction};
use railq::ui::components::{
    empty_state_area, empty_state_width, overflows_line, split_words, wrap_empty_state_text,
    EmptyState,
};
use railq::ui::format::{compact_duration, distance, money, signed_cents};
use railq::ui::geometry::Rect;
use railq::ui::keys::{move_selection, KeyCode};
use railq::ui::shell::footer::{
    action_strip, contextual_controls, feedback, footer_height, footer_shortcuts,
    partition_shortcuts, shortcut_line, shortcut_line_width, FooterShortcut,
};
use railq::ui::shell::help::{
    append_help_line, help_document, help_lines, help_page, help_scroll, parse_help_action,
    HelpLine,
};
use railq::ui::shell::status::{
    line_columns, nearest_eta, shell_status_line, shorten, status_gap, train_counts,
};
use railq::ui::shell::view::{
    footer_source, help_source, tab_label, FooterSource, HelpSource, PrimaryView, ShellState,
    Utilities, Workspace,
};
use railq::ui::style::{Page, StyledLine, Tone};

fn at(seconds: i64) -> UtcSeconds {
    UtcSeconds::from_unix_seconds(seconds)
}

fn cents(cents: i64) -> Money {
    Money::from_cents(cents)
}

fn hours(hours: u64) -> DurationSeconds {
    DurationSeconds::from_seconds(hours * 3_600)
}

fn texts(page: &Page) -> Vec<String> {
    page.lines.iter().map(|line| line.text()).collect()
}

fn line(id: u64, first: u64, second: u64, metres: i64) -> RailLine {
    RailLine {
        id: RailLineId::new(id),
        first_station_id: RailStationId::new(first),
        second_station_id: RailStationId::new(second),
        distance: DistanceMetres::new(metres).unwrap(),
        speed_limit: SpeedKilometresPerHour::new(70).unwrap(),
        track_count: TrackCount::single(),
        electrification: Electrification::Unelectrified,
        construction_difficulty: ConstructionDifficulty::Moderate,
    }
}

fn settlement(id: u64, name: &str) -> Settlement {
    Settlement {
        id: SettlementId::new(id),
        name: name.to_string(),
        population: 1_000,
        position: WorldPosition { x: 0, y: 0 },
    }
}

fn station(id: u64) -> RailStation {
    RailStation { id: RailStationId::new(id), settlement_id: SettlementId::new(id) }
}

fn timeline(requested_at: i64) -> InfrastructureProjectTimeline {
    InfrastructureProjectTimeline {
        requested_at: at(requested_at),
        review_started_at: None,
        proposed_at: None,
        approved_at: None,
        funding_completed_at: None,
        scheduled_start_at: None,
        construction_started_at: None,
        planned_completion_at: None,
        completed_at: None,
        deferred_at: None,
        cancelled_at: None,
        reconsideration_count: 0,
    }
}

/// A connection from Bellhaven to Corin, requested at the start of the game.
fn requested_project() -> InfrastructureProject {
    InfrastructureProject {
        id: InfrastructureProjectId::new(1),
        kind: InfrastructureProjectKind::NewLine {
            planned_stations: vec![station(3)],
            planned_lines: vec![line(2, 2, 3, 12_000)],
        },
        status: InfrastructureProjectStatus::Requested,
        timeline: timeline(0),
        funding: InfrastructureProjectFunding {
            estimated_cost: cents(1_000_000),
            authority_committed: cents(0),
            operator_contributed: cents(0),
            access_fee_discount: None,
        },
    }
}

fn new_game(name: &str, now: UtcSeconds) -> GameState {
    GameState {
        world_seed: 42,
        region: Region {
            name: "Federation of Varelia".to_string(),
            railway_registration: RailwayRegistration { numeric_code: 67, mark: "VA".to_string() },
            population: 3_000,
            settlements: vec![
                settlement(1, "Alden"),
                settlement(2, "Bellhaven"),
                settlement(3, "Corin"),
            ],
            bulletin: vec![],
            rail_authority: RailAuthority {
                name: "Varelia Rail Authority".to_string(),
                rail_network: RailNetwork {
                    rail_stations: vec![station(1), station(2)],
                    rail_lines: vec![line(1, 1, 2, 98_000)],
                },
                finances: RailAuthorityFinances {
                    treasury: cents(10_000_000),
                    maintenance_reserve: cents(500_000),
                    committed_investment: cents(0),
                    carried_over_funds: cents(0),
                    regional_public_allocation: cents(10_000_000),
                    infrastructure_access_fee_revenue: cents(0),
                    next_fiscal_period_at: Some(at(86_400)),
                },
                construction_capacity: 1,
                infrastructure_projects: vec![requested_project()],
            },
        },
        player_company: PlayerCompany {
            name: name.to_string(),
            vehicle_keeper_mark: VehicleKeeperMark::parse("OMP").unwrap(),
            funds: cents(500_000),
            fleet: Fleet {
                trains: vec![],
                next_train_display_number: 1,
                next_evn_unit_by_model: vec![],
                service_assignments: vec![],
            },
            passenger_services: vec![],
        },
        origin_destination_demand: vec![OriginDestinationDemand {
            origin_station_id: RailStationId::new(1),
            destination_station_id: RailStationId::new(2),
            waiting_passengers: 0,
            market_maturity: MarketMaturity::from_basis_points(10_000).unwrap(),
            passenger_arrival_rate_per_hour: PassengerArrivalRate::new(4).unwrap(),
            fractional_passenger_seconds: 0,
        }],
        active_journeys: vec![],
        financials: Financials {
            operating_revenue: cents(0),
            infrastructure_access_fees: cents(0),
            fuel_costs: cents(0),
            recent_journey_receipts: vec![],
        },
        rules: GameRules {
            balance: BalanceConfig {
                fare_per_passenger_kilometre: MoneyPerKilometre::new(12).unwrap(),
                access_fee_per_train_kilometre: MoneyPerKilometre::new(35).unwrap(),
                starting_company_funds: cents(500_000),
            },
            demand: DemandRules { cap_duration: hours(24) },
            authority: AuthorityRules {
                request_queue_delay: hours(1),
                review_duration: hours(2),
                proposal_duration: hours(1),
                council_request_cooldown: hours(24),
                deferred_reconsideration_delay: hours(24),
                construction_mobilisation_delay: hours(1),
                new_line_base_construction_duration: hours(5),
                low_difficulty_seconds_per_kilometre: 120,
                moderate_difficulty_seconds_per_kilometre: 180,
                high_difficulty_seconds_per_kilometre: 240,
                max_active_expansion_projects: 2,
            },
        },
        last_processed_at: now,
        bulletin_seen_count: 0,
    }
}

fn outlook(adoption: u16) -> ProjectOutlook {
    ProjectOutlook {
        reconsideration_threshold: 5_500,
        local_adoption: Some(adoption),
        review: None,
    }
}

fn outlooks(state: &GameState) -> Vec<ProjectOutlook> {
    state
        .region
        .rail_authority
        .infrastructure_projects
        .iter()
        .map(|_| outlook(10_000))
        .collect()
}

#[test]
fn authority_render_exposes_budget_and_project_pipeline() {
    let state = new_game("One More Prime", at(0));

    let output = render_text(&state, &outlooks(&state), at(0));
    assert!(output.contains("Treasury:"));
    assert!(output.contains("Available investment:"));
    assert!(output.contains("Next fiscal period:"));
    assert!(output.contains("Projects:"));
    assert!(output.contains("Council request"));
    assert!(output.contains("Review in 1h"));
    assert!(output.contains(" → "));
}

#[test]
fn the_textual_dashboard_is_exact() {
    let state = new_game("One More Prime", at(0));
    let workspace = AuthorityWorkspace::default();
    assert_eq!(
        workspace.render_text(&state, &outlooks(&state), at(0)),
        "Varelia Rail Authority\n\
         Treasury: $100,000.00\n\
         Available investment: $95,000.00\n\
         Maintenance reserve: $5,000.00\n\
         Committed projects: $0.00\n\
         Next fiscal period: +$100,000.00 · in 1d\n\
         Access-fee revenue: $0.00\n\
         Construction slots: 0/1 reserved\n\
         Projects:\n\
         01  Council request  New line · Bellhaven → Corin  Review in 1h\n"
    );
}

#[test]
fn deferred_project_render_exposes_reconsideration_gates() {
    let now = at(0);
    let mut state = new_game("One More Prime", now);
    let project = state.region.rail_authority.infrastructure_projects.first_mut().unwrap();
    project.status = InfrastructureProjectStatus::Deferred;
    project.timeline.deferred_at = Some(now);

    let output = render_text(&state, &vec![outlook(2_500)], now);
    assert!(output.contains("Eligible in 1d · needs 55% adoption"));
}

#[test]
fn deferred_projects_wait_for_their_gates() {
    let mut state = new_game("One More Prime", at(0));
    state.region.rail_authority.infrastructure_projects[0].timeline.deferred_at = Some(at(0));
    let project = state.region.rail_authority.infrastructure_projects[0].clone();
    let day = at(86_400);
    assert_eq!(deferred_next(&state, &project, &outlook(6_000), day), "Reconsideration ready");
    assert_eq!(deferred_next(&state, &project, &outlook(2_500), day), "Needs 55% adoption");
    assert_eq!(deferred_next(&state, &project, &outlook(6_000), at(0)), "Eligible in 1d");
    let closed = ProjectOutlook {
        reconsideration_threshold: 10_001,
        local_adoption: None,
        review: None,
    };
    assert_eq!(deferred_next(&state, &project, &closed, day), "No further automatic review");
    let free =
        ProjectOutlook { reconsideration_threshold: 0, local_adoption: None, review: None };
    assert_eq!(deferred_next(&state, &project, &free, day), "Reconsideration ready");
}

#[test]
fn planning_stage_countdown_exposes_configured_cadence() {
    let started = at(1_000);
    let delay = DurationSeconds::from_seconds(60 * 60);

    assert_eq!(planning_stage_next("Review", started, delay, started), "Review in 1h");
    assert_eq!(planning_stage_next("Review", started, delay, at(4_600)), "Review ready");
    assert_eq!(
        planning_stage_next("Review", at(i64::MAX), delay, started),
        "Review pending"
    );
}

#[test]
fn formats_project_times_without_seconds() {
    let now = at(1_700_000_000);
    assert_eq!(format_project_timestamp(at(1_700_003_600), now), "Today 23:13 UTC");
    assert_eq!(compact_duration(8_110), "2h 15m");
    assert_eq!(compact_duration(42), "42s");
    assert_eq!(construction_remaining_duration(1_811), "30m");
    assert_eq!(construction_remaining_duration(1_800), "30m 00s");
    assert_eq!(construction_remaining_duration(1_742), "29m 02s");
    assert_eq!(construction_remaining_duration(42), "42s");
}

#[test]
fn dates_follow_the_calendar() {
    assert_eq!(civil_date_from_unix_days(0), CivilDate { year: 1970, month: 1, day: 1 });
    assert_eq!(civil_date_from_unix_days(-1), CivilDate { year: 1969, month: 12, day: 31 });
    assert_eq!(civil_date_from_unix_days(11_016), CivilDate { year: 2000, month: 2, day: 29 });
    assert_eq!(civil_date_from_unix_days(19_676), CivilDate { year: 2023, month: 11, day: 15 });
    assert_eq!(civil_date_from_unix_days(-719_162), CivilDate { year: 1, month: 1, day: 1 });
    assert_eq!(civil_date_from_unix_days(-719_528), CivilDate { year: 0, month: 1, day: 1 });
    assert_eq!(format_project_timestamp(at(86_400), at(0)), "Tomorrow 00:00 UTC");
    assert_eq!(format_project_timestamp(at(951_782_400), at(0)), "2000-02-29 00:00 UTC");
    assert_eq!(format_project_timestamp(at(-1), at(0)), "1969-12-31 23:59 UTC");
    assert_eq!(relative_time(at(0), at(0)), "now");
    assert_eq!(relative_time(at(90_000), at(0)), "in 1d 1h");
    assert_eq!(relative_time(at(0), at(59)), "59s ago");
    assert_eq!(relative_time(at(i64::MIN), at(1)), "106751991167300d 15h ago");
}

#[test]
fn access_discount_labels_show_remaining_time_and_expiry_state() {
    let discount = InfrastructureAccessDiscount { basis_points: 5_000, expires_at: at(8 * 86_400) };

    assert_eq!(
        access_discount_label(discount, at(2 * 86_400 + 11 * 3_600)),
        "50% · 5d 13h remaining"
    );
    assert_eq!(access_discount_label(discount, at(8 * 86_400)), "50% · expired");
}

#[test]
fn project_selection_tracks_project_identity() {
    let state = new_game("One More Prime", at(0));
    let mut selection = ProjectSelection::default();
    selection.handle_key(KeyCode::Down, &state);
    assert!(selection.selected_project(&state).is_some());
}

#[test]
fn a_selected_project_stays_selected_when_the_order_changes() {
    let mut state = new_game("One More Prime", at(0));
    let mut second = requested_project();
    second.id = InfrastructureProjectId::new(2);
    second.timeline.requested_at = at(10);
    state.region.rail_authority.infrastructure_projects.push(second);
    let mut selection = ProjectSelection::default();
    selection.handle_key(KeyCode::Down, &state);
    assert_eq!(selection.selected_project_id(&state), Some(InfrastructureProjectId::new(2)));
    assert_eq!(selection.table.selected, Some(1));

    let projects = &mut state.region.rail_authority.infrastructure_projects;
    projects[1].status = InfrastructureProjectStatus::Construction;
    assert_eq!(ordered_project_indices(projects), vec![1, 0]);
    assert_eq!(selection.selected_project_id(&state), Some(InfrastructureProjectId::new(2)));
    assert_eq!(selection.table.selected, Some(0));
}

#[test]
fn the_programme_orders_delivery_before_planning_and_history() {
    let kinds = [
        InfrastructureProjectStatus::Cancelled,
        InfrastructureProjectStatus::Open,
        InfrastructureProjectStatus::Deferred,
        InfrastructureProjectStatus::Requested,
        InfrastructureProjectStatus::Funding,
        InfrastructureProjectStatus::Scheduled,
        InfrastructureProjectStatus::Construction,
        InfrastructureProjectStatus::Open,
    ];
    let mut projects = vec![];
    for (index, status) in kinds.into_iter().enumerate() {
        let mut project = requested_project();
        project.id = InfrastructureProjectId::new(index as u64 + 1);
        project.status = status;
        project.timeline.completed_at = Some(at(index as i64));
        projects.push(project);
    }
    assert_eq!(ordered_project_indices(&projects), vec![6, 5, 4, 3, 2, 7, 1, 0]);
    assert_eq!(programme_page_size(10, &projects), 6);
    assert_eq!(programme_page_size(3, &projects), 1);
}

#[test]
fn authority_workspace_owns_project_navigation_and_missing_contribution_feedback() {
    let mut state = new_game("One More Prime", at(0));
    state.region.rail_authority.infrastructure_projects.clear();
    let mut workspace = AuthorityWorkspace::default();
    let shortcuts = workspace.shortcuts(&state, false, true);
    assert_eq!(shortcuts.len(), 1);
    assert_eq!(shortcuts[0].key, "↑↓");
    assert!(!shortcuts[0].enabled);
    assert!(!shortcuts.iter().any(|shortcut| shortcut.key == "F"));

    assert_eq!(
        workspace.handle_key(KeyCode::Down, &state),
        AuthorityWorkspaceAction::Continue
    );
    assert_eq!(
        workspace.handle_key(KeyCode::Char('f'), &state),
        AuthorityWorkspaceAction::Notice("Select an infrastructure project first.".into())
    );
    assert!(!workspace.has_modal());
}

#[test]
fn authority_shortcuts_only_advertise_page_navigation_when_the_programme_pages() {
    let mut state = new_game("One More Prime", at(0));
    let template = state.region.rail_authority.infrastructure_projects.first().unwrap().clone();
    let mut workspace = AuthorityWorkspace::default();
    workspace.selection.set_page_size(4);
    assert!(!workspace
        .shortcuts(&state, false, true)
        .iter()
        .any(|shortcut| shortcut.key == "PgUp/PgDn"));

    state
        .region
        .rail_authority
        .infrastructure_projects
        .extend((0..5).map(|_| template.clone()));
    assert!(workspace
        .shortcuts(&state, false, false)
        .iter()
        .any(|shortcut| shortcut.key == "PgUp/PgDn" && shortcut.enabled));
}

#[test]
fn authority_workspace_owns_contribution_review_lifecycle() {
    let mut state = new_game("One More Prime", at(0));
    let mut workspace = AuthorityWorkspace::default();
    assert!(!workspace
        .shortcuts(&state, false, true)
        .iter()
        .any(|shortcut| shortcut.key == "F"));

    state.region.rail_authority.infrastructure_projects[0].status =
        InfrastructureProjectStatus::Funding;

    assert!(workspace.can_contribute(&state));
    assert!(workspace
        .shortcuts(&state, false, true)
        .iter()
        .any(|shortcut| shortcut.key == "F" && shortcut.enabled));
    assert_eq!(
        workspace.handle_key(KeyCode::Char('f'), &state),
        AuthorityWorkspaceAction::ClearNotice
    );
    assert!(workspace.has_modal());
    let modal_shortcuts = workspace.shortcuts(&state, false, true);
    assert_eq!(
        modal_shortcuts.iter().map(|shortcut| shortcut.key.as_str()).collect::<Vec<_>>(),
        vec!["Enter", "Esc"]
    );
    assert_eq!(
        workspace.help_lines().first().map(String::as_str),
        Some("Current · Infrastructure Contribution")
    );

    let action = workspace.handle_key(KeyCode::Enter, &state);
    assert!(matches!(
        action,
        AuthorityWorkspaceAction::Contribute { amount, .. } if amount > Money::zero()
    ));
    assert!(workspace.has_modal());

    let amount = workspace.confirm_saved();
    assert!(amount > Money::zero());
    assert!(!workspace.has_modal());
}

#[test]
fn contributions_are_refused_with_a_reason() {
    let mut state = new_game("One More Prime", at(0));
    let id = InfrastructureProjectId::new(1);
    assert_eq!(
        ContributionReview::start(&state, InfrastructureProjectId::new(9)),
        Err("The selected infrastructure project is no longer available.")
    );
    assert_eq!(
        ContributionReview::start(&state, id),
        Err("Contributions are accepted only while a project is in Funding.")
    );
    state.region.rail_authority.infrastructure_projects[0].status =
        InfrastructureProjectStatus::Funding;
    assert_eq!(
        ContributionReview::start(&state, id),
        Ok(ContributionReview { project_id: id, amount: cents(100_000) })
    );
    state.player_company.funds = cents(0);
    assert_eq!(
        ContributionReview::start(&state, id),
        Err("No contribution can be made from the current Company Funds and project funding gap.")
    );
    state.region.rail_authority.infrastructure_projects[0].funding.authority_committed =
        cents(i64::MAX);
    state.region.rail_authority.infrastructure_projects[0].funding.operator_contributed = cents(1);
    assert_eq!(
        ContributionReview::start(&state, id),
        Err("The contribution amount could not be calculated.")
    );
}

#[test]
fn a_review_shows_what_a_contribution_means() {
    let state = new_game("One More Prime", at(0));
    let review =
        ContributionReview { project_id: InfrastructureProjectId::new(1), amount: cents(100_000) };
    let lines = texts(&contribution_review_lines(&state, review).unwrap());
    assert_eq!(lines.len(), 12);
    assert_eq!(lines[0], "Project  New line · Bellhaven → Corin");
    assert_eq!(lines[2], "Company Funds  $5,000.00");
    assert_eq!(lines[3], "Contribution  $1,000.00");
    assert_eq!(lines[5], "Access discount after opening  50% for 7 fiscal days");
    assert_eq!(lines[6], "Contribution capacity  $2,000.00");
    let gone =
        ContributionReview { project_id: InfrastructureProjectId::new(9), amount: cents(1) };
    assert!(contribution_review_lines(&state, gone).is_none());
}

#[test]
fn authority_dashboard_uses_stable_responsive_breakpoints() {
    assert_eq!(authority_layout(Rect::new(0, 0, 120, 34)), AuthorityLayout::Wide);
    assert_eq!(authority_layout(Rect::new(0, 0, 96, 24)), AuthorityLayout::Compact);
    assert_eq!(authority_layout(Rect::new(0, 0, 72, 16)), AuthorityLayout::Compact);
    assert_eq!(authority_layout(Rect::new(0, 0, 71, 20)), AuthorityLayout::Tiny);
    assert_eq!(authority_layout(Rect::new(0, 0, 120, 15)), AuthorityLayout::Tiny);
}

#[test]
fn authority_areas_divide_the_dashboard() {
    let areas = wide_areas(Rect::new(1, 1, 118, 48), 3);
    assert_eq!(areas.programme.height, 2);
    assert_eq!(areas.investment.height, 6);
    assert_eq!(areas.pipeline.height, 2);
    assert_eq!(areas.projects.height, 6);
    assert!(areas.project.y > areas.projects.y);
    let areas = wide_areas(Rect::new(0, 0, 118, 26), 3);
    assert_eq!(areas.projects.y, areas.project.y);
    assert!(areas.projects.width > areas.project.width);
    let areas = compact_areas(Rect::new(0, 0, 80, 20));
    assert_eq!(areas.summary.height, 4);
    assert_eq!(areas.projects.height, 7);
    assert!(areas.project.is_some());
    assert!(compact_areas(Rect::new(0, 0, 80, 19)).project.is_none());
    assert_eq!(project_layout(Rect::new(0, 0, 80, 0)), ProjectLayout::Hidden);
    assert!(matches!(project_layout(Rect::new(0, 0, 80, 9)), ProjectLayout::Summary { .. }));
    assert!(matches!(
        project_layout(Rect::new(0, 0, 80, 12)),
        ProjectLayout::Brief { header, .. } if header.height == 2
    ));
    assert!(matches!(
        project_layout(Rect::new(0, 0, 90, 20)),
        ProjectLayout::Full { context, stage, .. } if context.y == stage.y && context.x < stage.x
    ));
    assert!(matches!(
        project_layout(Rect::new(0, 0, 60, 20)),
        ProjectLayout::Full { context, stage, .. } if context.y > stage.y && context.x == stage.x
    ));
}

#[test]
fn the_snapshot_counts_the_programme() {
    let mut state = new_game("One More Prime", at(0));
    let mut building = requested_project();
    building.id = InfrastructureProjectId::new(2);
    building.status = InfrastructureProjectStatus::Construction;
    building.timeline.planned_completion_at = Some(at(7_200));
    let mut later = building.clone();
    later.id = InfrastructureProjectId::new(3);
    later.timeline.planned_completion_at = Some(at(9_000));
    let mut cancelled = requested_project();
    cancelled.id = InfrastructureProjectId::new(4);
    cancelled.status = InfrastructureProjectStatus::Cancelled;
    state
        .region
        .rail_authority
        .infrastructure_projects
        .extend([later, building, cancelled]);

    let snapshot = AuthorityDashboardSnapshot::from_state(&state);
    assert_eq!(
        snapshot.programme,
        ProgrammeCounts { planning: 1, funding: 0, queued: 0, building: 2, open: 0, deferred: 0 }
    );
    assert_eq!(snapshot.programme.pipeline(), 3);
    assert_eq!(
        snapshot.next_network_change,
        Some(NextNetworkChange {
            project_id: InfrastructureProjectId::new(2),
            opens_at: at(7_200),
        })
    );
    assert_eq!(snapshot.available_investment, Some(cents(9_500_000)));
    assert_eq!(snapshot.free_construction, 0);

    assert_eq!(
        texts(&overview_lines(&state, &snapshot, at(0))),
        vec![
            "PROGRAMME ACTIVE · 2 building · 0 funding · 0 open",
            "NEXT NETWORK CHANGE  Bellhaven → Corin · opens in 2h",
        ]
    );
    assert_eq!(
        texts(&identity_lines(&state, &snapshot, at(0))),
        vec!["Varelia Rail Authority", "Federation of Varelia · next allocation in 1d"]
    );
    assert_eq!(
        texts(&investment_card(&snapshot)),
        vec![
            "$95,000.00 available",
            "Treasury $100,000.00",
            "Reserve $5,000.00",
            "Committed $0.00",
        ]
    );
    assert_eq!(
        texts(&delivery_card(&snapshot, at(0))),
        vec!["2 / 1", "construction slots reserved", "CAPACITY FULL", "Next release in 2h"]
    );
    assert_eq!(
        texts(&network_card(&state, &snapshot)),
        vec![
            "2 stations",
            "1 segments in service",
            "+1 station · +12.0 km underway",
            "3 projects in pipeline",
        ]
    );
    assert_eq!(
        texts(&compact_summary(&state, &snapshot, at(0)))[2],
        "Delivery  2/1 slots   Next allocation  +$100,000.00 · in 1d"
    );
    assert_eq!(
        texts(&programme_pipeline(snapshot.programme))[1],
        "PLANNING 1  →  FUNDING 0  →  QUEUED 0  →  BUILDING 2  →  OPEN 0"
    );
    assert_eq!(
        texts(&tiny_lines(&state, &snapshot, &outlooks(&state), at(0), Some(0)))[3..],
        ["PROJECT 01  New line · Bellhaven → Corin", "REQUESTED · Review in 1h"]
    );
}

#[test]
fn the_programme_table_lists_projects_in_order() {
    let mut state = new_game("One More Prime", at(0));
    let mut open = requested_project();
    open.id = InfrastructureProjectId::new(2);
    open.status = InfrastructureProjectStatus::Open;
    state.region.rail_authority.infrastructure_projects.insert(0, open);
    let rows = programme_rows(&state, &outlooks(&state), at(0), false);
    assert_eq!(rows.len(), 2);
    let first: Vec<&str> = rows[0].cells.iter().map(|cell| cell.text.as_str()).collect();
    assert_eq!(
        first,
        vec![
            "02",
            "PLANNING",
            "New line · Bellhaven → Corin",
            "$10,000.00",
            "Awaiting review",
            "Review in 1h",
        ]
    );
    assert!(rows[0].parted_below && rows[0].cells[3].right_aligned);
    assert_eq!(rows[1].cells[5].text, "—");
    assert_eq!(programme_rows(&state, &outlooks(&state), at(0), true)[1].cells.len(), 4);
}

#[test]
fn progress_is_shown_in_blocks() {
    assert_eq!(progress_bar(0), "░░░░░░   0%");
    assert_eq!(progress_bar(50), "███░░░  50%");
    assert_eq!(progress_bar(100), "██████ 100%");
    assert_eq!(progress_line("Funding", 44).text(), "Funding           ████░░░░░░  44%");
    let mut project = requested_project();
    project.status = InfrastructureProjectStatus::Funding;
    project.funding.authority_committed = cents(330_000);
    assert_eq!(funding_percent(&project.funding), 33);
    assert_eq!(stage_progress(&project, at(0)), "█░░░░░  33%");
    project.status = InfrastructureProjectStatus::Construction;
    assert_eq!(stage_progress(&project, at(0)), "Mobilising");
    project.timeline.construction_started_at = Some(at(0));
    assert_eq!(stage_progress(&project, at(0)), "In progress");
    project.timeline.planned_completion_at = Some(at(200));
    assert_eq!(stage_progress(&project, at(50)), "█░░░░░  25%");
    assert_eq!(stage_progress(&project, at(900)), "██████ 100%");
}

#[test]
fn a_selected_project_shows_what_matters_now() {
    let state = new_game("One More Prime", at(0));
    let project = requested_project();
    let judged = ProjectOutlook {
        reconsideration_threshold: 5_500,
        local_adoption: Some(4_200),
        review: Some(ReviewScore {
            total: 61,
            population: 20,
            latent_demand: 25,
            network_usefulness: 10,
            regional_development: 12,
            construction_cost_penalty: 6,
            approval_threshold: 60,
            rejection_threshold: 35,
        }),
    };
    assert!(is_measurable(&project.kind));
    assert_eq!(
        texts(&project_context_lines(&state.region, &project, &judged)),
        vec![
            "DEVELOPMENT CASE",
            "Requested by      Corin Council",
            "Rail adoption     42% · Growing",
            "",
            "INFRASTRUCTURE",
            "Route             Bellhaven → Corin",
            "New station       Corin",
            "New track         12.0 km",
            "Capability        70 km/h · 1 track · non-electrified · moderate",
        ]
    );
    assert_eq!(
        texts(&stage_focus_lines(&state, &project, &judged, at(0))),
        vec![
            "AUTHORITY REVIEW",
            "Status            REQUESTED",
            "Next              Review in 1h",
            "Current case      61 / 60",
            "Public value      +20 pop · +25 demand · +10 network",
            "Regional / cost   +12 development · -6 build",
            "Decision bands    approve ≥60 · defer 35–59 · reject <35",
        ]
    );
    assert_eq!(
        preferred_project_detail_height(&state, Some(0), &vec![judged], at(0)),
        16
    );
    assert_eq!(preferred_project_detail_height(&state, None, &vec![judged], at(0)), 8);
    assert_eq!(
        texts(&project_summary(&state, 0, &project, &judged, at(0), 3)),
        vec![
            "PROJECT 01 · Bellhaven → Corin",
            "PLANNING · Review in 1h",
            "Budget  $10,000.00 · Operator  $0.00",
        ]
    );
    assert_eq!(
        milestones(&project.timeline, at(3_600)).text(),
        "MILESTONES  Requested 1h ago"
    );
}

#[test]
fn a_project_in_delivery_shows_its_money() {
    let state = new_game("One More Prime", at(0));
    let mut project = requested_project();
    project.status = InfrastructureProjectStatus::Funding;
    assert_eq!(
        texts(&stage_focus_lines(&state, &project, &outlook(0), at(0))),
        vec![
            "FUNDING",
            "Funding           ░░░░░░░░░░  0%",
            "Estimated cost    $10,000.00",
            "Authority funding $0.00",
            "Funding gap       $10,000.00",
            "",
            "YOUR INVOLVEMENT",
            "Contribution      $0.00",
            "Contribution room $2,000.00",
            "Potential benefit 50% · 7 fiscal days after opening",
        ]
    );
    project.status = InfrastructureProjectStatus::Construction;
    project.timeline.construction_started_at = Some(at(0));
    project.timeline.planned_completion_at = Some(at(3_600));
    assert_eq!(
        texts(&stage_focus_lines(&state, &project, &outlook(0), at(1_800)))[..5],
        [
            "DELIVERY & FUNDING",
            "Construction      █████░░░░░  50%",
            "Remaining         30m 00s",
            "Started           30m ago",
            "Opens             Today 01:00 UTC",
        ]
    );
    project.status = InfrastructureProjectStatus::Cancelled;
    project.timeline.cancelled_at = Some(at(0));
    assert_eq!(
        texts(&stage_focus_lines(&state, &project, &outlook(0), at(0)))[..3],
        [
            "PROJECT OUTCOME",
            "Status            CANCELLED",
            "Cancelled         Today 00:00 UTC · now",
        ]
    );
}

#[test]
fn project_words_follow_the_status() {
    let state = new_game("One More Prime", at(0));
    let mut project = requested_project();
    assert_eq!(project_status(project.status), "REQUESTED");
    assert_eq!(project_scope(&state.region, &project), "New line · Bellhaven → Corin");
    project.status = InfrastructureProjectStatus::Scheduled;
    project.timeline.scheduled_start_at = Some(at(60));
    assert_eq!(project_next(&state, &project, &outlook(0), at(0)), "Starts in 1m");
    project.status = InfrastructureProjectStatus::Funding;
    assert_eq!(
        project_next(&state, &project, &outlook(0), at(0)),
        "Still needs $10,000.00"
    );
    project.kind =
        InfrastructureProjectKind::Renewal { rail_line_ids: vec![RailLineId::new(1)] };
    assert_eq!(project_scope(&state.region, &project), "Renewal · 1 segment(s)");
    assert_eq!(ProgrammeStage::from_status(project.status), ProgrammeStage::Funding);
    assert_eq!(maturity_percent(4_250), "43%");
    assert_eq!(maturity_label(6_000), "Established");
    assert_eq!(total_metres(&vec![line(1, 1, 2, 5), line(2, 1, 2, 7)]), Some(12));
}

#[test]
fn visit_boundary_marks_only_unseen_entries_as_new() {
    assert!(entry_is_new(4, 4));
    assert!(entry_is_new(5, 4));
    assert!(!entry_is_new(3, 4));
}

fn development(seconds: i64, category: BulletinCategory, headline: &str) -> BulletinEntry {
    BulletinEntry {
        occurred_at: at(seconds),
        category,
        headline: headline.to_string(),
        detail: "Detail".to_string(),
    }
}

#[test]
fn category_counts_include_all_and_each_bulletin_type() {
    let mut state = new_game("Count Rail", at(1));
    state.region.bulletin = vec![
        development(10, BulletinCategory::Local, "Local"),
        development(20, BulletinCategory::Authority, "Authority"),
        development(30, BulletinCategory::Authority, "Authority again"),
    ];
    let entries = &state.region.bulletin;

    assert_eq!(category_count(entries, BulletinFilter::All), 3);
    assert_eq!(category_count(entries, BulletinFilter::Local), 1);
    assert_eq!(category_count(entries, BulletinFilter::Authority), 2);
    assert_eq!(category_count(entries, BulletinFilter::Construction), 0);
    assert_eq!(category_count(entries, BulletinFilter::Network), 0);
}

#[test]
fn views_show_their_category_newest_first() {
    let entries = vec![
        development(10, BulletinCategory::Local, "Local"),
        development(20, BulletinCategory::Authority, "Authority"),
        development(30, BulletinCategory::Authority, "Authority again"),
    ];
    assert_eq!(visible_entries(&entries, BulletinFilter::All), vec![2, 1, 0]);
    assert_eq!(visible_entries(&entries, BulletinFilter::Authority), vec![2, 1]);
    assert_eq!(visible_entries(&entries, BulletinFilter::Network), vec![]);
    assert_eq!(
        filter_bar(&entries, BulletinFilter::Authority).text(),
        "VIEW  ALL 3   LOCAL 1   [AUTHORITY 2]   CONSTRUCTION 0   NETWORK 0"
    );
    assert_eq!(
        texts(&summary_lines(&entries, BulletinFilter::Authority, at(90))),
        vec!["History  3 recorded · 2 shown", "View  Authority · Latest  1m ago"]
    );
    assert_eq!(
        texts(&tiny_article(&entries, &vec![2, 1], 1, BulletinFilter::Authority, 2, at(20))
            .unwrap()),
        vec![
            "DEVELOPMENT  2 / 2  ·  Authority",
            "AUTHORITY  ·  now",
            "",
            "Authority",
            "",
            "Detail",
        ]
    );
    assert!(tiny_article(&entries, &vec![2], 1, BulletinFilter::All, 2, at(20)).is_none());
    assert_eq!(
        texts(&article_lines(&entries[2], 2, 2, at(7_230)))[0],
        "AUTHORITY  ·  2h ago  ·  NEW"
    );
    assert_eq!(
        texts(&empty_lines(3, BulletinFilter::Network))[0],
        "No developments in the Network view."
    );
    assert_eq!(texts(&empty_lines(0, BulletinFilter::All))[0], "No developments recorded yet.");
}

#[test]
fn development_count_uses_singular_and_plural_copy() {
    assert_eq!(development_count_label(0), "0 developments recorded");
    assert_eq!(development_count_label(1), "1 development recorded");
    assert_eq!(development_count_label(2), "2 developments recorded");
}

#[test]
fn lead_summary_keeps_only_the_first_sentence_when_detail_has_more_context() {
    assert_eq!(
        lead_summary("The station is open. Access-fee relief applies for seven days."),
        "The station is open."
    );
    assert_eq!(lead_summary("Single sentence"), "Single sentence");
    assert_eq!(lead_summary("\u{2003} padded. text \n"), "padded.");
}

#[test]
fn the_lead_is_the_newest_development() {
    let entries = vec![development(10, BulletinCategory::Network, "Line open")];
    assert_eq!(
        texts(&lead_development(&entries, 0, at(86_410), 4)),
        vec!["LATEST DEVELOPMENT  ·  NEW", "NETWORK  ·  1d ago", "Line open", "Detail"]
    );
    assert_eq!(texts(&lead_development(&entries, 1, at(10), 3)).len(), 3);
    assert_eq!(new_since_visit(5, 3), 2);
    assert_eq!(new_since_visit(3, 5), 0);
}

#[test]
fn bulletin_layout_switches_at_workspace_boundaries() {
    assert_eq!(BulletinLayout::from_rect(Rect::new(0, 0, 120, 40)), BulletinLayout::Wide);
    assert_eq!(BulletinLayout::from_rect(Rect::new(0, 0, 90, 20)), BulletinLayout::Compact);
    assert_eq!(BulletinLayout::from_rect(Rect::new(0, 0, 75, 20)), BulletinLayout::Tiny);
}

#[test]
fn wide_layout_reserves_space_for_the_briefing() {
    let areas = wide_bulletin(Rect::new(0, 0, 120, 40));
    assert_eq!(areas.briefing.height, 8);
    assert_eq!(areas.filters.height, 1);
    assert!(areas.log.height > 0);
    assert!(areas.detail.height > 0);
}

#[test]
fn compact_layout_keeps_log_and_detail_side_by_side() {
    let areas = compact_bulletin(Rect::new(0, 0, 90, 20));
    assert_eq!(areas.briefing.height, 2);
    assert_eq!(areas.filters.height, 1);
    assert_eq!(areas.log.y, areas.detail.y);
    assert_eq!(areas.log.height, areas.detail.height);
    assert!(areas.log.width > areas.detail.width);
}

#[test]
fn unseen_entries_take_precedence_over_date_groups() {
    let now = at(5 * 86_400 + 12 * 3_600);
    let old_entry = development(2 * 86_400, BulletinCategory::Network, "Development");
    assert_eq!(
        development_group(4, &old_entry, 4, now),
        DevelopmentGroup::NewSinceLastVisit
    );
}

#[test]
fn acknowledged_entries_are_grouped_by_utc_day() {
    let now = at(5 * 86_400 + 12 * 3_600);
    let entry = |seconds| development(seconds, BulletinCategory::Network, "Development");
    assert_eq!(
        development_group(0, &entry(5 * 86_400 + 60), 3, now),
        DevelopmentGroup::Today
    );
    assert_eq!(
        development_group(1, &entry(4 * 86_400 + 60), 3, now),
        DevelopmentGroup::Yesterday
    );
    assert_eq!(
        development_group(2, &entry(3 * 86_400 + 60), 3, now),
        DevelopmentGroup::Earlier
    );
}

#[test]
fn the_log_titles_each_group_once() {
    let now = at(5 * 86_400 + 12 * 3_600);
    let entries = vec![
        development(3 * 86_400, BulletinCategory::Network, "First"),
        development(5 * 86_400, BulletinCategory::Network, "Second"),
        development(5 * 86_400 + 60, BulletinCategory::Network, "Third"),
        development(5 * 86_400 + 90, BulletinCategory::Local, "Fourth"),
    ];
    let rows = chronology_rows(&entries, &vec![3, 2, 1, 0], 3, now);
    assert_eq!(
        rows,
        vec![
            ChronologyRow::Group(DevelopmentGroup::NewSinceLastVisit),
            ChronologyRow::Development { visible_index: 0, place: 3, is_new: true },
            ChronologyRow::Group(DevelopmentGroup::Today),
            ChronologyRow::Development { visible_index: 1, place: 2, is_new: false },
            ChronologyRow::Development { visible_index: 2, place: 1, is_new: false },
            ChronologyRow::Group(DevelopmentGroup::Earlier),
            ChronologyRow::Development { visible_index: 3, place: 0, is_new: false },
        ]
    );
    assert_eq!(selected_row(&rows, 2), Some(4));
    assert_eq!(selected_row(&rows, 9), None);
    assert_eq!(
        chronology_line(&entries, &rows[1], now).text(),
        "11h ago   LOCAL         Fourth"
    );
    assert_eq!(chronology_line(&entries, &rows[2], now).text(), "TODAY");
    assert_eq!(log_page_size(10), 9);
    assert_eq!(log_page_size(0), 1);
}

fn receipt(
    id: u64,
    revenue: i64,
    access: i64,
    fuel: i64,
    passengers: Option<u32>,
) -> JourneyReceipt {
    JourneyReceipt {
        journey_id: JourneyId::new(id),
        revenue: cents(revenue),
        infrastructure_access_fee: cents(access),
        fuel_cost: cents(fuel),
        train_id: None,
        train_model_name: None,
        origin_station_id: None,
        destination_station_id: None,
        passengers_carried: passengers,
        passenger_capacity: None,
        completed_at: None,
        service_id: None,
        service_code: None,
        purpose: None,
        departed_at: None,
    }
}

fn full_receipt() -> JourneyReceipt {
    JourneyReceipt {
        train_id: Some(TrainId::new(1)),
        train_model_name: Some("Helvetra R70".to_string()),
        origin_station_id: Some(RailStationId::new(1)),
        destination_station_id: Some(RailStationId::new(2)),
        passenger_capacity: Some(70),
        completed_at: Some(at(1_000)),
        ..receipt(1, 11_760, 3_430, 4_410, Some(10))
    }
}

fn train(id: u64, status: TrainStatus) -> Train {
    Train {
        id: TrainId::new(id),
        evn: EuropeanVehicleNumber::generate(95, 67, 701, id as u16).unwrap(),
        nickname: None,
        status,
        model_id: TrainModelId { name: "helvetra-r70".to_string() },
        original_purchase_price: cents(300_000),
    }
}

fn ready(id: u64) -> Train {
    train(id, TrainStatus::Ready { at: RailStationId::new(1) })
}

fn catalogue() -> TrainCatalogue {
    TrainCatalogue {
        models: vec![TrainModel {
            id: TrainModelId { name: "helvetra-r70".to_string() },
            name: "Helvetra R70".to_string(),
            purchase_price: cents(300_000),
            passenger_capacity: 70,
            speed_metres_per_second: 25,
            fuel_cost_per_kilometre: MoneyPerKilometre::new(45).unwrap(),
            evn_type_code: 95,
            evn_series_code: 701,
        }],
    }
}

fn standing(status: FinancialStatus, options: Vec<RecoveryOption>) -> CompanyOutlook {
    CompanyOutlook {
        evaluation: Ok(FinancialEvaluation { status, recovery_options: options }),
        catalogue: catalogue(),
    }
}

fn recovery_journey() -> RecoveryJourney {
    RecoveryJourney {
        train_id: TrainId::new(1),
        origin_station_id: RailStationId::new(1),
        destination_station_id: RailStationId::new(2),
        operating_cost: cents(7_840),
    }
}

fn retain() -> RecoveryOption {
    RecoveryOption::SellOthersAndRetain {
        retained_train_id: TrainId::new(1),
        sold_train_ids: vec![TrainId::new(2)],
        resale_proceeds: cents(150_000),
        journey: recovery_journey(),
    }
}

fn rebuy() -> RecoveryOption {
    RecoveryOption::SellAllAndRebuy {
        sold_train_ids: vec![TrainId::new(1), TrainId::new(2)],
        resale_proceeds: cents(300_000),
        catalogue_index: 0,
        delivery_station_id: RailStationId::new(2),
        journey: recovery_journey(),
    }
}

fn insolvent() -> CompanyOutlook {
    standing(
        FinancialStatus::Insolvent,
        vec![
            RecoveryOption::CashOnly { journey: recovery_journey() },
            retain(),
            rebuy(),
            retain(),
        ],
    )
}

#[test]
fn company_view_shows_totals_fleet_value_and_latest_receipt() {
    let mut state = new_game("Alden Passenger", at(1_000));
    state.player_company.fleet.trains.push(ready(1));
    state.financials.operating_revenue = cents(11_760);
    state.financials.infrastructure_access_fees = cents(3_430);
    state.financials.fuel_costs = cents(4_410);
    state.financials.recent_journey_receipts.push(full_receipt());

    let rendered = render(&state, &standing(FinancialStatus::Operating, vec![]));

    assert!(rendered.contains("Company Funds: $"));
    assert!(rendered.contains("Fleet value: $3,000.00"));
    assert!(rendered.contains("Operating Revenue: $"));
    assert!(rendered.contains("Infrastructure Access Fee: $"));
    assert!(rendered.contains("Fuel Cost: $"));
    assert!(rendered.contains("Journey Profitability total: $"));
    assert!(rendered.contains("Latest receipts:"));
    assert!(rendered.contains("Journey 1 —"));
    assert!(rendered.contains("Passengers:"));
    assert!(rendered.contains("Result:"));
    assert_eq!(
        rendered,
        "Alden Passenger\n\
         Vehicle Keeper Mark (VKM): OMP\n\
         Company Funds: $5,000.00\n\
         Fleet value: $3,000.00 (original purchase prices)\n\
         \n\
         Operating totals:\n  \
           Operating Revenue: $117.60\n  \
           Infrastructure Access Fee: $34.30\n  \
           Fuel Cost: $44.10\n  \
           Journey Profitability total: $39.20\n\
         \n\
         Latest receipts:\n  \
           Journey 1 — Alden → Bellhaven; T1 · Helvetra R70; Passengers: 10 boarded · 70 seats; \
           Revenue: $117.60; Access: $34.30; Fuel: $44.10; Result: $39.20\n\
         \n\
         Financial status:\n  \
           Operating: Company Funds can cover at least one available Journey.\n"
    );
}

#[test]
fn company_view_explains_insolvency_and_lists_recovery_options() {
    let mut state = new_game("Alden Passenger", at(1_000));
    state.player_company.fleet.trains = vec![ready(1), ready(2)];
    state.player_company.funds = Money::zero();

    let rendered = render(&state, &insolvent());

    assert!(rendered.contains("INSOLVENCY:"));
    assert!(rendered.contains("Recovery options:"));
    assert!(rendered.contains("Keep Train"));
    assert!(rendered.contains(
        "    - Keep Train 1; sell Train 2 for $1,500.00; then dispatch Train 1 from Alden to \
         Bellhaven for $78.40.\n"
    ));
    assert!(rendered.contains("    Showing 3 of 4 finite recovery options.\n"));
}

#[test]
fn company_view_shows_bankruptcy_when_no_option_exists() {
    let mut state = new_game("Alden Passenger", at(1_000));
    state.player_company.funds = Money::zero();

    let outlook = standing(FinancialStatus::Bankruptcy, vec![]);
    let rendered = CompanyWorkspace::default().render_text(&state, &outlook);
    assert_eq!(rendered, render(&state, &outlook));

    assert!(rendered.contains("BANKRUPTCY:"));
    assert!(!rendered.contains("Recovery options:"));
}

#[test]
fn company_workspace_owns_vkm_footer_and_help() {
    let state = new_game("Alden Passenger", at(1_000));
    let outlook = standing(FinancialStatus::Operating, vec![]);
    let mut workspace = CompanyWorkspace::default();

    workspace.handle_key(KeyCode::Char('v'), &state, &outlook);

    let shortcuts = workspace.shortcuts(&state, &outlook, false, true);
    assert_eq!(shortcuts[0].key, "Enter");
    assert_eq!(shortcuts[0].action, "Save");
    assert!(workspace.help_lines(&state, &outlook)[0].contains("Company VKM"));
}

#[test]
fn a_mark_is_edited_letter_by_letter() {
    let state = new_game("Alden Passenger", at(1_000));
    let mut editor = VkmEditor::start(&state);
    assert_eq!(editor.draft(), "OMP");
    assert_eq!(editor.error(), None);
    assert_eq!(editor.handle_key(KeyCode::Char('x')), VkmEditorAction::Continue);
    assert_eq!(editor.draft(), "OMPX");
    assert_eq!(editor.handle_key(KeyCode::Char('1')), VkmEditorAction::Continue);
    assert_eq!(editor.error(), Some("VKM accepts 2–5 letters A-Z only."));
    editor.handle_key(KeyCode::Char('Y'));
    assert_eq!(editor.error(), None);
    editor.handle_key(KeyCode::Char('Z'));
    assert_eq!(editor.draft(), "OMPXY");
    assert_eq!(editor.error(), Some("VKM accepts 2–5 letters A-Z only."));
    assert_eq!(
        editor.handle_key(KeyCode::Enter),
        VkmEditorAction::Confirm(VehicleKeeperMark::parse("OMPXY").unwrap())
    );
    for _ in 0..6 {
        editor.handle_key(KeyCode::Backspace);
    }
    assert_eq!(editor.draft(), "");
    assert_eq!(editor.handle_key(KeyCode::Enter), VkmEditorAction::Continue);
    assert!(editor.error().is_some());
    assert_eq!(editor.handle_key(KeyCode::Esc), VkmEditorAction::Cancel);
}

#[test]
fn a_recovery_review_only_opens_workspaces() {
    let state = new_game("Alden Passenger", at(1_000));
    let outlook = insolvent();
    let mut workspace = CompanyWorkspace::default();
    assert_eq!(
        workspace.handle_key(KeyCode::Char('r'), &state, &outlook),
        CompanyWorkspaceAction::ClearNotice
    );
    assert!(workspace.recovery_review_open());
    workspace.handle_key(KeyCode::Down, &state, &outlook);
    assert_eq!(
        workspace.handle_key(KeyCode::Enter, &state, &outlook),
        CompanyWorkspaceAction::Navigate(RecoveryDestination::Fleet)
    );
    assert!(!workspace.has_modal());
    let solvent = standing(FinancialStatus::Operating, vec![]);
    assert_eq!(
        workspace.handle_key(KeyCode::Char('r'), &state, &solvent),
        CompanyWorkspaceAction::Continue
    );
    workspace.handle_key(KeyCode::Char('r'), &state, &outlook);
    assert_eq!(
        workspace.handle_key(KeyCode::Enter, &state, &solvent),
        CompanyWorkspaceAction::Notice(
            "Recovery route changed; review the current Company status again.".to_string()
        )
    );
    workspace.handle_key(KeyCode::Char('r'), &state, &outlook);
    assert_eq!(
        workspace.handle_key(KeyCode::Char('1'), &state, &outlook),
        CompanyWorkspaceAction::Navigate(RecoveryDestination::RegionMap)
    );
    workspace.handle_key(KeyCode::Char('r'), &state, &outlook);
    assert_eq!(
        workspace.handle_key(KeyCode::Esc, &state, &outlook),
        CompanyWorkspaceAction::Notice("Recovery review closed; no changes were made.".to_string())
    );
}

#[test]
fn the_company_workspace_keeps_its_modals_apart() {
    let mut state = new_game("Alden Passenger", at(1_000));
    let outlook = standing(FinancialStatus::Operating, vec![]);
    let mut workspace = CompanyWorkspace::default();
    assert_eq!(
        workspace.handle_key(KeyCode::Enter, &state, &outlook),
        CompanyWorkspaceAction::Continue
    );
    state.financials.recent_journey_receipts.push(full_receipt());
    assert_eq!(
        workspace.handle_key(KeyCode::Enter, &state, &outlook),
        CompanyWorkspaceAction::ClearNotice
    );
    assert!(workspace.has_modal() && !workspace.has_vkm_editor());
    workspace.handle_key(KeyCode::Char('v'), &state, &outlook);
    assert!(!workspace.has_vkm_editor());
    workspace.handle_key(KeyCode::Esc, &state, &outlook);
    assert!(!workspace.has_modal());
    workspace.handle_key(KeyCode::Char('v'), &state, &outlook);
    assert_eq!(
        workspace.handle_key(KeyCode::Enter, &state, &outlook),
        CompanyWorkspaceAction::UpdateVkm(VehicleKeeperMark::parse("OMP").unwrap())
    );
    workspace.confirm_vkm_saved();
    assert!(!workspace.has_vkm_editor());
    workspace.handle_key(KeyCode::Char('v'), &state, &outlook);
    assert_eq!(
        workspace.handle_key(KeyCode::Esc, &state, &outlook),
        CompanyWorkspaceAction::Notice("VKM edit cancelled; no changes were made.".to_string())
    );
    workspace.handle_key(KeyCode::Char('v'), &state, &outlook);
    workspace.activate();
    assert!(!workspace.has_modal());
    let shortcuts = workspace.shortcuts(&state, &outlook, true, true);
    assert_eq!(
        shortcuts.iter().map(|item| (item.key.as_str(), item.enabled)).collect::<Vec<_>>(),
        vec![("↑↓", true), ("PgUp/PgDn", true), ("Enter", true), ("V", true), ("R", false)]
    );
    workspace.reset();
    assert_eq!(workspace, CompanyWorkspace::default());
}

#[test]
fn new_receipts_leave_the_reader_where_they_are() {
    let mut state = new_game("Alden Passenger", at(1_000));
    state.financials.recent_journey_receipts =
        vec![receipt(1, 1, 0, 0, None), receipt(2, 2, 0, 0, None)];
    let mut selection = ReceiptSelection::default();
    selection.handle_key(KeyCode::Down, &state);
    assert_eq!(selection.focus, Some(JourneyId::new(1)));
    state.financials.recent_journey_receipts.push(receipt(3, 3, 0, 0, None));
    assert_eq!(
        selection.selected_receipt(&state).map(|receipt| receipt.journey_id),
        Some(JourneyId::new(1))
    );
    assert_eq!(selection.table.selected, Some(2));
    selection.handle_key(KeyCode::Char('K'), &state);
    assert_eq!(selection.table.selected, Some(2));
    selection.handle_key(KeyCode::Char('k'), &state);
    assert_eq!(selection.table.selected, Some(1));
    state.financials.recent_journey_receipts.clear();
    assert!(!selection.has_selection(&state));
}

#[test]
fn routes_stay_in_range() {
    let mut selection = RecoverySelection::default();
    selection.set_page_size(2);
    selection.handle_key(KeyCode::PageDown, &insolvent());
    assert_eq!(selection.list.selected, Some(2));
    selection.handle_key(KeyCode::PageDown, &insolvent());
    assert_eq!(selection.list.selected, Some(3));
    let fewer = standing(FinancialStatus::Insolvent, vec![retain()]);
    assert_eq!(selection.selected_destination(&fewer), Some(RecoveryDestination::Fleet));
    assert_eq!(selection.list.selected, Some(0));
    assert_eq!(
        selection.selected_destination(&standing(FinancialStatus::Operating, vec![retain()])),
        None
    );
}

#[test]
fn routes_explain_themselves() {
    let state = new_game("Alden Passenger", at(1_000));
    let outlook = insolvent();
    assert_eq!(
        texts(&recovery_routes(&state.region, &outlook)),
        vec![
            " 1. Dispatch Train 1 to Bellhaven",
            " 2. Retain Train 1; sell others",
            " 3. Sell Fleet; rebuy Helvetra R70",
            " 4. Retain Train 1; sell others",
        ]
    );
    assert_eq!(
        texts(&recovery_instructions(&state.region, &outlook, 2).unwrap()),
        vec![
            "ROUTE DETAILS",
            "Route 3 · Sell Fleet; rebuy Helvetra R70",
            "",
            "1. Review resale of Trains 1, 2 for $3,000.00 in Fleet.",
            "2. Review purchase of Helvetra R70 delivered to Bellhaven in Market.",
            "3. Review Manual Dispatch from Alden to Bellhaven for $78.40 after the replacement is \
             READY.",
            "",
            "Next review: Fleet. Nothing is sold, bought, or dispatched from this modal.",
        ]
    );
    assert!(recovery_instructions(&state.region, &outlook, 4).is_none());
    assert_eq!(train_ids_label(&vec![]), "no Trains");
    assert_eq!(
        texts(&warning_lines(&state.region, &outlook)),
        vec![
            "[!] INSOLVENT",
            "Concrete recovery options:",
            "Only routes affordable under the current rules are listed; review before acting.",
            "· Dispatch Train 1 from Alden to Bellhaven for $78.40.",
            "· Keep Train 1; sell Train 2 for $1,500.00; then dispatch Train 1 from Alden to \
             Bellhaven for $78.40.",
            "· Sell Trains 1, 2 for $3,000.00; buy Helvetra R70 at Bellhaven; then dispatch Train \
             1 from Alden to Bellhaven for $78.40.",
        ]
    );
}

#[test]
fn an_unavailable_evaluation_is_reported() {
    let state = new_game("Alden Passenger", at(1_000));
    let outlook =
        CompanyOutlook { evaluation: Err("overflow".to_string()), catalogue: catalogue() };
    assert!(render(&state, &outlook)
        .ends_with("  Financial recovery evaluation unavailable: overflow\n"));
    assert_eq!(
        texts(&standing_lines(&outlook)),
        vec!["[?] STATUS UNAVAILABLE", "Financial evaluation unavailable: overflow"]
    );
    assert_eq!(
        texts(&warning_lines(&state.region, &outlook)),
        vec!["Recovery unavailable: overflow"]
    );
}

#[test]
fn recent_performance_uses_only_the_latest_window() {
    let mut receipts =
        vec![receipt(1, 100_000, 0, 0, Some(999)), receipt(2, 100_000, 0, 0, Some(999))];
    receipts.extend((3..=14).map(|id| receipt(id, 10_000, 1_000, 500, Some(20))));

    let performance = RecentJourneyPerformance::from_receipts(&receipts);

    assert_eq!(performance.journey_count, RECENT_JOURNEY_WINDOW);
    assert_eq!(performance.revenue_cents, 120_000);
    assert_eq!(performance.operating_costs_cents, 18_000);
    assert_eq!(performance.result_cents, 102_000);
    assert_eq!(performance.profitable_journeys, 12);
    assert_eq!(performance.loss_making_journeys, 0);
    assert_eq!(performance.passengers_carried, Some(240));
}

#[test]
fn recent_performance_classifies_profit_and_loss_without_hiding_break_even() {
    let receipts = vec![
        receipt(1, 10_000, 1_000, 500, Some(40)),
        receipt(2, 1_000, 1_000, 500, Some(10)),
        receipt(3, 1_500, 1_000, 500, Some(0)),
    ];

    let performance = RecentJourneyPerformance::from_receipts(&receipts);

    assert_eq!(performance.profitable_journeys, 1);
    assert_eq!(performance.loss_making_journeys, 1);
    assert_eq!(
        performance.journey_count
            - performance.profitable_journeys
            - performance.loss_making_journeys,
        1
    );
    assert_eq!(performance.result_cents, 8_000);
}

#[test]
fn legacy_passenger_context_stays_unknown_instead_of_becoming_zero() {
    let receipts = vec![
        receipt(1, 10_000, 1_000, 500, Some(40)),
        receipt(2, 10_000, 1_000, 500, None),
    ];

    let performance = RecentJourneyPerformance::from_receipts(&receipts);

    assert_eq!(performance.passengers_carried, None);
}

fn journey(id: u64, arrives_at: i64) -> Journey {
    Journey {
        id: JourneyId::new(id),
        purpose: JourneyPurpose::RevenueService,
        service_id: ServiceId::new(1),
        train_id: TrainId::new(1),
        origin_station_id: RailStationId::new(1),
        destination_station_id: RailStationId::new(2),
        passengers_carried: 10,
        fare_rate: MoneyPerKilometre::new(10).unwrap(),
        fare: cents(980),
        operating_revenue: cents(9_800),
        credited_revenue: cents(0),
        infrastructure_access_fee: cents(980),
        fuel_cost: cents(4_410),
        current_stop_index: 0,
        passenger_groups: vec![JourneyPassengerGroup {
            origin_station_id: RailStationId::new(1),
            destination_station_id: RailStationId::new(2),
            passengers: 10,
            fare: cents(980),
        }],
        started_at: None,
        departed_at: at(0),
        arrives_at: at(arrives_at),
    }
}

#[test]
fn active_exposure_tracks_booked_uncredited_revenue() {
    let started_at = at(1_700_000_000);
    let mut state = new_game("Exposure Test", started_at);
    state.active_journeys.push(journey(1, 1_700_003_920));

    let exposure = ActiveJourneyExposure::from_state(&state);
    let journey = &state.active_journeys[0];
    assert_eq!(exposure.journey_count, 1);
    assert_eq!(exposure.onboard_passengers, 10);
    assert_eq!(
        exposure.revenue_in_transit_cents,
        i128::from(journey.operating_revenue.cents()) - i128::from(journey.credited_revenue.cents())
    );
}

#[test]
fn company_figures_are_exact() {
    let mut state = new_game("Alden Passenger", at(1_000));
    state.player_company.fleet.trains.push(ready(1));
    state.player_company.passenger_services.push(PassengerService {
        id: ServiceId::new(1),
        name: "R1".to_string(),
        custom_name: None,
        direction_mode: ServiceDirectionMode::ForwardOnly,
        forward_train_number: 100,
        reverse_train_number: None,
        stop_station_ids: vec![
            RailStationId::new(1),
            RailStationId::new(2),
            RailStationId::new(1),
            RailStationId::new(9),
        ],
        rail_line_ids: vec![RailLineId::new(1)],
    });
    assert_eq!(
        texts(&service_lines(&state)),
        vec!["SERVICES", "0 / 1 active", "Idle  1"]
    );
    state.active_journeys.push(journey(1, 2_000));
    assert_eq!(texts(&service_lines(&state))[1], "1 / 1 active");
    assert_eq!(
        texts(&network_lines(&state)),
        vec!["NETWORK", "2 / 2 served", "2 / 2 · 100%"]
    );
    assert_eq!(settlement_coverage_label(1, 3), "1 / 3 · 33%");
    assert_eq!(settlement_coverage_label(0, 0), "—");
    assert_eq!(operating_margin_label(&state.financials), "—");
    state.financials.operating_revenue = cents(10_000);
    state.financials.fuel_costs = cents(6_667);
    assert_eq!(operating_margin_label(&state.financials), "+33.3%");
    assert_eq!(texts(&margin_card(&state)), vec!["+33.3%", "lifetime"]);
    state.financials.fuel_costs = cents(12_345);
    assert_eq!(operating_margin_label(&state.financials), "-23.4%");
    state.financials.fuel_costs = cents(10_000);
    assert_eq!(operating_margin_label(&state.financials), "0.0%");
    let summary = texts(&company_summary(&state, &insolvent()));
    assert_eq!(summary[1], "[!] INSOLVENT");
    assert_eq!(summary[5], "Fleet value   $3,000.00");
    assert_eq!(summary[11], "Operating costs$100.00");
    assert_eq!(summary.last().unwrap(), "Dispatch Train 1 · $78.40");
    assert_eq!(company_layout(Rect::new(0, 0, 100, 20)), CompanyLayout::Wide);
    assert_eq!(company_layout(Rect::new(0, 0, 99, 20)), CompanyLayout::Compact);
    assert_eq!(company_layout(Rect::new(0, 0, 75, 20)), CompanyLayout::Tiny);
    let areas = wide_company(Rect::new(0, 0, 118, 30), true);
    assert_eq!(areas.metrics.len(), 4);
    assert_eq!(areas.operations[3].height, 4);
    assert_eq!(areas.warning.unwrap().y, areas.receipts.y);
    assert!(wide_company(Rect::new(0, 0, 118, 30), false).warning.is_none());
}

#[test]
fn receipts_read_well() {
    let mut state = new_game("Alden Passenger", at(5_000));
    let full = full_receipt();
    let legacy = receipt(7, 100, 60, 50, None);
    assert_eq!(receipt_train_label(&full), "T1 · Helvetra R70");
    assert_eq!(receipt_train_label(&legacy), "—");
    assert_eq!(receipt_passenger_label(&full), "10 boarded · 70 seats");
    assert_eq!(receipt_age_label(at(5_000), &full), "1h 6m ago");
    assert_eq!(receipt_age_label(at(1_030), &full), "just now");
    assert_eq!(receipt_age_label(at(1_000 + 3 * 86_400), &full), "3d ago");
    assert_eq!(receipt_age_label(at(5_000), &legacy), "legacy");
    assert_eq!(receipt_title(Some(&full)), "Journey Receipt · J01");
    assert_eq!(
        texts(&receipt_detail_lines(&state, Some(&full))),
        vec![
            "Journey 1 · 1h 6m ago",
            "",
            "JOURNEY",
            "Route               Alden → Bellhaven",
            "Train               T1 · Helvetra R70",
            "Passengers          10 boarded · 70 seats",
            "",
            "FINANCIAL",
            "Revenue             $117.60",
            "Access fees         $34.30",
            "Fuel                $44.10",
            "Result              +$39.20",
        ]
    );
    assert_eq!(texts(&receipt_detail_lines(&state, Some(&legacy)))[8], "Result              -$0.10");
    assert_eq!(
        texts(&receipt_detail_lines(&state, None)),
        vec!["The selected receipt is no longer retained."]
    );
    state.financials.recent_journey_receipts = vec![full, legacy];
    let rows = receipt_rows(&state, true);
    assert_eq!(rows[0].cells[0].text, "J07");
    assert_eq!(rows[1].cells[5].text, "+$39.20");
    let rows = receipt_rows(&state, false);
    assert_eq!(rows[0].cells[0].text, "Journey 7");
    assert_eq!(rows[1].cells[0].text, "Alden → Bellhaven");
}

#[test]
fn empty_state_keeps_the_shared_visual_hierarchy() {
    let state = EmptyState::new("No Passenger Services", "Create a reusable route.")
        .motif("●━━●━━●")
        .primary_action("N", "Create service")
        .hint("Services operate both directions by default.");

    assert_eq!(
        texts(&state.lines(60)),
        vec![
            "●━━●━━●",
            "",
            "No Passenger Services",
            "",
            "Create a reusable route.",
            "",
            "[N] Create service",
            "",
            "Services operate both directions by default.",
        ]
    );
}

#[test]
fn optional_sections_do_not_leave_extra_spacing() {
    assert_eq!(texts(&EmptyState::new("Nothing here", "").lines(40)), vec!["Nothing here"]);
}

#[test]
fn description_and_hint_wrap_on_word_boundaries() {
    assert_eq!(
        wrap_empty_state_text("Create a reusable passenger route", 18),
        vec!["Create a reusable", "passenger route"]
    );
    assert_eq!(wrap_empty_state_text("鉄道 会社 線路", 9), vec!["鉄道 会社", "線路"]);
    assert_eq!(wrap_empty_state_text("one\r\n\n  two", 9), vec!["one", "", "two"]);
    assert_eq!(wrap_empty_state_text("anything", 0), Vec::<String>::new());
    assert_eq!(split_words("  a\tbc  d "), vec!["a", "bc", "d"]);
    assert!(overflows_line(true, 5, 5, 10));
    assert!(!overflows_line(true, 4, 5, 10));
    assert!(!overflows_line(false, 0, 50, 10));
}

#[test]
fn empty_state_width_keeps_margins_and_caps_long_lines() {
    assert_eq!(empty_state_width(100), 64);
    assert_eq!(empty_state_width(40), 36);
    assert_eq!(empty_state_width(3), 3);
}

#[test]
fn an_empty_state_stands_in_the_middle() {
    assert_eq!(
        empty_state_area(Rect::new(10, 5, 100, 21), 5),
        Some(Rect::new(28, 13, 64, 5))
    );
    assert_eq!(empty_state_area(Rect::new(0, 0, 40, 3), 9), Some(Rect::new(2, 0, 36, 3)));
    assert_eq!(empty_state_area(Rect::new(0, 0, 0, 3), 9), None);
}

#[test]
fn amounts_and_distances_read_well() {
    assert_eq!(money(cents(123_456_789)), "$1,234,567.89");
    assert_eq!(money(cents(-5)), "-$0.05");
    assert_eq!(money(cents(i64::MIN)), "-$92,233,720,368,547,758.08");
    assert_eq!(signed_cents(250), "+$2.50");
    assert_eq!(signed_cents(-250), "-$2.50");
    assert_eq!(signed_cents(0), "$0.00");
    assert_eq!(distance(98_000), "98.0 km");
    assert_eq!(distance(12_349), "12.3 km");
}

#[test]
fn keys_move_within_the_list() {
    assert_eq!(move_selection(0, KeyCode::Up, 5, 2), 0);
    assert_eq!(move_selection(0, KeyCode::Char('J'), 5, 2), 1);
    assert_eq!(move_selection(4, KeyCode::Down, 5, 2), 4);
    assert_eq!(move_selection(3, KeyCode::PageDown, 5, usize::MAX), 4);
    assert_eq!(move_selection(3, KeyCode::PageUp, 5, 0), 2);
    assert_eq!(move_selection(3, KeyCode::Other, 5, 2), 3);
}

fn shell(view: PrimaryView) -> ShellState {
    ShellState {
        active_view: view,
        help_visible: false,
        outcome_details_open: false,
        restart_confirmation: false,
        bankrupt: false,
        world_details_visible: false,
        nickname_editor_open: false,
        company_modal_open: false,
        dispatch_open: false,
        services_open: false,
        market_has_help: false,
    }
}

fn keys(shortcuts: &[FooterShortcut]) -> Vec<String> {
    shortcuts.iter().map(|shortcut| shortcut.key.clone()).collect()
}

#[test]
fn what_is_in_front_decides_the_footer() {
    let plain = shell(PrimaryView::Company);
    assert_eq!(
        footer_source(&plain),
        FooterSource::Workspace {
            workspace: Workspace::Company,
            utilities: Utilities::WhereTheyFit,
        }
    );
    let modal = ShellState { company_modal_open: true, bankrupt: true, ..plain };
    assert_eq!(
        footer_source(&modal),
        FooterSource::Workspace { workspace: Workspace::Company, utilities: Utilities::Absent }
    );
    assert_eq!(help_source(&modal), HelpSource::Workspace { workspace: Workspace::Company });
    let bankrupt = ShellState { bankrupt: true, ..plain };
    assert_eq!(footer_source(&bankrupt), FooterSource::Bankruptcy);
    assert_eq!(help_source(&bankrupt), HelpSource::Bankruptcy);
    let review = ShellState { restart_confirmation: true, ..bankrupt };
    assert_eq!(footer_source(&review), FooterSource::RestartReview);
    let outcome = ShellState { outcome_details_open: true, ..review };
    assert_eq!(footer_source(&outcome), FooterSource::OutcomeDetails);
    let world = ShellState { world_details_visible: true, ..outcome };
    assert_eq!(
        footer_source(&world),
        FooterSource::Workspace { workspace: Workspace::RegionMap, utilities: Utilities::Always }
    );
    let help = ShellState { help_visible: true, ..world };
    assert_eq!(footer_source(&help), FooterSource::HelpPage);
    let editor = ShellState { nickname_editor_open: true, ..shell(PrimaryView::Trains) };
    assert_eq!(
        footer_source(&editor),
        FooterSource::Workspace { workspace: Workspace::Fleet, utilities: Utilities::Absent }
    );
    let services = ShellState { services_open: true, ..shell(PrimaryView::RegionMap) };
    assert_eq!(
        footer_source(&services),
        FooterSource::Workspace {
            workspace: Workspace::Services,
            utilities: Utilities::WhereTheyFit,
        }
    );
    let dispatch = ShellState { dispatch_open: true, ..services };
    assert_eq!(help_source(&dispatch), HelpSource::Workspace { workspace: Workspace::Dispatch });
    assert_eq!(help_source(&shell(PrimaryView::BuyTrains)), HelpSource::MarketOverview);
}

#[test]
fn utilities_stand_behind_shortcuts_only_where_they_fit() {
    let provided = vec![FooterShortcut::new("Enter", "Details", true)];
    let state = shell(PrimaryView::Bulletin);
    assert_eq!(keys(&contextual_controls(&state, &provided, 33)), vec!["Enter", "?", "Q"]);
    assert_eq!(keys(&contextual_controls(&state, &provided, 32)), vec!["Enter", "?"]);
    assert_eq!(keys(&contextual_controls(&state, &provided, 24)), vec!["Enter", "?"]);
    assert_eq!(keys(&contextual_controls(&state, &provided, 23)), vec!["Enter"]);
    assert_eq!(keys(&contextual_controls(&state, &provided, 0)), vec!["Enter"]);
    assert_eq!(shortcut_line_width(&contextual_controls(&state, &provided, 33)), 33);
    let bankrupt = ShellState { bankrupt: true, ..state };
    assert_eq!(keys(&contextual_controls(&bankrupt, &provided, 80)), vec!["R", "?", "Q"]);
    let help = ShellState { help_visible: true, ..state };
    assert_eq!(
        keys(&contextual_controls(&help, &provided, 78)),
        vec!["↑↓", "PgUp/PgDn", "?/Esc", "Q"]
    );
    assert_eq!(keys(&contextual_controls(&help, &provided, 79))[0], "↑↓/JK");
    assert_eq!(
        keys(&footer_shortcuts(&state, true, &provided, 46)),
        vec!["i", "Enter", "?", "Q"]
    );
    assert_eq!(keys(&footer_shortcuts(&state, true, &provided, 43)), vec!["i", "Enter", "?"]);
}

#[test]
fn the_action_strip_parts_utilities_from_shortcuts() {
    let shortcuts = vec![
        FooterShortcut::new("Enter", "Details", true),
        FooterShortcut::new("?", "Help", true),
        FooterShortcut::new("F", "View", false),
        FooterShortcut::new("Q", "Quit", true),
    ];
    let (contextual, global) = partition_shortcuts(&shortcuts);
    assert_eq!(keys(&contextual), vec!["Enter", "F"]);
    assert_eq!(keys(&global), vec!["?", "Q"]);
    let line = shortcut_line(&contextual);
    assert_eq!(line.text(), "[Enter] Details [F] View");
    assert_eq!(line.spans[3].style.tone, Tone::ShortcutDisabled);
    let strip = action_strip(Rect::new(2, 9, 60, 1), &contextual, &global);
    assert_eq!(strip.contextual, Some(Rect::new(2, 9, 42, 1)));
    assert_eq!(strip.global, Some(Rect::new(45, 9, 17, 1)));
    let strip = action_strip(Rect::new(0, 0, 10, 1), &contextual, &global);
    assert_eq!(strip.contextual, None);
    assert_eq!(strip.global, Some(Rect::new(0, 0, 10, 1)));
    assert_eq!(footer_height(false, true), 3);
    assert_eq!(footer_height(false, false), 2);
    assert_eq!(feedback(Some("Saved"), Some("old")).unwrap().text(), "✓ Saved");
    assert_eq!(feedback(None, Some("old")).unwrap().text(), "old");
    assert!(feedback(None, None).is_none());
}

#[test]
fn help_lines_become_keycaps() {
    let parse = |line: &str| parse_help_action(line);
    let pair = |key: &str, action: &str| Some((key.to_string(), action.to_string()));
    assert_eq!(parse("↑↓ / jk Select Train model"), pair("↑↓/JK", "Select Train model"));
    assert_eq!(parse("Enter Buy selected Train"), pair("Enter", "Buy selected Train"));
    assert_eq!(parse("v Edit Company VKM"), pair("V", "Edit Company VKM"));
    assert_eq!(parse("Purchase price is fixed"), None);
    assert_eq!(parse("Enter"), None);

    let mut lines = vec![];
    append_help_line(&mut lines, "Enter Save VKM   Esc Cancel");
    append_help_line(&mut lines, "d Dispatch unavailable");
    append_help_line(&mut lines, "");
    append_help_line(&mut lines, "Tip");
    append_help_line(&mut lines, "Keep enough cash   for access");
    assert_eq!(
        lines,
        vec![
            HelpLine::Action {
                key: "Enter".to_string(),
                action: "Save VKM".to_string(),
                enabled: true,
            },
            HelpLine::Action {
                key: "Esc".to_string(),
                action: "Cancel".to_string(),
                enabled: true,
            },
            HelpLine::Action {
                key: "D".to_string(),
                action: "Dispatch unavailable".to_string(),
                enabled: false,
            },
            HelpLine::Spacer,
            HelpLine::Section("Tip".to_string()),
            HelpLine::Text("Keep enough cash   for access".to_string()),
        ]
    );
}

#[test]
fn help_ends_with_the_workspaces() {
    let provided =
        vec!["Current · Company".to_string(), "v Edit Company VKM".to_string(), String::new()];
    let document = help_document(&shell(PrimaryView::Company), &provided);
    assert_eq!(document.context, "Company");
    assert_eq!(
        help_lines(&shell(PrimaryView::Company), &provided),
        vec![
            "[V] Edit Company VKM",
            "",
            "Workspaces",
            "[1] Map   [2] Fleet   [3] Market",
            "[4] Company   [5] Authority   [6] Bulletin",
            "Number keys switch workspaces; letter keys remain contextual.",
            "",
            "Tip",
            "The footer is contextual: it only shows actions that matter right now.",
        ]
    );
    assert_eq!(
        texts(&help_page(&document, 3, 100)),
        vec![
            "",
            "Tip",
            "The footer is contextual: it only shows actions that matter right now.",
        ]
    );
    assert_eq!(texts(&help_page(&document, 1, 0)), vec!["[V]               Edit Company VKM"]);
    assert_eq!(help_scroll(9, 20, 4), 0);
    assert_eq!(
        help_document(&shell(PrimaryView::Trains), &vec![]).context,
        "Trains"
    );
    let bankrupt = ShellState { bankrupt: true, ..shell(PrimaryView::Trains) };
    assert_eq!(help_document(&bankrupt, &vec![]).context, "Bankruptcy");
    assert_eq!(
        help_lines(&shell(PrimaryView::BuyTrains), &vec![])[0],
        "[↑↓/JK] Select Train model"
    );
}

#[test]
fn tabs_count_unread_news() {
    assert_eq!(tab_label(PrimaryView::RegionMap, true, 3), "1 Map");
    assert_eq!(tab_label(PrimaryView::Trains, false, 0), "2 Fleet");
    assert_eq!(tab_label(PrimaryView::Bulletin, true, 0), "6 News");
    assert_eq!(tab_label(PrimaryView::Bulletin, false, 9), "6 Bulletin [9]");
    assert_eq!(tab_label(PrimaryView::Bulletin, false, 10), "6 Bulletin [9+]");
}

#[test]
fn the_status_line_fills_its_width() {
    let mut state = new_game("Alden Passenger", at(0));
    state.player_company.fleet.trains =
        vec![ready(1), train(2, TrainStatus::Travelling { journey_id: JourneyId::new(1) })];
    state.active_journeys = vec![journey(2, 7_200), journey(1, 3_600)];
    assert_eq!(train_counts(&state.player_company.fleet.trains), (1, 1));
    assert_eq!(nearest_eta(&state.active_journeys, at(0)), "1h");
    assert_eq!(nearest_eta(&state.active_journeys, at(9_000)), "0s");
    assert_eq!(nearest_eta(&vec![], at(0)), "—");
    let wide = shell_status_line(&state, at(0), 110);
    assert!(wide.text().starts_with("RailQ  Alden Passenger  "));
    assert!(wide.text().ends_with("Cash $5,000.00   Fleet 1 ready · 1 travelling   Next 1h"));
    assert_eq!(line_columns(&wide), 110);
    let compact = shell_status_line(&state, at(0), 80);
    assert!(compact.text().ends_with("$5,000.00   R1/T1   Next 1h"));
    assert_eq!(line_columns(&compact), 80);
    state.player_company.name = "鉄道会社".to_string();
    assert_eq!(line_columns(&shell_status_line(&state, at(0), 80)), 80);
    let mut line = StyledLine::new();
    line.push("鉄道", wide.spans[0].style);
    assert_eq!(line_columns(&line), 4);
    assert_eq!(status_gap(30, 40, 80), 10);
    assert_eq!(status_gap(50, 40, 80), 2);
    assert_eq!(shorten("Alden Passenger", 5), "Alden…");
    assert_eq!(shorten("Alden", 5), "Alden");
}

fn nearest(numerator: u32, denominator: u32) -> u16 {
    ((2 * numerator + denominator) / (2 * denominator)) as u16
}

/// The gap is taken from the larger of two percentages until both parts are equal.
fn first_of_two(percent: u32, size: u32, gap: u32) -> u16 {
    let even = 50 * (size - gap);
    if even > percent * size {
        nearest(percent * size, 100)
    } else if even + 100 * gap < percent * size {
        nearest(percent * size - 100 * gap, 100)
    } else {
        nearest(even, 100)
    }
}

fn lies_inside(part: Rect, whole: Rect) -> bool {
    part.x >= whole.x
        && part.y >= whole.y
        && part.x + part.width <= whole.x + whole.width
        && part.y + part.height <= whole.y + whole.height
}

#[test]
fn rows_receive_what_they_ask_for() {
    for height in 0..=90 {
        let whole = Rect::new(3, 2, 110, height);
        let areas = wide_bulletin(whole);
        for part in [areas.briefing, areas.filters, areas.log, areas.detail] {
            assert!(lies_inside(part, whole));
        }
        if height >= 11 {
            assert_eq!((areas.briefing.y, areas.briefing.height), (2, 8));
            assert_eq!((areas.filters.y, areas.filters.height), (11, 1));
            assert_eq!((areas.log.y, areas.log.height), (13, height - 11));
        }
        let areas = compact_bulletin(whole);
        if height >= 5 {
            assert_eq!((areas.briefing.y, areas.briefing.height), (2, 2));
            assert_eq!((areas.filters.y, areas.filters.height), (5, 1));
            assert_eq!((areas.detail.y, areas.detail.height), (7, height - 5));
        }
        let areas = wide_areas(whole, 5);
        if height >= 13 {
            assert_eq!((areas.programme.y, areas.programme.height), (2, 2));
            assert_eq!((areas.network.y, areas.network.height), (5, 6));
            assert_eq!((areas.pipeline.y, areas.pipeline.height), (12, 2));
            assert_eq!((areas.body.y, areas.body.height), (15, height - 13));
        }
        if areas.body.height >= 17 {
            assert_eq!(areas.projects.height, 8);
            assert_eq!(areas.project.y, areas.body.y + 9);
            assert_eq!(areas.project.height, areas.body.height - 9);
        }
        let areas = compact_areas(whole);
        if height >= 8 {
            assert_eq!((areas.summary.y, areas.summary.height), (2, 4));
            assert_eq!((areas.pipeline.y, areas.pipeline.height), (7, 2));
            match areas.project {
                Some(project) => {
                    assert_eq!((areas.projects.y, areas.projects.height), (10, 7));
                    assert_eq!((project.y, project.height), (18, height - 16));
                }
                None => {
                    assert_eq!((areas.projects.y, areas.projects.height), (10, height - 8));
                }
            }
        }
        let areas = wide_company(whole, true);
        if height >= 14 {
            assert_eq!((areas.status.y, areas.status.height), (2, 2));
            assert_eq!((areas.metrics[3].y, areas.metrics[3].height), (5, 5));
            assert_eq!((areas.operations[0].y, areas.operations[0].height), (11, 4));
            assert_eq!((areas.receipts.y, areas.receipts.height), (16, height - 14));
        }
        if height >= 14 {
            let narrow = Rect::new(3, 2, 81, height);
            if let ProjectLayout::Full { context, stage, .. } = project_layout(narrow) {
                let rows = u32::from(height) - 5;
                assert_eq!((stage.y, stage.height), (5, first_of_two(55, rows, 1)));
                assert_eq!(context.y, stage.y + stage.height + 1);
                assert_eq!(context.y + context.height, height);
            } else {
                panic!("a tall panel shows all parts");
            }
        }
        match project_layout(whole) {
            ProjectLayout::Brief { header, stage } => {
                assert_eq!((header.y, header.height), (2, 2));
                assert_eq!((stage.y, stage.height), (5, height - 3));
            }
            ProjectLayout::Full { header, context, stage, milestones } => {
                assert_eq!((header.y, header.height), (2, 2));
                assert_eq!((context.y, context.height), (5, height - 5));
                assert_eq!((stage.y, stage.height), (5, height - 5));
                assert_eq!((milestones.y, milestones.height), (1 + height, 1));
            }
            _ => assert!(height < 10),
        }
    }
}

#[test]
fn columns_divide_the_width() {
    for width in 0..=260_u16 {
        let whole = Rect::new(7, 1, width, 30);
        let wide = u32::from(width);
        let areas = wide_bulletin(whole);
        if 60 * wide + 200 <= 100 * wide {
            assert_eq!(areas.log.width, nearest(60 * wide, 100));
            assert_eq!(areas.detail.x, areas.log.x + areas.log.width + 2);
            assert_eq!(areas.detail.x + areas.detail.width, 7 + width);
        }
        let areas = wide_areas(whole, 40);
        if width >= 2 {
            assert_eq!(areas.programme.x, 7);
            assert_eq!(areas.programme.width, nearest((wide - 2) * 3, 5));
            assert_eq!(areas.identity.x, 7 + areas.programme.width + 2);
            assert_eq!(areas.identity.x + areas.identity.width, 7 + width);
            assert_eq!(areas.investment.width, nearest(wide - 2, 3));
            assert_eq!(areas.delivery.x + areas.delivery.width, 8 + nearest((wide - 2) * 2, 3));
            assert_eq!(areas.network.x + areas.network.width, 7 + width);
            assert_eq!(areas.projects.width, first_of_two(58, wide, 1));
            assert_eq!(areas.project.x, 7 + areas.projects.width + 1);
            assert_eq!(areas.project.x + areas.project.width, 7 + width);
        }
        let areas = wide_company(whole, true);
        if width >= 6 {
            let spare = wide - 6;
            for i in 0..4_u16 {
                let part = areas.operations[usize::from(i)];
                let end = 7 + 2 * i + nearest(spare * (u32::from(i) + 1), 4);
                assert_eq!(part.x + part.width, end);
            }
            assert_eq!(areas.receipts.width, nearest((wide - 2) * 2, 3));
        }
        let (routes, line, details) = review_areas(whole, 80);
        if width >= 35 {
            assert_eq!((routes.x, routes.width), (7, 34));
            assert_eq!((line.x, line.width), (41, 1));
            assert_eq!((details.x, details.width), (42, width - 35));
        }
        if let ProjectLayout::Full { context, stage, .. } = project_layout(whole) {
            if width >= 82 {
                assert_eq!(context.width, first_of_two(50, wide, 2));
                assert_eq!(stage.x, 7 + context.width + 2);
                assert_eq!(stage.x + stage.width, 7 + width);
            }
        }
    }
    assert_eq!(Rect::new(65_530, 0, 10, 4), Rect { x: 65_530, y: 0, width: 5, height: 4 });
}
