use fpl_proxy::storage::FplEndpoints;
use fpl_proxy::storage::FplEndpointsUpdate;
use fpl_proxy::structs::details::Details;
use fpl_proxy::structs::details::LeagueInfo;
use fpl_proxy::structs::game::Game;
use fpl_proxy::structs::live::Live;
use fpl_proxy::structs::staticinfo;
use fpl_proxy::structs::staticinfo::Events;
use fpl_proxy::structs::staticinfo::Settings;
use fpl_proxy::structs::staticinfo::StaticInfo;
use fpl_proxy::structs::teamgw::Pick;
use fpl_proxy::structs::teamgw::TeamGw;
use fpl_proxy::structs::teaminfo;
use fpl_proxy::structs::teaminfo::TeamInfo;
use std::collections::HashMap;

fn game(current_event: u32) -> Game {
    Game {
        current_event: Some(current_event),
        current_event_finished: None,
        next_event: None,
        processing_status: None,
        trades_time_for_approval: None,
        waivers_processed: None,
    }
}

fn details(name: &str) -> Details {
    Details {
        standings: Vec::new(),
        league: LeagueInfo {
            closed: None,
            make_code_public: None,
            trades: None,
            scoring: String::from("c"),
            variety: None,
            start_event: None,
            draft_pick_time_limit: None,
            max_entries: None,
            ko_rounds: None,
            draft_dt: None,
            draft_status: None,
            admin_entry: None,
            name: String::from(name),
            min_entries: None,
            stop_event: None,
            draft_tz_show: None,
            transaction_mode: None,
            id: 1,
        },
        matches: None,
        league_entries: Vec::new(),
    }
}

fn live(fixtures: usize) -> Live {
    let mut list = Vec::new();
    for k in 0..fixtures {
        list.push(fpl_proxy::structs::live::Fixture {
            id: k as u32,
            started: false,
            stats: Vec::new(),
            code: None,
            finished: false,
            finished_provisional: false,
            kickoff_time: None,
            minutes: 0,
            provisional_start_time: None,
            team_a_score: None,
            team_h_score: None,
            event: None,
            team_a: None,
            team_h: None,
        });
    }
    Live { elements: HashMap::new(), fixtures: list }
}

fn static_info(current: i32) -> StaticInfo {
    StaticInfo {
        elements: Vec::new(),
        element_types: Vec::new(),
        element_stats: Vec::new(),
        events: Events { current: Some(current), data: Vec::new(), next: None },
        fixtures: HashMap::new(),
        settings: Settings {
            league: staticinfo::League {
                default_entries: None,
                draft_reminder_hours: Vec::new(),
                draft_postpone_hours: None,
                draft_pushback_times: None,
                h2h_draw: None,
                h2h_lose: None,
                h2h_win: None,
                max_entries: None,
                min_entries: None,
                private_max: None,
                public_draft_delay_minutes: None,
                public_draft_tz_default: None,
                public_entry_sizes: Vec::new(),
                public_max: None,
            },
            scoring: staticinfo::Scoring {
                long_play_limit: None,
                short_play: None,
                long_play: None,
                concede_limit: None,
                goals_conceded_GKP: None,
                goals_conceded_DEF: None,
                goals_conceded_MID: None,
                goals_conceded_FWD: None,
                saves_limit: None,
                saves: None,
                goals_scored_GKP: None,
                goals_scored_DEF: None,
                goals_scored_MID: None,
                goals_scored_FWD: None,
                assists: None,
                clean_sheets_GKP: None,
                clean_sheets_DEF: None,
                clean_sheets_MID: None,
                clean_sheets_FWD: None,
                penalties_saved: None,
                penalties_missed: None,
                yellow_cards: None,
                red_cards: None,
                own_goals: None,
                bonus: None,
            },
            squad: staticinfo::Squad {
                size: None,
                select_GKP: None,
                select_DEF: None,
                select_MID: None,
                select_FWD: None,
                play: None,
                min_play_GKP: None,
                max_play_GKP: None,
                min_play_DEF: None,
                max_play_DEF: None,
                min_play_MID: None,
                max_play_MID: None,
                min_play_FWD: None,
                max_play_FWD: None,
                position_type_locks: HashMap::new(),
                captains_disabled: None,
            },
            transactions: staticinfo::Transactions {
                new_element_locked_hours: None,
                trade_veto_minimum: None,
                trade_veto_hours: None,
                waivers_before_start_min_hours: None,
                waivers_before_deadline_hours: None,
                waivers_before_deadline_hours_event: HashMap::new(),
            },
            ui: staticinfo::Ui { use_special_shirts: None },
        },
        teams: Vec::new(),
    }
}

/// A roster that is told apart by the player in its first pick slot.
fn roster(first: i32) -> TeamGw {
    TeamGw {
        picks: vec![Pick {
            element: first,
            position: 1,
            is_captain: None,
            is_vice_captain: None,
            multiplier: None,
        }],
        subs: Vec::new(),
    }
}

/// A summary that is told apart by the points of the team.
fn summary(overall_points: i32) -> TeamInfo {
    TeamInfo {
        entry: teaminfo::Entry {
            event_points: 0,
            favourite_team: None,
            id: None,
            league_set: Vec::new(),
            name: String::from("Team"),
            overall_points,
            player_first_name: String::new(),
            player_last_name: String::new(),
            region_name: None,
            region_code_short: None,
            region_code_long: None,
            started_event: None,
            transactions_event: None,
            transactions_total: None,
        },
    }
}

fn held() -> FplEndpoints {
    let mut teams_gws = HashMap::new();
    teams_gws.insert(1, roster(11));
    teams_gws.insert(2, roster(22));
    let mut teams_infos = HashMap::new();
    teams_infos.insert(1, summary(100));
    teams_infos.insert(2, summary(200));
    FplEndpoints {
        details: details("held"),
        game: game(5),
        live: live(1),
        static_info: static_info(5),
        teams_gws,
        teams_infos,
    }
}

fn nothing() -> FplEndpointsUpdate {
    FplEndpointsUpdate {
        details: None,
        game: None,
        live: None,
        static_info: None,
        teams_gws: HashMap::new(),
        teams_infos: HashMap::new(),
    }
}

fn first_pick(snapshot: &FplEndpoints, team: u32) -> i32 {
    snapshot.teams_gws[&team].picks[0].element
}

fn points(snapshot: &FplEndpoints, team: u32) -> i32 {
    snapshot.teams_infos[&team].entry.overall_points
}

fn assert_as_held(snapshot: &FplEndpoints) {
    assert_eq!(snapshot.details.league.name, "held");
    assert_eq!(snapshot.game.current_event, Some(5));
    assert_eq!(snapshot.live.fixtures.len(), 1);
    assert_eq!(snapshot.static_info.events.current, Some(5));
    assert_eq!(snapshot.teams_gws.len(), 2);
    assert_eq!(first_pick(snapshot, 1), 11);
    assert_eq!(first_pick(snapshot, 2), 22);
    assert_eq!(snapshot.teams_infos.len(), 2);
    assert_eq!(points(snapshot, 1), 100);
    assert_eq!(points(snapshot, 2), 200);
}

#[test]
fn merging_nothing_changes_nothing() {
    let mut snapshot = held();
    snapshot.update(nothing());
    assert_as_held(&snapshot);
}

#[test]
fn merging_failed_team_fetches_changes_nothing() {
    let mut snapshot = held();
    let mut update = nothing();
    update.teams_gws.insert(1, None);
    update.teams_gws.insert(7, None);
    update.teams_infos.insert(2, None);
    snapshot.update(update);
    assert_as_held(&snapshot);
    assert!(!snapshot.teams_gws.contains_key(&7));
}

#[test]
fn merging_is_repeatable() {
    let mut once = held();
    let mut update = nothing();
    update.game = Some(game(6));
    update.teams_gws.insert(1, Some(roster(99)));
    once.update(update.clone());
    let mut twice = held();
    twice.update(update.clone());
    twice.update(update);
    assert_eq!(once.game.current_event, twice.game.current_event);
    assert_eq!(first_pick(&once, 1), first_pick(&twice, 1));
    assert_eq!(first_pick(&once, 2), first_pick(&twice, 2));
}

#[test]
fn fresh_game_replaces_the_held_one() {
    let mut snapshot = held();
    let mut update = nothing();
    update.game = Some(game(6));
    snapshot.update(update);
    assert_eq!(snapshot.game.current_event, Some(6));
    assert_eq!(snapshot.details.league.name, "held");
    assert_eq!(snapshot.live.fixtures.len(), 1);
    assert_eq!(snapshot.static_info.events.current, Some(5));
}

#[test]
fn fresh_details_replace_the_held_ones() {
    let mut snapshot = held();
    let mut update = nothing();
    update.details = Some(details("fresh"));
    snapshot.update(update);
    assert_eq!(snapshot.details.league.name, "fresh");
    assert_eq!(snapshot.game.current_event, Some(5));
}

#[test]
fn fresh_live_data_replaces_the_held() {
    let mut snapshot = held();
    let mut update = nothing();
    update.live = Some(live(3));
    snapshot.update(update);
    assert_eq!(snapshot.live.fixtures.len(), 3);
    assert_eq!(snapshot.static_info.events.current, Some(5));
}

#[test]
fn fresh_reference_data_replaces_the_held() {
    let mut snapshot = held();
    let mut update = nothing();
    update.static_info = Some(static_info(9));
    snapshot.update(update);
    assert_eq!(snapshot.static_info.events.current, Some(9));
    assert_eq!(snapshot.live.fixtures.len(), 1);
}

#[test]
fn every_fresh_resource_is_taken() {
    let mut snapshot = held();
    let mut update = nothing();
    update.details = Some(details("fresh"));
    update.game = Some(game(6));
    update.live = Some(live(2));
    update.static_info = Some(static_info(6));
    update.teams_gws.insert(1, Some(roster(12)));
    update.teams_infos.insert(2, Some(summary(201)));
    snapshot.update(update);
    assert_eq!(snapshot.details.league.name, "fresh");
    assert_eq!(snapshot.game.current_event, Some(6));
    assert_eq!(snapshot.live.fixtures.len(), 2);
    assert_eq!(snapshot.static_info.events.current, Some(6));
    assert_eq!(first_pick(&snapshot, 1), 12);
    assert_eq!(points(&snapshot, 2), 201);
}

#[test]
fn roster_of_one_team_leaves_the_others_alone() {
    let mut snapshot = held();
    let mut update = nothing();
    update.teams_gws.insert(1, Some(roster(99)));
    snapshot.update(update);
    assert_eq!(first_pick(&snapshot, 1), 99);
    assert_eq!(first_pick(&snapshot, 2), 22);
    assert_eq!(points(&snapshot, 1), 100);
    assert_eq!(points(&snapshot, 2), 200);
    assert_eq!(snapshot.teams_gws.len(), 2);
    assert_eq!(snapshot.teams_infos.len(), 2);
}

#[test]
fn summary_of_one_team_leaves_the_others_alone() {
    let mut snapshot = held();
    let mut update = nothing();
    update.teams_infos.insert(2, Some(summary(250)));
    update.teams_infos.insert(1, None);
    snapshot.update(update);
    assert_eq!(points(&snapshot, 2), 250);
    assert_eq!(points(&snapshot, 1), 100);
    assert_eq!(first_pick(&snapshot, 1), 11);
    assert_eq!(first_pick(&snapshot, 2), 22);
}

#[test]
fn new_team_is_added() {
    let mut snapshot = held();
    let mut update = nothing();
    update.teams_gws.insert(3, Some(roster(33)));
    update.teams_infos.insert(3, Some(summary(300)));
    snapshot.update(update);
    assert_eq!(snapshot.teams_gws.len(), 3);
    assert_eq!(first_pick(&snapshot, 3), 33);
    assert_eq!(points(&snapshot, 3), 300);
    assert_eq!(first_pick(&snapshot, 1), 11);
}

#[test]
fn first_snapshot_takes_what_the_update_brings() {
    let mut update = nothing();
    assert!(!update.holds_all_globals());
    update.details = Some(details("first"));
    update.game = Some(game(1));
    update.live = Some(live(4));
    assert!(!update.holds_all_globals());
    update.static_info = Some(static_info(1));
    assert!(update.holds_all_globals());
    update.teams_gws.insert(1, Some(roster(11)));
    update.teams_gws.insert(2, None);
    update.teams_infos.insert(1, Some(summary(10)));
    update.teams_infos.insert(2, Some(summary(20)));
    let snapshot = FplEndpoints::initialize_from_update(update);
    assert_eq!(snapshot.details.league.name, "first");
    assert_eq!(snapshot.game.current_event, Some(1));
    assert_eq!(snapshot.live.fixtures.len(), 4);
    assert_eq!(snapshot.static_info.events.current, Some(1));
    assert_eq!(snapshot.teams_gws.len(), 1);
    assert_eq!(first_pick(&snapshot, 1), 11);
    assert_eq!(snapshot.teams_infos.len(), 2);
    assert_eq!(points(&snapshot, 2), 20);
}
