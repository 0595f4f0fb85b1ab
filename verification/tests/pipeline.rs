use fpl_proxy::client::base_url;
use fpl_proxy::client::client_base_url;
use fpl_proxy::client::game_url;
use fpl_proxy::client::league_details_url;
use fpl_proxy::client::live_url;
use fpl_proxy::client::static_url;
use fpl_proxy::client::team_gw_url;
use fpl_proxy::client::team_info_url;
use fpl_proxy::client::verify_error_code;
use fpl_proxy::client::ClientError;
use fpl_proxy::client::FPL_API_BASE;
use fpl_proxy::client::LOCAL_API_BASE;
use fpl_proxy::fetcher::after_attempt;
use fpl_proxy::fetcher::assemble_update;
use fpl_proxy::fetcher::collect_team_results;
use fpl_proxy::fetcher::current_gameweek;
use fpl_proxy::fetcher::handle_error_into_option;
use fpl_proxy::fetcher::may_attempt;
use fpl_proxy::fetcher::static_info_fetched_at;
use fpl_proxy::fetcher::static_info_is_due;
use fpl_proxy::fetcher::Attempt;
use fpl_proxy::fetcher::ESSENTIAL_RETRIES;
use fpl_proxy::fetcher::RETRY_DELAY_MS;
use fpl_proxy::initializer::build_app_context;
use fpl_proxy::initializer::read_config_file_flag;
use fpl_proxy::initializer::AppConfig;
use fpl_proxy::initializer::ConfigFlag;
use fpl_proxy::initializer::CONFIG_FILE_DEFAULT_PATH;
use fpl_proxy::structs::details::Details;
use fpl_proxy::structs::details::LeagueEntry;
use fpl_proxy::structs::details::LeagueInfo;
use fpl_proxy::structs::game::Game;
use fpl_proxy::structs::live::Live;
use fpl_proxy::structs::teamgw::TeamGw;
use fpl_proxy::structs::teaminfo;
use fpl_proxy::structs::teaminfo::TeamInfo;
use std::collections::HashMap;

fn failure() -> ClientError {
    ClientError::ReqwestError(String::from("timed out"))
}

fn game(current_event: Option<u32>) -> Game {
    Game {
        current_event,
        current_event_finished: None,
        next_event: None,
        processing_status: None,
        trades_time_for_approval: None,
        waivers_processed: None,
    }
}

fn details(teams: Vec<u32>) -> Details {
    let mut league_entries = Vec::new();
    for (k, team) in teams.iter().enumerate() {
        league_entries.push(LeagueEntry {
            player_first_name: None,
            joined_time: None,
            short_name: None,
            entry_id: *team,
            id: k as u32,
            waiver_pick: None,
            player_last_name: None,
            entry_name: None,
        });
    }
    Details {
        standings: Vec::new(),
        league: LeagueInfo {
            closed: None,
            make_code_public: None,
            trades: None,
            scoring: String::from("c"),
            variety: None,
            start_event: None,
            draft_pick_time_limit: None,
            max_entries: None,
            ko_rounds: None,
            draft_dt: None,
            draft_status: None,
            admin_entry: None,
            name: String::from("League"),
            min_entries: None,
            stop_event: None,
            draft_tz_show: None,
            transaction_mode: None,
            id: 305,
        },
        matches: None,
        league_entries,
    }
}

fn summary(points: i32) -> TeamInfo {
    TeamInfo {
        entry: teaminfo::Entry {
            event_points: 0,
            favourite_team: None,
            id: None,
            league_set: Vec::new(),
            name: String::from("Team"),
            overall_points: points,
            player_first_name: String::new(),
            player_last_name: String::new(),
            region_name: None,
            region_code_short: None,
            region_code_long: None,
            started_event: None,
            transactions_event: None,
            transactions_total: None,
        },
    }
}

#[test]
fn failed_fetch_counts_as_no_update() {
    assert_eq!(handle_error_into_option::<u32>(Ok(7)), Some(7));
    assert_eq!(handle_error_into_option::<u32>(Err(failure())), None);
}

#[test]
fn success_ends_the_attempts() {
    match after_attempt::<u32>(15, 10, Ok(3)) {
        Attempt::Fetched(value) => assert_eq!(value, 3),
        _ => panic!("a fetch that succeeded is done"),
    }
    match after_attempt::<u32>(1, 10, Ok(4)) {
        Attempt::Fetched(value) => assert_eq!(value, 4),
        _ => panic!("a fetch that succeeded is done"),
    }
}

#[test]
fn failure_uses_one_attempt_up() {
    match after_attempt::<u32>(15, 10, Err(failure())) {
        Attempt::Again { left, wait_ms, error } => {
            assert_eq!(left, 14);
            assert_eq!(wait_ms, 10);
            assert!(matches!(error, ClientError::ReqwestError(_)));
        }
        _ => panic!("attempts are left"),
    }
    match after_attempt::<u32>(2, 250, Err(failure())) {
        Attempt::Again { left, wait_ms, .. } => {
            assert_eq!(left, 1);
            assert_eq!(wait_ms, 250);
        }
        _ => panic!("an attempt is left"),
    }
}

#[test]
fn last_failure_gives_up() {
    match after_attempt::<u32>(1, 10, Err(ClientError::JsonError(String::from("bad json")))) {
        Attempt::GivenUp { wait_ms, error } => {
            assert_eq!(wait_ms, 10);
            assert_eq!(error.describe(), "Json error: bad json");
        }
        _ => panic!("no attempt is left"),
    }
}

#[test]
fn essential_fetch_is_tried_fifteen_times() {
    assert_eq!(ESSENTIAL_RETRIES, 15);
    assert_eq!(RETRY_DELAY_MS, 10);
    let mut left = ESSENTIAL_RETRIES;
    let mut attempts = 0;
    let mut given_up = false;
    while may_attempt(left) {
        attempts += 1;
        match after_attempt::<u32>(left, RETRY_DELAY_MS, Err(failure())) {
            Attempt::Again { left: rest, .. } => left = rest,
            Attempt::GivenUp { .. } => {
                given_up = true;
                left = 0;
            }
            Attempt::Fetched(_) => panic!("every attempt fails"),
        }
    }
    assert_eq!(attempts, 15);
    assert!(given_up);
    assert!(!may_attempt(0));
    assert!(!may_attempt(-4));
    assert!(may_attempt(1));
}

#[test]
fn reference_data_is_due_once_the_period_has_elapsed() {
    assert!(static_info_is_due(None, 0, 1_800_000));
    assert!(!static_info_is_due(Some(1_000), 1_000, 1_800_000));
    assert!(!static_info_is_due(Some(1_000), 1_800_999, 1_800_000));
    assert!(static_info_is_due(Some(1_000), 1_801_000, 1_800_000));
    assert!(static_info_is_due(Some(1_000), 9_000_000, 1_800_000));
    // the clock never runs backwards; if it did, nothing would be due
    assert!(!static_info_is_due(Some(5_000), 4_000, 10));
    assert!(static_info_is_due(Some(5_000), 4_000, 0) == false);
    assert!(static_info_is_due(Some(5_000), 5_000, 0));
    // a period that reaches past the end of time is never over
    assert!(!static_info_is_due(Some(u64::MAX), u64::MAX, 1));
}

#[test]
fn time_of_reference_data_moves_with_a_fetch() {
    assert_eq!(static_info_fetched_at(Some(10), 500, &None), Some(10));
    assert_eq!(static_info_fetched_at(None, 500, &None), None);
}

#[test]
fn gameweek_falls_back_to_the_last_known() {
    assert_eq!(current_gameweek(&Some(game(Some(7))), 6), 7);
    assert_eq!(current_gameweek(&Some(game(None)), 6), 6);
    assert_eq!(current_gameweek(&None, 6), 6);
}

#[test]
fn team_results_are_collected_by_team() {
    let results: Vec<(u32, Result<TeamInfo, ClientError>)> =
        vec![(1, Ok(summary(10))), (2, Err(failure())), (3, Ok(summary(30)))];
    let collected = collect_team_results(results);
    assert_eq!(collected.len(), 3);
    assert_eq!(collected[&1].as_ref().unwrap().entry.overall_points, 10);
    assert!(collected[&2].is_none());
    assert_eq!(collected[&3].as_ref().unwrap().entry.overall_points, 30);
    let none: Vec<(u32, Result<TeamInfo, ClientError>)> = Vec::new();
    assert!(collect_team_results(none).is_empty());
}

#[test]
fn last_result_of_a_team_counts() {
    let results: Vec<(u32, Result<TeamInfo, ClientError>)> =
        vec![(1, Ok(summary(10))), (1, Ok(summary(11))), (2, Ok(summary(20))), (2, Err(failure()))];
    let collected = collect_team_results(results);
    assert_eq!(collected.len(), 2);
    assert_eq!(collected[&1].as_ref().unwrap().entry.overall_points, 11);
    assert!(collected[&2].is_none());
}

#[test]
fn update_holds_what_the_round_brought() {
    let update = assemble_update(
        Some(game(Some(3))),
        None,
        Ok(Live { elements: HashMap::new(), fixtures: Vec::new() }),
        None,
        vec![(1, Ok(TeamGw { picks: Vec::new(), subs: Vec::new() })), (2, Err(failure()))],
        vec![(1, Err(failure()))],
    );
    assert_eq!(update.game.unwrap().current_event, Some(3));
    assert!(update.details.is_none());
    assert!(update.live.is_some());
    assert!(update.static_info.is_none());
    assert_eq!(update.teams_gws.len(), 2);
    assert!(update.teams_gws[&1].is_some());
    assert!(update.teams_gws[&2].is_none());
    assert_eq!(update.teams_infos.len(), 1);
    assert!(update.teams_infos[&1].is_none());
}

#[test]
fn failed_globals_are_left_out_of_the_update() {
    let update = assemble_update(
        None,
        Some(details(vec![1])),
        Err(failure()),
        Some(Err(failure())),
        Vec::new(),
        Vec::new(),
    );
    assert!(update.game.is_none());
    assert!(update.details.is_some());
    assert!(update.live.is_none());
    assert!(update.static_info.is_none());
    assert!(update.teams_gws.is_empty());
    assert!(!update.holds_all_globals());
}

#[test]
fn status_codes_of_success_pass() {
    assert!(verify_error_code(200).is_ok());
    assert!(verify_error_code(204).is_ok());
    assert!(verify_error_code(299).is_ok());
}

#[test]
fn other_status_codes_are_errors() {
    for code in [0u16, 100, 199, 300, 404, 500, 65535] {
        match verify_error_code(code) {
            Err(ClientError::HttpError(msg)) => {
                assert_eq!(msg, format!("Received error code: {}", code))
            }
            _ => panic!("an error that names the code"),
        }
    }
}

#[test]
fn errors_read_by_kind() {
    let text = String::from("gone");
    assert_eq!(ClientError::InternalError(text.clone()).describe(), "Internal client error: gone");
    assert_eq!(ClientError::ReqwestError(text.clone()).describe(), "Reqwest lib error: gone");
    assert_eq!(ClientError::HttpError(text.clone()).describe(), "HTTP error: gone");
    assert_eq!(ClientError::LocalError(text.clone()).describe(), "Local error: gone");
    assert_eq!(ClientError::JsonError(text).describe(), "Json error: gone");
}

#[test]
fn resources_are_found_under_the_base() {
    assert_eq!(base_url(false), "https://draft.premierleague.com/api/");
    assert_eq!(base_url(true), "/home/fl/db2/api");
    assert_eq!(base_url(false), FPL_API_BASE);
    assert_eq!(base_url(true), LOCAL_API_BASE);
    let base = "/data/api";
    assert_eq!(league_details_url(base, 305), "/data/api/league/305/details");
    assert_eq!(game_url(base), "/data/api/game");
    assert_eq!(team_gw_url(base, 856, 1), "/data/api/entry/856/event/1");
    assert_eq!(team_info_url(base, 856), "/data/api/entry/856/public");
    assert_eq!(live_url(base, 38), "/data/api/event/38/live");
    assert_eq!(static_url(base), "/data/api/bootstrap-static");
    assert_eq!(live_url(base_url(false), 0), "https://draft.premierleague.com/api//event/0/live");
    assert_eq!(team_info_url("", u32::MAX), "/entry/4294967295/public");
}

#[test]
fn configured_place_counts_for_the_local_backend_only() {
    let configured = Some(String::from("/srv/recorded"));
    assert_eq!(client_base_url(true, &configured), "/srv/recorded");
    assert_eq!(client_base_url(false, &configured), FPL_API_BASE);
    assert_eq!(client_base_url(true, &None), LOCAL_API_BASE);
    assert_eq!(client_base_url(false, &None), FPL_API_BASE);
}

#[test]
fn flag_names_the_configuration_file() {
    let args = |list: &[&str]| -> Vec<String> { list.iter().map(|a| String::from(*a)).collect() };
    assert!(matches!(read_config_file_flag(&args(&["app"])), ConfigFlag::Absent));
    assert!(matches!(read_config_file_flag(&args(&[])), ConfigFlag::Absent));
    match read_config_file_flag(&args(&["app", "-f", "my.toml", "-f", "other.toml"])) {
        ConfigFlag::Path(path) => assert_eq!(path, "my.toml"),
        _ => panic!("the flag is followed by a path"),
    }
    match read_config_file_flag(&args(&["app", "-v", "-f", "-f"])) {
        ConfigFlag::Path(path) => assert_eq!(path, "-f"),
        _ => panic!("the flag is followed by a path"),
    }
    assert!(matches!(read_config_file_flag(&args(&["app", "-f"])), ConfigFlag::MissingPath));
    assert!(matches!(read_config_file_flag(&args(&["app", "-F", "x"])), ConfigFlag::Absent));
    assert_eq!(CONFIG_FILE_DEFAULT_PATH, "./Config.toml");
}

#[test]
fn local_backend_only_when_configured() {
    let config = |local_fetch: Option<bool>| AppConfig { league_id: 305, local_fetch, local_url: None };
    assert!(config(Some(true)).uses_local_backend());
    assert!(!config(Some(false)).uses_local_backend());
    assert!(!config(None).uses_local_backend());
}

#[test]
fn context_lists_the_teams_of_the_league() {
    let context = build_app_context(305, &game(Some(4)), &details(vec![856, 12, 7])).unwrap();
    assert_eq!(context.league_id, 305);
    assert_eq!(context.team_ids, vec![856, 12, 7]);
    assert_eq!(context.gw, 4);
    assert_eq!(context.fetch_sleep_ms, 60_000);
    assert_eq!(context.static_info_fetch_freq_ms, 1_800_000);
}

#[test]
fn no_context_before_the_first_gameweek() {
    assert!(build_app_context(305, &game(None), &details(vec![856])).is_none());
}
