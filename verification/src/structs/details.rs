//! League details: metadata, participating teams, standings and, for
//! head-to-head leagues, the schedule of matches.
use vstd::prelude::*;

verus! {

/// The details of a league.
#[derive(Clone, Debug)]
pub struct Details {
    pub standings: Vec<TeamStandings>,
    pub league: LeagueInfo,
    /// Present for head-to-head leagues only.
    pub matches: Option<Vec<H2HMatch>>,
    pub league_entries: Vec<LeagueEntry>,
}

/// The standing of one league entry.
#[derive(Clone, Debug)]
pub struct TeamStandings {
    pub total: i32,
    /// Classic scoring only.
    pub event_total: Option<u32>,
    pub rank: Option<u32>,
    pub last_rank: Option<u32>,
    /// The league entry id (not the team id) this row belongs to.
    pub league_entry: u32,
    pub rank_sort: Option<u32>,
    /// Head-to-head scoring only.
    pub matches_drawn: Option<u32>,
    /// Head-to-head scoring only.
    pub matches_lost: Option<u32>,
    /// Head-to-head scoring only.
    pub matches_won: Option<u32>,
    /// Head-to-head scoring only.
    pub points_against: Option<i32>,
    /// Head-to-head scoring only.
    pub points_for: Option<i32>,
}

/// What a league is and how it is run.
#[derive(Clone, Debug)]
pub struct LeagueInfo {
    pub closed: Option<bool>,
    pub make_code_public: Option<bool>,
    pub trades: Option<String>,
    /// "h" for head-to-head and "c" for classic scoring.
    pub scoring: String,
    pub variety: Option<String>,
    pub start_event: Option<u32>,
    pub draft_pick_time_limit: Option<u32>,
    pub max_entries: Option<u32>,
    pub ko_rounds: Option<u32>,
    pub draft_dt: Option<String>,
    pub draft_status: Option<String>,
    pub admin_entry: Option<u32>,
    pub name: String,
    pub min_entries: Option<u32>,
    pub stop_event: Option<u32>,
    pub draft_tz_show: Option<String>,
    pub transaction_mode: Option<String>,
    pub id: u32,
}

/// A team taking part in a league.
#[derive(Clone, Debug)]
pub struct LeagueEntry {
    pub player_first_name: Option<String>,
    pub joined_time: Option<String>,
    pub short_name: Option<String>,
    /// The team id, which keys the per-team rosters and summaries.
    pub entry_id: u32,
    /// The league entry id, which standings and matches refer to.
    pub id: u32,
    pub waiver_pick: Option<u32>,
    pub player_last_name: Option<String>,
    pub entry_name: Option<String>,
}

/// A scheduled match between two league entries.
#[derive(Clone, Debug)]
pub struct H2HMatch {
    /// The gameweek the match is played in.
    pub event: u32,
    pub league_entry_1: u32,
    pub league_entry_1_points: u32,
    pub league_entry_2: u32,
    pub league_entry_2_points: u32,
    pub started: bool,
    pub finished: bool,
}

} // verus!
