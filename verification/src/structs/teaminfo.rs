//! A team's public summary.
use vstd::prelude::*;

verus! {

/// The public summary of a team.
#[derive(Clone, Debug)]
pub struct TeamInfo {
    pub entry: Entry,
}

/// What the summary says of the team.
#[derive(Clone, Debug)]
pub struct Entry {
    /// Points of the current gameweek as the season total counts them.
    pub event_points: i32,
    pub favourite_team: Option<i32>,
    pub id: Option<i32>,
    pub league_set: Vec<i32>,
    pub name: String,
    /// Points of the whole season, the current gameweek included.
    pub overall_points: i32,
    pub player_first_name: String,
    pub player_last_name: String,
    pub region_name: Option<String>,
    pub region_code_short: Option<String>,
    pub region_code_long: Option<String>,
    pub started_event: Option<i32>,
    pub transactions_event: Option<i32>,
    pub transactions_total: Option<i32>,
}

} // verus!
