//! Live statistics of one gameweek: per player and per fixture.
use std::collections::HashMap;
use vstd::prelude::*;

verus! {

/// The live data of one gameweek.
#[derive(Clone, Debug)]
pub struct Live {
    /// Live statistics by player id.
    pub elements: HashMap<u32, Element>,
    pub fixtures: Vec<Fixture>,
}

/// The live data of one player.
#[derive(Clone, Debug)]
pub struct Element {
    /// One entry per fixture the player takes part in this gameweek. An
    /// entry is a pair written as a list: the point sources first, the
    /// fixture id second.
    pub explain: Vec<Vec<PointsOrFixture>>,
    pub stats: Stats,
}

/// An item of a breakdown entry: a list of point sources or a fixture id.
#[derive(Clone, Debug)]
pub enum PointsOrFixture {
    Points(Vec<Point>),
    Fixture(u32),
}

/// One source of points: a kind of event, how often it happened and what
/// it is worth in total.
#[derive(Clone, Debug)]
pub struct Point {
    pub name: String,
    pub points: i32,
    pub value: i32,
    pub stat: String,
}

/// The live statistics of one player.
#[derive(Clone, Debug)]
pub struct Stats {
    pub minutes: i32,
    pub goals_scored: Option<i32>,
    pub assists: Option<i32>,
    pub clean_sheets: Option<i32>,
    pub goals_conceded: Option<i32>,
    pub own_goals: Option<i32>,
    pub penalties_saved: Option<i32>,
    pub penalties_missed: Option<i32>,
    pub yellow_cards: Option<i32>,
    pub red_cards: Option<i32>,
    pub saves: Option<i32>,
    pub bonus: Option<i32>,
    pub bps: i32,
    pub total_points: i32,
    pub in_dreamteam: Option<bool>,
}

/// A fixture of the gameweek.
#[derive(Clone, Debug)]
pub struct Fixture {
    pub id: u32,
    pub started: bool,
    pub stats: Vec<FixtureStats>,
    pub code: Option<i32>,
    pub finished: bool,
    pub finished_provisional: bool,
    pub kickoff_time: Option<String>,
    pub minutes: i32,
    pub provisional_start_time: Option<bool>,
    pub team_a_score: Option<i32>,
    pub team_h_score: Option<i32>,
    pub event: Option<i32>,
    pub team_a: Option<i32>,
    pub team_h: Option<i32>,
}

/// One statistic of a fixture, split into the home and the away side.
#[derive(Clone, Debug)]
pub struct FixtureStats {
    /// The kind of statistic (such as red_cards, saves, bps, bonus).
    pub s: String,
    /// Home side.
    pub h: Vec<FixtureStat>,
    /// Away side.
    pub a: Vec<FixtureStat>,
}

/// The value of a statistic for one player.
#[derive(Clone, Copy, Debug)]
pub struct FixtureStat {
    pub element: u32,
    pub value: i32,
}

} // verus!
