//! A team's roster for one gameweek.
use vstd::prelude::*;

verus! {

/// The roster of a team for one gameweek.
#[derive(Clone, Debug)]
pub struct TeamGw {
    pub picks: Vec<Pick>,
    /// Substitutions that have already been made final this gameweek.
    pub subs: Vec<Substitution>,
}

/// One pick of a roster.
#[derive(Clone, Copy, Debug)]
pub struct Pick {
    /// The player id.
    pub element: i32,
    /// The pick slot: 1 to 11 start, 12 to 15 sit on the bench in order
    /// of priority.
    pub position: i32,
    pub is_captain: Option<bool>,
    pub is_vice_captain: Option<bool>,
    pub multiplier: Option<i32>,
}

/// A substitution that the upstream system has made final.
#[derive(Clone, Copy, Debug)]
pub struct Substitution {
    pub element_in: i32,
    pub element_out: i32,
    pub event: i32,
}

} // verus!
