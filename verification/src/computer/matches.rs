//! The matches of a head-to-head league, gameweek by gameweek.
use crate::computer::head_to_head::schedule_of;
use crate::storage::FplEndpoints;
use crate::storage::table::H2HMatch as TableH2HMatch;
use crate::storage::table::matches_shown;
use crate::storage::table::Scoring;
use crate::storage::table::scoring_of;
use crate::structs::details::H2HMatch;
use std::collections::HashMap;
use vstd::prelude::*;

verus! {

/// How many gameweeks a season is taken to have where the reference data
/// cannot tell.
pub const USUAL_GAMEWEEKS: u32 = 38;

/// A match of the schedule as the table shows it.
pub open spec fn match_shown(league_match: H2HMatch) -> TableH2HMatch {
    TableH2HMatch {
        gw: league_match.event,
        league_entry_1: league_match.league_entry_1,
        league_entry_2: league_match.league_entry_2,
        started: league_match.started,
        finished: league_match.finished,
    }
}

/// The matches of one gameweek, in the order of the schedule.
pub open spec fn matches_in(schedule: Seq<H2HMatch>, gw: u32) -> Seq<TableH2HMatch>
    decreases schedule.len(),
{
    if schedule.len() == 0 {
        Seq::empty()
    } else {
        let before = matches_in(schedule.drop_last(), gw);
        if schedule.last().event == gw {
            before.push(match_shown(schedule.last()))
        } else {
            before
        }
    }
}

/// How many gameweeks the season has: as many as the reference data
/// lists.
pub open spec fn gameweeks(endpoints: FplEndpoints) -> u32 {
    if endpoints.static_info.events.data@.len() <= u32::MAX {
        endpoints.static_info.events.data@.len() as u32
    } else {
        USUAL_GAMEWEEKS
    }
}

/// The matches of the gameweeks `1` to `last`, by gameweek.
pub open spec fn matches_until(schedule: Seq<H2HMatch>, last: u32) -> Map<u32, Seq<TableH2HMatch>> {
    Map::new(|gw: u32| 1 <= gw <= last, |gw: u32| matches_in(schedule, gw))
}

/// The matches of the league by gameweek: for a head-to-head league, an
/// entry for each gameweek of the season; nothing for a classic league.
pub open spec fn league_matches(endpoints: FplEndpoints) -> Option<Map<u32, Seq<TableH2HMatch>>> {
    if scoring_of(endpoints.details.league.scoring@) == Scoring::H2H {
        Some(matches_until(schedule_of(endpoints), gameweeks(endpoints)))
    } else {
        None
    }
}

/// A match of the schedule as the table shows it.
pub fn compute_table_league_match(league_match: &H2HMatch) -> (r: TableH2HMatch)
    ensures
        r == match_shown(*league_match),
{
    TableH2HMatch {
        gw: league_match.event,
        league_entry_1: league_match.league_entry_1,
        league_entry_2: league_match.league_entry_2,
        started: league_match.started,
        finished: league_match.finished,
    }
}

/// The matches of one gameweek.
pub fn compute_gw_league_matches(gw: u32, endpoints: &FplEndpoints) -> (r: Vec<TableH2HMatch>)
    ensures
        r@ == matches_in(schedule_of(*endpoints), gw),
{
    let mut found: Vec<TableH2HMatch> = Vec::new();
    match &endpoints.details.matches {
        Option::None => {},
        Option::Some(league_matches) => {
            let mut k: usize = 0;
            assert(league_matches@.take(0) =~= Seq::<H2HMatch>::empty());
            while k < league_matches.len()
                invariant
                    k <= league_matches@.len(),
                    found@ == matches_in(league_matches@.take(k as int), gw),
                decreases league_matches@.len() - k,
            {
                assert(league_matches@.take(k + 1).drop_last() =~= league_matches@.take(k as int));
                assert(league_matches@.take(k + 1).last() == league_matches@[k as int]);
                if league_matches[k].event == gw {
                    found.push(compute_table_league_match(&league_matches[k]));
                }
                k += 1;
            }
            assert(league_matches@.take(k as int) =~= league_matches@);
        },
    }
    found
}

/// The matches of the league by gameweek.
pub fn compute_all_league_matches(endpoints: &FplEndpoints) -> (r: Option<
    HashMap<u32, Vec<TableH2HMatch>>,
>)
    ensures
        match r {
            Some(matches) => league_matches(*endpoints) == Some(matches_shown(matches@)),
            None => league_matches(*endpoints) is None,
        },
{
    match crate::propcomp::get_league_scoring(endpoints) {
        Scoring::CLASSIC => None,
        Scoring::H2H => {
            broadcast use vstd::std_specs::hash::group_hash_axioms;

            let mut league_matches: HashMap<u32, Vec<TableH2HMatch>> = HashMap::new();
            let listed = endpoints.static_info.events.data.len();
            let n_gameweeks: u32 = if listed <= 4294967295usize {
                listed as u32
            } else {
                USUAL_GAMEWEEKS
            };
            let ghost schedule = schedule_of(*endpoints);
            let mut gw: u32 = 0;
            assert(matches_shown(league_matches@) =~= matches_until(schedule, 0));
            while gw < n_gameweeks
                invariant
                    gw <= n_gameweeks,
                    schedule == schedule_of(*endpoints),
                    matches_shown(league_matches@) == matches_until(schedule, gw),
                decreases n_gameweeks - gw,
            {
                let ghost before = league_matches@;
                gw += 1;
                let gw_matches = compute_gw_league_matches(gw, endpoints);
                league_matches.insert(gw, gw_matches);
                proof {
                    let now = matches_shown(league_matches@);
                    let wanted = matches_until(schedule, gw);
                    assert(league_matches@ == before.insert(gw, gw_matches));
                    assert forall|g: u32| now.contains_key(g) == wanted.contains_key(g) by {
                        assert(matches_shown(before).contains_key(g) == (1 <= g <= gw - 1));
                    }
                    assert forall|g: u32| now.contains_key(g) implies now[g] == wanted[g] by {
                        if g != gw {
                            assert(matches_shown(before)[g] == matches_until(
                                schedule,
                                (gw - 1) as u32,
                            )[g]);
                        }
                    }
                    assert(now =~= wanted);
                }
            }
            Some(league_matches)
        },
    }
}

} // verus!
