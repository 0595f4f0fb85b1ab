//! The head-to-head record of a team.
use crate::saturate::clamp_u32;
use crate::saturate::narrow_u32;
use crate::storage::FplEndpoints;
use crate::storage::table::H2HInfo;
use crate::storage::table::Scoring;
use crate::storage::table::scoring_of;
use crate::structs::details::H2HMatch;
use crate::structs::details::LeagueEntry;
use crate::structs::details::TeamStandings;
use vstd::prelude::*;

verus! {

/// The league entry id of a team: that of the first league entry for the
/// team.
pub open spec fn league_entry_of(entries: Seq<LeagueEntry>, team_id: u32) -> Option<u32>
    decreases entries.len(),
{
    if entries.len() == 0 {
        None
    } else if entries[0].entry_id == team_id {
        Some(entries[0].id)
    } else {
        league_entry_of(entries.drop_first(), team_id)
    }
}

/// The first standings row of a league entry.
pub open spec fn standings_row(standings: Seq<TeamStandings>, league_entry: u32) -> Option<
    TeamStandings,
>
    decreases standings.len(),
{
    if standings.len() == 0 {
        None
    } else if standings[0].league_entry == league_entry {
        Some(standings[0])
    } else {
        standings_row(standings.drop_first(), league_entry)
    }
}

/// The schedule of the league: empty where the league has none.
pub open spec fn schedule_of(endpoints: FplEndpoints) -> Seq<H2HMatch> {
    match endpoints.details.matches {
        Some(matches) => matches@,
        None => Seq::empty(),
    }
}

/// Whom a league entry meets in a gameweek: the other side of the first
/// match of that gameweek that the entry is in, zero where there is none.
pub open spec fn opponent_in(schedule: Seq<H2HMatch>, gameweek: u32, league_entry: u32) -> u32
    decreases schedule.len(),
{
    if schedule.len() == 0 {
        0
    } else if schedule[0].event == gameweek && schedule[0].league_entry_1 == league_entry {
        schedule[0].league_entry_2
    } else if schedule[0].event == gameweek && schedule[0].league_entry_2 == league_entry {
        schedule[0].league_entry_1
    } else {
        opponent_in(schedule.drop_first(), gameweek, league_entry)
    }
}

/// Whom a league entry meets in the current gameweek: zero where no
/// gameweek is current or the schedule has no match for the entry.
pub open spec fn current_opponent(endpoints: FplEndpoints, league_entry: u32) -> u32 {
    match endpoints.game.current_event {
        Some(gameweek) => opponent_in(schedule_of(endpoints), gameweek, league_entry),
        None => 0,
    }
}

/// What `count` holds, zero where it holds nothing.
pub open spec fn count_of(count: Option<u32>) -> u32 {
    match count {
        Some(n) => n,
        None => 0,
    }
}

/// The record that a standings row gives.
pub open spec fn record_of(row: TeamStandings, opponent: u32) -> H2HInfo {
    H2HInfo {
        points: row.total,
        matches_drawn: count_of(row.matches_drawn),
        matches_lost: count_of(row.matches_lost),
        matches_played: clamp_u32(
            (count_of(row.matches_won) + count_of(row.matches_drawn) + count_of(
                row.matches_lost,
            )) as nat,
        ) as u32,
        matches_won: count_of(row.matches_won),
        current_opponent: opponent,
    }
}

/// The head-to-head record of a team: none in a classic league, for a team
/// that the league does not list, and for one without a standings row.
pub open spec fn h2h_info_of(endpoints: FplEndpoints, team_id: u32) -> Option<H2HInfo> {
    if scoring_of(endpoints.details.league.scoring@) != Scoring::H2H {
        None
    } else {
        match league_entry_of(endpoints.details.league_entries@, team_id) {
            None => None,
            Some(league_entry) => match standings_row(
                endpoints.details.standings@,
                league_entry,
            ) {
                None => None,
                Some(row) => Some(record_of(row, current_opponent(endpoints, league_entry))),
            },
        }
    }
}

/// The league entry id of a team.
pub fn get_team_id_from_entry_id(endpoints: &FplEndpoints, id: u32) -> (r: Option<u32>)
    ensures
        r == league_entry_of(endpoints.details.league_entries@, id),
{
    let entries = &endpoints.details.league_entries;
    let mut k: usize = 0;
    assert(entries@.skip(0) =~= entries@);
    while k < entries.len()
        invariant
            k <= entries@.len(),
            *entries == endpoints.details.league_entries,
            league_entry_of(entries@, id) == league_entry_of(entries@.skip(k as int), id),
        decreases entries@.len() - k,
    {
        assert(entries@.skip(k as int)[0] == entries@[k as int]);
        assert(entries@.skip(k as int).drop_first() =~= entries@.skip(k + 1));
        if entries[k].entry_id == id {
            return Some(entries[k].id);
        }
        k += 1;
    }
    None
}

fn find_standings(endpoints: &FplEndpoints, league_entry: u32) -> (r: Option<&TeamStandings>)
    ensures
        match r {
            Some(row) => standings_row(endpoints.details.standings@, league_entry) == Some(*row),
            None => standings_row(endpoints.details.standings@, league_entry) is None,
        },
{
    let standings = &endpoints.details.standings;
    let mut k: usize = 0;
    assert(standings@.skip(0) =~= standings@);
    while k < standings.len()
        invariant
            k <= standings@.len(),
            *standings == endpoints.details.standings,
            standings_row(standings@, league_entry) == standings_row(
                standings@.skip(k as int),
                league_entry,
            ),
        decreases standings@.len() - k,
    {
        assert(standings@.skip(k as int)[0] == standings@[k as int]);
        assert(standings@.skip(k as int).drop_first() =~= standings@.skip(k + 1));
        if standings[k].league_entry == league_entry {
            return Some(&standings[k]);
        }
        k += 1;
    }
    None
}

fn find_opponent(schedule: &Vec<H2HMatch>, gameweek: u32, league_entry: u32) -> (r: u32)
    ensures
        r == opponent_in(schedule@, gameweek, league_entry),
{
    let mut k: usize = 0;
    assert(schedule@.skip(0) =~= schedule@);
    while k < schedule.len()
        invariant
            k <= schedule@.len(),
            opponent_in(schedule@, gameweek, league_entry) == opponent_in(
                schedule@.skip(k as int),
                gameweek,
                league_entry,
            ),
        decreases schedule@.len() - k,
    {
        assert(schedule@.skip(k as int)[0] == schedule@[k as int]);
        assert(schedule@.skip(k as int).drop_first() =~= schedule@.skip(k + 1));
        if schedule[k].event == gameweek && schedule[k].league_entry_1 == league_entry {
            return schedule[k].league_entry_2;
        }
        if schedule[k].event == gameweek && schedule[k].league_entry_2 == league_entry {
            return schedule[k].league_entry_1;
        }
        k += 1;
    }
    0
}

/// Whom a league entry meets in the current gameweek.
pub fn get_current_h2h_opponent(endpoints: &FplEndpoints, league_entry: u32) -> (r: u32)
    ensures
        r == current_opponent(*endpoints, league_entry),
{
    match (&endpoints.game.current_event, &endpoints.details.matches) {
        (Some(gameweek), Some(schedule)) => find_opponent(schedule, *gameweek, league_entry),
        _ => 0,
    }
}

fn count(held: &Option<u32>) -> (r: u32)
    ensures
        r == count_of(*held),
{
    match held {
        Some(n) => *n,
        None => 0,
    }
}

/// The head-to-head record of a team.
pub fn compute_h2h_info(endpoints: &FplEndpoints, id: u32) -> (r: Option<H2HInfo>)
    ensures
        r == h2h_info_of(*endpoints, id),
{
    match crate::propcomp::get_league_scoring(endpoints) {
        Scoring::CLASSIC => {
            return None;
        },
        Scoring::H2H => {},
    }
    let league_entry = match get_team_id_from_entry_id(endpoints, id) {
        None => {
            return None;
        },
        Some(league_entry) => league_entry,
    };
    let team_standings = match find_standings(endpoints, league_entry) {
        None => {
            return None;
        },
        Some(standings) => standings,
    };
    let matches_drawn = count(&team_standings.matches_drawn);
    let matches_lost = count(&team_standings.matches_lost);
    let matches_won = count(&team_standings.matches_won);
    let matches_played = narrow_u32(
        matches_won as u64 + matches_drawn as u64 + matches_lost as u64,
    );
    Some(
        H2HInfo {
            points: team_standings.total,
            matches_won,
            matches_played,
            matches_drawn,
            matches_lost,
            current_opponent: get_current_h2h_opponent(endpoints, league_entry),
        },
    )
}

} // verus!
