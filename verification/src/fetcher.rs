//! What the refresh pipeline decides between its fetches.
//!
//! The pipeline itself waits on the network and on the clock. What it does
//! with a result is decided here: whether a failed fetch is tried again,
//! whether the reference data is due, which gameweek is current, and what
//! update a round of fetches amounts to.
use crate::client::ClientError;
use crate::storage::FplEndpointsUpdate;
use crate::structs::Details;
use crate::structs::Game;
use crate::structs::Live;
use crate::structs::StaticInfo;
use crate::structs::TeamGw;
use crate::structs::TeamInfo;
use std::collections::HashMap;
use vstd::prelude::*;

verus! {

/// How often an essential resource is tried in one cycle.
pub const ESSENTIAL_RETRIES: i32 = 15;

/// How long the pipeline waits after a failed attempt.
pub const RETRY_DELAY_MS: u64 = 10;

/// What a fetch brought: the value, or nothing where it failed.
pub open spec fn brought<T>(res: Result<T, ClientError>) -> Option<T> {
    match res {
        Ok(value) => Some(value),
        Err(_) => None,
    }
}

/// A failed fetch counts as no update.
pub fn handle_error_into_option<T>(res: Result<T, ClientError>) -> (r: Option<T>)
    ensures
        r == brought(res),
{
    match res {
        Ok(x) => Some(x),
        Err(_) => None,
    }
}

/// What follows an attempt at an essential resource.
pub enum Attempt<T> {
    /// The fetch succeeded.
    Fetched(T),
    /// The fetch failed. After the wait it is tried again, with so many
    /// attempts left.
    Again { left: i32, wait_ms: u64, error: ClientError },
    /// The fetch failed and no attempt is left. After the wait the fetch
    /// ends without a value.
    GivenUp { wait_ms: u64, error: ClientError },
}

/// Whether an attempt is to be made at all: as long as one is left.
pub fn may_attempt(left: i32) -> (r: bool)
    ensures
        r == (left > 0),
{
    left > 0
}

/// Decides what follows an attempt that was made with `left` attempts
/// left, itself included. Success ends the fetch. A failure uses the
/// attempt up and is followed by the wait; then the fetch is tried again
/// while attempts are left, and given up with the last.
pub fn after_attempt<T>(left: i32, retry_wait_ms: u64, outcome: Result<T, ClientError>) -> (r:
    Attempt<T>)
    requires
        left > 0,
    ensures
        match outcome {
            Ok(value) => r == Attempt::Fetched(value),
            Err(error) => if left > 1 {
                r == (Attempt::<T>::Again { left: (left - 1) as i32, wait_ms: retry_wait_ms, error })
            } else {
                r == (Attempt::<T>::GivenUp { wait_ms: retry_wait_ms, error })
            },
        },
{
    match outcome {
        Ok(value) => Attempt::Fetched(value),
        Err(error) => {
            if left > 1 {
                Attempt::Again { left: left - 1, wait_ms: retry_wait_ms, error }
            } else {
                Attempt::GivenUp { wait_ms: retry_wait_ms, error }
            }
        },
    }
}

/// Whether the reference data is due: when it was never fetched, and when
/// the period has elapsed since it was last fetched.
pub open spec fn is_due(last_fetch_ms: Option<u64>, now_ms: u64, period_ms: u64) -> bool {
    match last_fetch_ms {
        None => true,
        Some(last) => now_ms >= last + period_ms,
    }
}

/// Whether the reference data is to be fetched in this cycle.
pub fn static_info_is_due(last_fetch_ms: Option<u64>, now_ms: u64, period_ms: u64) -> (r: bool)
    ensures
        r == is_due(last_fetch_ms, now_ms, period_ms),
{
    match last_fetch_ms {
        None => true,
        Some(last) => now_ms >= last && now_ms - last >= period_ms,
    }
}

/// When the reference data was last fetched, after a cycle: now where the
/// cycle brought it, else when it was.
pub fn static_info_fetched_at(
    last_fetch_ms: Option<u64>,
    now_ms: u64,
    fetched: &Option<StaticInfo>,
) -> (r: Option<u64>)
    ensures
        r == if fetched is Some {
            Some(now_ms)
        } else {
            last_fetch_ms
        },
{
    if fetched.is_some() {
        Some(now_ms)
    } else {
        last_fetch_ms
    }
}

/// The current gameweek: the one that the state of the game names, or the
/// one last known where the state could not be fetched or names none.
pub open spec fn gameweek_of(game: Option<Game>, last_known: u32) -> u32 {
    match game {
        Some(state) => match state.current_event {
            Some(gw) => gw,
            None => last_known,
        },
        None => last_known,
    }
}

/// The gameweek that a cycle fetches for.
pub fn current_gameweek(game: &Option<Game>, last_known: u32) -> (r: u32)
    ensures
        r == gameweek_of(*game, last_known),
{
    match game {
        Some(state) => match state.current_event {
            Some(gw) => gw,
            None => last_known,
        },
        None => last_known,
    }
}

/// What a round of per-team fetches brought, team by team. Where a team
/// was fetched more than once, the last fetch counts.
pub open spec fn collected<T>(results: Seq<(u32, Result<T, ClientError>)>) -> Map<u32, Option<T>>
    decreases results.len(),
{
    if results.len() == 0 {
        Map::empty()
    } else {
        collected(results.drop_last()).insert(results.last().0, brought(results.last().1))
    }
}

/// Collects the results of a round of per-team fetches.
pub fn collect_team_results<T>(results: Vec<(u32, Result<T, ClientError>)>) -> (r: HashMap<
    u32,
    Option<T>,
>)
    ensures
        r@ == collected(results@),
{
    broadcast use vstd::std_specs::hash::group_hash_axioms;

    let ghost all = results@;
    let mut results = results;
    let mut collected_so_far: HashMap<u32, Option<T>> = HashMap::new();
    let ghost mut done: int = 0;
    assert(all.take(0) =~= Seq::<(u32, Result<T, ClientError>)>::empty());
    assert(all.skip(0) =~= all);
    while results.len() > 0
        invariant
            0 <= done,
            done + results@.len() == all.len(),
            results@ == all.skip(done),
            collected_so_far@ == collected(all.take(done)),
        decreases results@.len(),
    {
        let (team, res) = results.remove(0);
        proof {
            assert(all.take(done + 1).drop_last() =~= all.take(done));
            assert(all.take(done + 1).last() == all[done]);
            assert(all.skip(done)[0] == all[done]);
            assert(results@ =~= all.skip(done + 1));
        }
        collected_so_far.insert(team, handle_error_into_option(res));
        proof {
            done = done + 1;
        }
    }
    assert(all.take(done) =~= all);
    collected_so_far
}

/// The update that a round of fetches amounts to. Each resource that was
/// fetched is in it; each that failed, or was not due, is left out.
pub fn assemble_update(
    game: Option<Game>,
    details: Option<Details>,
    live: Result<Live, ClientError>,
    static_info: Option<Result<StaticInfo, ClientError>>,
    team_gws: Vec<(u32, Result<TeamGw, ClientError>)>,
    team_infos: Vec<(u32, Result<TeamInfo, ClientError>)>,
) -> (r: FplEndpointsUpdate)
    ensures
        r.game == game,
        r.details == details,
        r.live == brought(live),
        r.static_info == match static_info {
            Some(res) => brought(res),
            None => None,
        },
        r.teams_gws@ == collected(team_gws@),
        r.teams_infos@ == collected(team_infos@),
{
    FplEndpointsUpdate {
        details,
        game,
        live: handle_error_into_option(live),
        static_info: match static_info {
            Some(res) => handle_error_into_option(res),
            None => None,
        },
        teams_gws: collect_team_results(team_gws),
        teams_infos: collect_team_results(team_infos),
    }
}

} // verus!
