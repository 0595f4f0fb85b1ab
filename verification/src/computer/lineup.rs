//! Which players of a roster are certain to be substituted.
//!
//! The upstream system substitutes only once a gameweek is over. Before
//! that, a starter whose fixtures are all finished and who never played is
//! certain to make way, if the bench holds somebody who may take the place.
//! This module says who pairs up with whom. A roster is taken in the order
//! it is given in, which is the order of the pick slots once it is sorted.
use crate::storage::table::PlayStatus;
use vstd::prelude::*;

verus! {

/// The number of the goalkeeper's position.
pub const GOALKEEPER: u32 = 1;

/// The number of the defenders' position.
pub const DEFENDER: u32 = 2;

/// The number of the midfielders' position.
pub const MIDFIELDER: u32 = 3;

/// The number of the forwards' position.
pub const FORWARD: u32 = 4;

/// The first pick slot on the bench.
pub const FIRST_BENCH_SLOT: i32 = 12;

/// How many outfield players a full line-up fields.
pub const OUTFIELD_PLAYERS: usize = 10;

/// What the schedule reads of a player.
pub struct Facts {
    pub id: u32,
    /// The number of the position.
    pub position: u32,
    pub on_field: bool,
    pub pick_number: i32,
    pub has_played: bool,
    pub fixtures_finished: bool,
    pub has_upcoming_fixtures: bool,
}

/// A scheduled substitution, by the places of the two players in the
/// roster.
#[derive(Clone, Copy, Debug, PartialEq, Eq, Structural)]
pub struct Swap {
    pub coming_on: usize,
    pub going_off: usize,
}

/// What is known of a player's gameweek.
#[derive(Clone, Copy, Debug, PartialEq, Eq, Structural)]
pub enum Standing {
    /// On the field, and has played or may still play.
    Sure,
    /// On the field with all fixtures finished and no minute played.
    Blanked,
    /// On the bench, and has played or may still play.
    Ready,
}

/// A part of the pitch.
#[derive(Clone, Copy, Debug, PartialEq, Eq, Structural)]
pub enum Place {
    Keeper,
    /// Any position but the goalkeeper's.
    Outfield,
    /// One position, by its number.
    At(u32),
}

/// Whether a player is a goalkeeper.
pub open spec fn is_keeper(p: Facts) -> bool {
    p.position == GOALKEEPER
}

/// Whether a player sits on the bench: picked for it and not brought on
/// since.
pub open spec fn on_bench(p: Facts) -> bool {
    p.pick_number >= FIRST_BENCH_SLOT && !p.on_field
}

/// Whether a player has a standing. A goalkeeper on the bench may still
/// play if a fixture of his has yet to start, an outfield player if one
/// has yet to finish.
pub open spec fn stands(standing: Standing, p: Facts) -> bool {
    match standing {
        Standing::Sure => p.on_field && (p.has_played || !p.fixtures_finished),
        Standing::Blanked => p.on_field && !p.has_played && p.fixtures_finished,
        Standing::Ready => on_bench(p) && (p.has_played || if is_keeper(p) {
            p.has_upcoming_fixtures
        } else {
            !p.fixtures_finished
        }),
    }
}

/// Whether a player plays in a part of the pitch.
pub open spec fn plays_in(place: Place, p: Facts) -> bool {
    match place {
        Place::Keeper => is_keeper(p),
        Place::Outfield => !is_keeper(p),
        Place::At(position) => p.position == position,
    }
}

/// Whether a schedule already has the player at place `i` of the roster
/// coming on or going off.
pub open spec fn involved(plan: Seq<Swap>, i: usize) -> bool {
    exists|t: int|
        0 <= t < plan.len() && ((#[trigger] plan[t]).coming_on == i || plan[t].going_off == i)
}

/// Whether the player at place `i` is a candidate: of the given standing,
/// in the given part of the pitch, and not yet in the schedule.
pub open spec fn eligible(
    roster: Seq<Facts>,
    standing: Standing,
    place: Place,
    plan: Seq<Swap>,
    i: int,
) -> bool {
    &&& 0 <= i < roster.len()
    &&& stands(standing, roster[i])
    &&& plays_in(place, roster[i])
    &&& !involved(plan, i as usize)
}

/// The candidates among the first `n` players, in roster order.
pub open spec fn candidates_below(
    roster: Seq<Facts>,
    standing: Standing,
    place: Place,
    plan: Seq<Swap>,
    n: nat,
) -> Seq<usize>
    decreases n,
{
    if n == 0 {
        Seq::empty()
    } else {
        let before = candidates_below(roster, standing, place, plan, (n - 1) as nat);
        if eligible(roster, standing, place, plan, n - 1) {
            before.push((n - 1) as usize)
        } else {
            before
        }
    }
}

/// The candidates of the roster, in roster order.
pub open spec fn candidates(
    roster: Seq<Facts>,
    standing: Standing,
    place: Place,
    plan: Seq<Swap>,
) -> Seq<usize> {
    candidates_below(roster, standing, place, plan, roster.len())
}

/// How many players of the roster have the standing in that part of the
/// pitch.
pub open spec fn headcount(roster: Seq<Facts>, standing: Standing, place: Place) -> nat {
    candidates(roster, standing, place, Seq::empty()).len()
}

/// How many the line-up is short of `target`.
pub open spec fn shortfall(target: nat, have: nat) -> nat {
    if have >= target {
        0
    } else {
        (target - have) as nat
    }
}

/// How many swaps come of pairing two lists of candidates when `wanted`
/// are wanted.
pub open spec fn pairs(coming: Seq<usize>, going: Seq<usize>, wanted: nat) -> nat {
    let available = if coming.len() <= going.len() {
        coming.len()
    } else {
        going.len()
    };
    if wanted <= available {
        wanted
    } else {
        available
    }
}

/// The first of `coming` for the first of `going`, the second for the
/// second, and so on, until `wanted` swaps are made or a list runs out.
pub open spec fn pair_up(coming: Seq<usize>, going: Seq<usize>, wanted: nat) -> Seq<Swap> {
    Seq::new(
        pairs(coming, going, wanted),
        |t: int| Swap { coming_on: coming[t], going_off: going[t] },
    )
}

/// A schedule after one pass: ready bench players of `place` come on for
/// blanked starters of `place`, as far as `wanted` asks and both last.
pub open spec fn pass(roster: Seq<Facts>, plan: Seq<Swap>, place: Place, wanted: nat) -> Seq<
    Swap,
> {
    plan + pair_up(
        candidates(roster, Standing::Ready, place, plan),
        candidates(roster, Standing::Blanked, place, plan),
        wanted,
    )
}

/// How many players a position must field.
pub open spec fn minimum_for(position: u32) -> nat {
    if position == DEFENDER {
        3
    } else if position == MIDFIELDER {
        2
    } else if position == FORWARD {
        1
    } else {
        0
    }
}

/// How many players a position is short of its minimum before anybody
/// comes on: those who are sure to play count.
pub open spec fn short_at(roster: Seq<Facts>, position: u32) -> nat {
    shortfall(minimum_for(position), headcount(roster, Standing::Sure, Place::At(position)))
}

/// A schedule after the pass that brings one position up to its minimum.
pub open spec fn minimum_pass(roster: Seq<Facts>, plan: Seq<Swap>, position: u32) -> Seq<Swap> {
    pass(roster, plan, Place::At(position), short_at(roster, position))
}

/// How many swaps of a schedule bring an outfield player on.
pub open spec fn outfield_arrivals(roster: Seq<Facts>, plan: Seq<Swap>) -> nat
    decreases plan.len(),
{
    if plan.len() == 0 {
        0
    } else {
        let before = outfield_arrivals(roster, plan.drop_last());
        let on = plan.last().coming_on;
        if on < roster.len() && !is_keeper(roster[on as int]) {
            before + 1
        } else {
            before
        }
    }
}

/// The schedule once the goalkeeper and the three minimums are seen to.
pub open spec fn plan_of_minimums(roster: Seq<Facts>) -> Seq<Swap> {
    let keeper = pass(roster, Seq::empty(), Place::Keeper, 1);
    let defence = minimum_pass(roster, keeper, DEFENDER);
    let midfield = minimum_pass(roster, defence, MIDFIELDER);
    minimum_pass(roster, midfield, FORWARD)
}

/// How many outfield players the line-up is short of ten under a
/// schedule: those who are sure to play and those who come on count.
pub open spec fn short_outfield(roster: Seq<Facts>, plan: Seq<Swap>) -> nat {
    shortfall(
        OUTFIELD_PLAYERS as nat,
        headcount(roster, Standing::Sure, Place::Outfield) + outfield_arrivals(roster, plan),
    )
}

/// The whole schedule of a roster: the goalkeeper first, then each
/// outfield position up to its minimum, then the outfield up to ten.
pub open spec fn plan_of(roster: Seq<Facts>) -> Seq<Swap> {
    let minimums = plan_of_minimums(roster);
    pass(roster, minimums, Place::Outfield, short_outfield(roster, minimums))
}

/// The swap of a schedule that brings the player at place `i` on, if any.
pub open spec fn arrival(plan: Seq<Swap>, i: usize) -> Option<Swap>
    decreases plan.len(),
{
    if plan.len() == 0 {
        None
    } else if plan.last().coming_on == i {
        Some(plan.last())
    } else {
        arrival(plan.drop_last(), i)
    }
}

/// The swap of a schedule that takes the player at place `i` off, if any.
pub open spec fn departure(plan: Seq<Swap>, i: usize) -> Option<Swap>
    decreases plan.len(),
{
    if plan.len() == 0 {
        None
    } else if plan.last().going_off == i {
        Some(plan.last())
    } else {
        departure(plan.drop_last(), i)
    }
}

/// The play status of the player at place `i` under a schedule. Who comes
/// on or goes off is paired with the other player of the swap; of the
/// others, who is on the field plays and who is not sits on the bench.
pub open spec fn status_under(roster: Seq<Facts>, plan: Seq<Swap>, i: int) -> PlayStatus {
    match arrival(plan, i as usize) {
        Some(swap) => PlayStatus::SubbedIn { subbed_with: roster[swap.going_off as int].id },
        None => match departure(plan, i as usize) {
            Some(swap) => PlayStatus::SubbedOff { subbed_with: roster[swap.coming_on as int].id },
            None => if roster[i].on_field {
                PlayStatus::Playing
            } else {
                PlayStatus::Benched
            },
        },
    }
}

/// Whether a play status has the player take part in the gameweek.
pub open spec fn takes_part(status: PlayStatus) -> bool {
    status is Playing || status is SubbedIn
}

/// The play status of each player of a roster.
pub open spec fn resolve(roster: Seq<Facts>) -> Seq<PlayStatus> {
    Seq::new(roster.len(), |i: int| status_under(roster, plan_of(roster), i))
}

} // verus!
