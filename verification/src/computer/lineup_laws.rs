//! What holds of every schedule and of every resolved roster.
use crate::computer::lineup::arrival;
use crate::computer::lineup::candidates;
use crate::computer::lineup::candidates_below;
use crate::computer::lineup::DEFENDER;
use crate::computer::lineup::departure;
use crate::computer::lineup::eligible;
use crate::computer::lineup::Facts;
use crate::computer::lineup::FORWARD;
use crate::computer::lineup::involved;
use crate::computer::lineup::MIDFIELDER;
use crate::computer::lineup::minimum_pass;
use crate::computer::lineup::pair_up;
use crate::computer::lineup::pairs;
use crate::computer::lineup::pass;
use crate::computer::lineup::Place;
use crate::computer::lineup::plan_of;
use crate::computer::lineup::plan_of_minimums;
use crate::computer::lineup::plays_in;
use crate::computer::lineup::resolve;
use crate::computer::lineup::short_at;
use crate::computer::lineup::short_outfield;
use crate::computer::lineup::Standing;
use crate::computer::lineup::stands;
use crate::computer::lineup::Swap;
use crate::storage::table::PlayStatus;
use vstd::prelude::*;

verus! {

/// Whether every swap of a schedule names two places of a roster of `n`
/// players.
pub open spec fn within(plan: Seq<Swap>, n: nat) -> bool {
    forall|t: int|
        0 <= t < plan.len() ==> (#[trigger] plan[t]).coming_on < n && plan[t].going_off < n
}

/// Whether a schedule is sound for a roster: each swap brings a ready
/// bench player on for a blanked starter, and nobody is in two swaps.
pub open spec fn well_paired(roster: Seq<Facts>, plan: Seq<Swap>) -> bool {
    &&& within(plan, roster.len())
    &&& forall|t: int|
        0 <= t < plan.len() ==> stands(
            Standing::Ready,
            roster[(#[trigger] plan[t]).coming_on as int],
        ) && stands(Standing::Blanked, roster[plan[t].going_off as int])
    &&& forall|t: int, u: int|
        0 <= t < u < plan.len() ==> (#[trigger] plan[t]).coming_on != (#[trigger] plan[u]).coming_on
            && plan[t].going_off != plan[u].going_off
}

/// The candidates are places of the roster, are what `eligible` says, come
/// in rising order, and none is left out.
pub proof fn lemma_candidates(
    roster: Seq<Facts>,
    standing: Standing,
    place: Place,
    plan: Seq<Swap>,
    n: nat,
)
    requires
        n <= roster.len(),
        roster.len() <= usize::MAX,
    ensures
        candidates_below(roster, standing, place, plan, n).len() <= n,
        forall|k: int|
            0 <= k < candidates_below(roster, standing, place, plan, n).len() ==> {
                &&& (#[trigger] candidates_below(roster, standing, place, plan, n)[k]) < n
                &&& eligible(
                    roster,
                    standing,
                    place,
                    plan,
                    candidates_below(roster, standing, place, plan, n)[k] as int,
                )
            },
        forall|a: int, b: int|
            0 <= a < b < candidates_below(roster, standing, place, plan, n).len()
                ==> (#[trigger] candidates_below(roster, standing, place, plan, n)[a]) < (
            #[trigger] candidates_below(roster, standing, place, plan, n)[b]),
        forall|i: int|
            0 <= i < n && eligible(roster, standing, place, plan, i) ==> candidates_below(
                roster,
                standing,
                place,
                plan,
                n,
            ).contains(i as usize),
    decreases n,
{
    if n > 0 {
        let before = candidates_below(roster, standing, place, plan, (n - 1) as nat);
        let all = candidates_below(roster, standing, place, plan, n);
        lemma_candidates(roster, standing, place, plan, (n - 1) as nat);
        assert forall|i: int|
            0 <= i < n && eligible(roster, standing, place, plan, i) implies all.contains(
            i as usize,
        ) by {
            if i < n - 1 {
                let k = choose|k: int| 0 <= k < before.len() && before[k] == i as usize;
                assert(all[k] == i as usize);
            } else {
                assert(all[all.len() - 1] == i as usize);
            }
        }
    }
}

/// A pass keeps a schedule sound, and what it adds plays in the part of
/// the pitch that the pass is for.
pub proof fn lemma_pass(roster: Seq<Facts>, plan: Seq<Swap>, place: Place, wanted: nat)
    requires
        roster.len() <= usize::MAX,
        well_paired(roster, plan),
    ensures
        well_paired(roster, pass(roster, plan, place, wanted)),
        pass(roster, plan, place, wanted).len() >= plan.len(),
        pass(roster, plan, place, wanted).take(plan.len() as int) == plan,
        forall|t: int|
            plan.len() <= t < pass(roster, plan, place, wanted).len() ==> {
                &&& plays_in(
                    place,
                    roster[(#[trigger] pass(roster, plan, place, wanted)[t]).coming_on as int],
                )
                &&& plays_in(place, roster[pass(roster, plan, place, wanted)[t].going_off as int])
            },
{
    let coming = candidates(roster, Standing::Ready, place, plan);
    let going = candidates(roster, Standing::Blanked, place, plan);
    let added = pair_up(coming, going, wanted);
    let after = pass(roster, plan, place, wanted);
    lemma_candidates(roster, Standing::Ready, place, plan, roster.len());
    lemma_candidates(roster, Standing::Blanked, place, plan, roster.len());
    assert(after.take(plan.len() as int) =~= plan);
    assert forall|t: int| plan.len() <= t < after.len() implies {
        &&& (#[trigger] after[t]).coming_on == coming[t - plan.len()]
        &&& after[t].going_off == going[t - plan.len()]
        &&& eligible(roster, Standing::Ready, place, plan, after[t].coming_on as int)
        &&& eligible(roster, Standing::Blanked, place, plan, after[t].going_off as int)
    } by {
        assert(after[t] == added[t - plan.len()]);
    }
    assert forall|t: int| 0 <= t < after.len() implies (#[trigger] after[t]).coming_on
        < roster.len() && after[t].going_off < roster.len() && stands(
        Standing::Ready,
        roster[after[t].coming_on as int],
    ) && stands(Standing::Blanked, roster[after[t].going_off as int]) by {
        if t < plan.len() {
            assert(after[t] == plan[t]);
        }
    }
    assert forall|t: int, u: int| 0 <= t < u < after.len() implies (#[trigger] after[t]).coming_on
        != (#[trigger] after[u]).coming_on && after[t].going_off != after[u].going_off by {
        if u < plan.len() {
            assert(after[t] == plan[t] && after[u] == plan[u]);
        } else if t < plan.len() {
            assert(after[t] == plan[t]);
            assert(!involved(plan, after[u].coming_on));
            assert(!involved(plan, after[u].going_off));
        } else {
            assert(coming[t - plan.len()] < coming[u - plan.len()]);
            assert(going[t - plan.len()] < going[u - plan.len()]);
        }
    }
}

/// What `arrival` and `departure` find in a sound schedule: the one swap
/// that the player is in, and nothing on the other side.
pub proof fn lemma_lookup(roster: Seq<Facts>, plan: Seq<Swap>, t: int)
    requires
        well_paired(roster, plan),
        0 <= t < plan.len(),
    ensures
        arrival(plan, plan[t].coming_on) == Some(plan[t]),
        departure(plan, plan[t].going_off) == Some(plan[t]),
        departure(plan, plan[t].coming_on) is None,
        arrival(plan, plan[t].going_off) is None,
    decreases plan.len(),
{
    let front = plan.drop_last();
    let last = plan.last();
    assert(last == plan[plan.len() - 1]);
    assert(well_paired(roster, front)) by {
        assert forall|a: int| 0 <= a < front.len() implies front[a] == plan[a] by {}
    }
    lemma_absent(roster, plan, plan[t].coming_on);
    lemma_absent(roster, plan, plan[t].going_off);
    if t < plan.len() - 1 {
        assert(front[t] == plan[t]);
        lemma_lookup(roster, front, t);
    }
}

/// A player who is not ready does not arrive, one who is not blanked does
/// not depart.
pub proof fn lemma_absent(roster: Seq<Facts>, plan: Seq<Swap>, i: usize)
    requires
        well_paired(roster, plan),
        i < roster.len(),
    ensures
        !stands(Standing::Ready, roster[i as int]) ==> arrival(plan, i) is None,
        !stands(Standing::Blanked, roster[i as int]) ==> departure(plan, i) is None,
    decreases plan.len(),
{
    if plan.len() > 0 {
        let front = plan.drop_last();
        assert(plan.last() == plan[plan.len() - 1]);
        assert(well_paired(roster, front)) by {
            assert forall|a: int| 0 <= a < front.len() implies front[a] == plan[a] by {}
        }
        lemma_absent(roster, front, i);
    }
}

/// A swap that `arrival` or `departure` finds is one of the schedule and
/// has the player on the side that was asked for.
pub proof fn lemma_found(plan: Seq<Swap>, i: usize)
    ensures
        arrival(plan, i) matches Some(swap) ==> plan.contains(swap) && swap.coming_on == i,
        departure(plan, i) matches Some(swap) ==> plan.contains(swap) && swap.going_off == i,
    decreases plan.len(),
{
    if plan.len() > 0 {
        let front = plan.drop_last();
        lemma_found(front, i);
        assert(plan.last() == plan[plan.len() - 1]);
        match arrival(front, i) {
            Some(swap) => {
                let t = choose|t: int| 0 <= t < front.len() && front[t] == swap;
                assert(plan[t] == swap);
            },
            None => {},
        }
        match departure(front, i) {
            Some(swap) => {
                let t = choose|t: int| 0 <= t < front.len() && front[t] == swap;
                assert(plan[t] == swap);
            },
            None => {},
        }
    }
}

/// The schedule of any roster is sound.
pub proof fn lemma_plan_well_paired(roster: Seq<Facts>)
    requires
        roster.len() <= usize::MAX,
    ensures
        well_paired(roster, plan_of_minimums(roster)),
        well_paired(roster, plan_of(roster)),
{
    let nothing = Seq::<Swap>::empty();
    assert(well_paired(roster, nothing));
    let keeper = pass(roster, nothing, Place::Keeper, 1);
    lemma_pass(roster, nothing, Place::Keeper, 1);
    let defence = minimum_pass(roster, keeper, DEFENDER);
    lemma_minimum_pass(roster, keeper, DEFENDER);
    let midfield = minimum_pass(roster, defence, MIDFIELDER);
    lemma_minimum_pass(roster, defence, MIDFIELDER);
    let attack = minimum_pass(roster, midfield, FORWARD);
    lemma_minimum_pass(roster, midfield, FORWARD);
    assert(attack == plan_of_minimums(roster));
    lemma_pass(roster, attack, Place::Outfield, short_outfield(roster, attack));
}

/// A minimum pass keeps a schedule sound.
pub proof fn lemma_minimum_pass(roster: Seq<Facts>, plan: Seq<Swap>, position: u32)
    requires
        roster.len() <= usize::MAX,
        well_paired(roster, plan),
    ensures
        well_paired(roster, minimum_pass(roster, plan, position)),
{
    lemma_pass(roster, plan, Place::At(position), short_at(roster, position));
}

/// No player of a resolved roster is left without a play status.
pub proof fn lemma_nobody_unknown(roster: Seq<Facts>)
    ensures
        resolve(roster).len() == roster.len(),
        forall|i: int|
            0 <= i < roster.len() ==> #[trigger] resolve(roster)[i] != PlayStatus::Unknown,
{
}

/// Whether no two players of a roster share an id.
pub open spec fn distinct_ids(roster: Seq<Facts>) -> bool {
    forall|i: int, j: int|
        0 <= i < j < roster.len() ==> (#[trigger] roster[i]).id != (#[trigger] roster[j]).id
}

/// Whether the player at `i` comes on for the player at `j` and the player
/// at `j` goes off for the player at `i`.
pub open spec fn swapped(roster: Seq<Facts>, statuses: Seq<PlayStatus>, i: int, j: int) -> bool {
    &&& 0 <= i < roster.len()
    &&& 0 <= j < roster.len()
    &&& statuses[i] == PlayStatus::SubbedIn { subbed_with: roster[j].id }
    &&& statuses[j] == PlayStatus::SubbedOff { subbed_with: roster[i].id }
}

/// Whether nobody but the player at `j` goes off for the player at `i`.
pub open spec fn nobody_else_off(
    roster: Seq<Facts>,
    statuses: Seq<PlayStatus>,
    i: int,
    j: int,
) -> bool {
    forall|other: int|
        0 <= other < roster.len() && #[trigger] statuses[other] == (PlayStatus::SubbedOff {
            subbed_with: roster[i].id,
        }) ==> other == j
}

/// Whether nobody but the player at `i` comes on for the player at `j`.
pub open spec fn nobody_else_on(
    roster: Seq<Facts>,
    statuses: Seq<PlayStatus>,
    i: int,
    j: int,
) -> bool {
    forall|other: int|
        0 <= other < roster.len() && #[trigger] statuses[other] == (PlayStatus::SubbedIn {
            subbed_with: roster[j].id,
        }) ==> other == i
}

/// Whether the players at `i` and `j` make a pair: the one comes on for
/// the other, the other goes off for the one, and nobody else comes on or
/// goes off for either.
pub open spec fn paired(roster: Seq<Facts>, statuses: Seq<PlayStatus>, i: int, j: int) -> bool {
    &&& swapped(roster, statuses, i, j)
    &&& nobody_else_off(roster, statuses, i, j)
    &&& nobody_else_on(roster, statuses, i, j)
}

/// The two players of a swap have the play statuses that name each other.
proof fn lemma_swap_statuses(roster: Seq<Facts>, t: int)
    requires
        roster.len() <= usize::MAX,
        0 <= t < plan_of(roster).len(),
    ensures
        swapped(
            roster,
            resolve(roster),
            plan_of(roster)[t].coming_on as int,
            plan_of(roster)[t].going_off as int,
        ),
{
    lemma_plan_well_paired(roster);
    lemma_lookup(roster, plan_of(roster), t);
}

/// Behind a status that names a partner stands a swap of the schedule.
proof fn lemma_status_origin(roster: Seq<Facts>, i: int)
    requires
        roster.len() <= usize::MAX,
        0 <= i < roster.len(),
    ensures
        resolve(roster)[i] matches PlayStatus::SubbedIn { subbed_with } ==> exists|t: int|
            0 <= t < plan_of(roster).len() && (#[trigger] plan_of(roster)[t]).coming_on == i
                && roster[plan_of(roster)[t].going_off as int].id == subbed_with,
        resolve(roster)[i] matches PlayStatus::SubbedOff { subbed_with } ==> exists|t: int|
            0 <= t < plan_of(roster).len() && (#[trigger] plan_of(roster)[t]).going_off == i
                && roster[plan_of(roster)[t].coming_on as int].id == subbed_with,
{
    let plan = plan_of(roster);
    lemma_found(plan, i as usize);
    match arrival(plan, i as usize) {
        Some(swap) => {
            let t = choose|t: int| 0 <= t < plan.len() && plan[t] == swap;
            assert(plan[t].coming_on == i);
        },
        None => match departure(plan, i as usize) {
            Some(swap) => {
                let t = choose|t: int| 0 <= t < plan.len() && plan[t] == swap;
                assert(plan[t].going_off == i);
            },
            None => {},
        },
    }
}

/// The two players of a swap make a pair.
proof fn lemma_swap_pairs(roster: Seq<Facts>, t: int)
    requires
        roster.len() <= usize::MAX,
        distinct_ids(roster),
        0 <= t < plan_of(roster).len(),
    ensures
        paired(
            roster,
            resolve(roster),
            plan_of(roster)[t].coming_on as int,
            plan_of(roster)[t].going_off as int,
        ),
{
    let plan = plan_of(roster);
    let statuses = resolve(roster);
    let i = plan[t].coming_on as int;
    let j = plan[t].going_off as int;
    lemma_plan_well_paired(roster);
    lemma_swap_statuses(roster, t);
    assert forall|other: int|
        0 <= other < roster.len() && #[trigger] statuses[other] == (PlayStatus::SubbedOff {
            subbed_with: roster[i].id,
        }) implies other == j by {
        lemma_status_origin(roster, other);
        let u = choose|u: int|
            0 <= u < plan.len() && (#[trigger] plan[u]).going_off == other
                && roster[plan[u].coming_on as int].id == roster[i].id;
        let k = plan[u].coming_on as int;
        assert(roster[k].id == roster[i].id);
        assert(k == i);
        assert(u == t);
    }
    assert forall|other: int|
        0 <= other < roster.len() && #[trigger] statuses[other] == (PlayStatus::SubbedIn {
            subbed_with: roster[j].id,
        }) implies other == i by {
        lemma_status_origin(roster, other);
        let u = choose|u: int|
            0 <= u < plan.len() && (#[trigger] plan[u]).coming_on == other
                && roster[plan[u].going_off as int].id == roster[j].id;
        let k = plan[u].going_off as int;
        assert(roster[k].id == roster[j].id);
        assert(k == j);
        assert(u == t);
    }
}

/// In a resolved roster of players with distinct ids, substitutions come
/// in pairs. Whoever comes on names a player who goes off and who names
/// him in return; whoever goes off names a player who comes on and who
/// names him in return; and nobody else comes on or goes off for either.
pub proof fn lemma_substitutions_pair(roster: Seq<Facts>)
    requires
        roster.len() <= usize::MAX,
        distinct_ids(roster),
    ensures
        forall|i: int|
            0 <= i < roster.len() && (#[trigger] resolve(roster)[i]) is SubbedIn ==> exists|
                j: int,
            | #[trigger] paired(roster, resolve(roster), i, j),
        forall|j: int|
            0 <= j < roster.len() && (#[trigger] resolve(roster)[j]) is SubbedOff ==> exists|
                i: int,
            | #[trigger] paired(roster, resolve(roster), i, j),
{
    let plan = plan_of(roster);
    let statuses = resolve(roster);
    assert forall|i: int|
        0 <= i < roster.len() && (#[trigger] statuses[i]) is SubbedIn implies exists|j: int|
     #[trigger] paired(roster, statuses, i, j) by {
        lemma_status_origin(roster, i);
        let t = choose|t: int| 0 <= t < plan.len() && (#[trigger] plan[t]).coming_on == i;
        lemma_swap_pairs(roster, t);
        assert(paired(roster, statuses, i, plan[t].going_off as int));
    }
    assert forall|j: int|
        0 <= j < roster.len() && (#[trigger] statuses[j]) is SubbedOff implies exists|i: int|
     #[trigger] paired(roster, statuses, i, j) by {
        lemma_status_origin(roster, j);
        let t = choose|t: int| 0 <= t < plan.len() && (#[trigger] plan[t]).going_off == j;
        lemma_swap_pairs(roster, t);
        assert(paired(roster, statuses, plan[t].coming_on as int, j));
    }
}

} // verus!
