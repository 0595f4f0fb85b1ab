//! The minimum that each outfield position fields once a roster is
//! resolved.
use crate::computer::lineup::candidates;
use crate::computer::lineup::candidates_below;
use crate::computer::lineup::DEFENDER;
use crate::computer::lineup::eligible;
use crate::computer::lineup::Facts;
use crate::computer::lineup::FORWARD;
use crate::computer::lineup::headcount;
use crate::computer::lineup::involved;
use crate::computer::lineup::MIDFIELDER;
use crate::computer::lineup::minimum_for;
use crate::computer::lineup::minimum_pass;
use crate::computer::lineup::pairs;
use crate::computer::lineup::pass;
use crate::computer::lineup::Place;
use crate::computer::lineup::plan_of;
use crate::computer::lineup::resolve;
use crate::computer::lineup::short_at;
use crate::computer::lineup::short_outfield;
use crate::computer::lineup::Standing;
use crate::computer::lineup::stands;
use crate::computer::lineup::status_under;
use crate::computer::lineup::Swap;
use crate::computer::lineup::takes_part;
use crate::computer::lineup_laws::lemma_absent;
use crate::computer::lineup_laws::lemma_candidates;
use crate::computer::lineup_laws::lemma_lookup;
use crate::computer::lineup_laws::lemma_minimum_pass;
use crate::computer::lineup_laws::lemma_pass;
use crate::computer::lineup_laws::lemma_plan_well_paired;
use crate::computer::lineup_laws::well_paired;
use crate::storage::table::PlayStatus;
use vstd::prelude::*;

verus! {

/// How many of the places `0` to `n - 1` satisfy `f`.
pub open spec fn tally(n: nat, f: spec_fn(int) -> bool) -> nat
    decreases n,
{
    if n == 0 {
        0
    } else {
        tally((n - 1) as nat, f) + if f(n - 1) {
            1nat
        } else {
            0nat
        }
    }
}

proof fn lemma_tally_le(n: nat, f: spec_fn(int) -> bool, g: spec_fn(int) -> bool)
    requires
        forall|i: int| 0 <= i < n && #[trigger] f(i) ==> g(i),
    ensures
        tally(n, f) <= tally(n, g),
    decreases n,
{
    if n > 0 {
        lemma_tally_le((n - 1) as nat, f, g);
    }
}

proof fn lemma_tally_same(n: nat, f: spec_fn(int) -> bool, g: spec_fn(int) -> bool)
    requires
        forall|i: int| 0 <= i < n ==> #[trigger] f(i) == g(i),
    ensures
        tally(n, f) == tally(n, g),
    decreases n,
{
    if n > 0 {
        lemma_tally_same((n - 1) as nat, f, g);
    }
}

proof fn lemma_tally_sum(n: nat, f: spec_fn(int) -> bool, g: spec_fn(int) -> bool)
    requires
        forall|i: int| 0 <= i < n ==> !(#[trigger] f(i) && g(i)),
    ensures
        tally(n, |i: int| f(i) || g(i)) == tally(n, f) + tally(n, g),
    decreases n,
{
    if n > 0 {
        lemma_tally_sum((n - 1) as nat, f, g);
    }
}

/// There are as many candidates as places that are eligible.
proof fn lemma_candidates_tally(
    roster: Seq<Facts>,
    standing: Standing,
    place: Place,
    plan: Seq<Swap>,
    n: nat,
)
    ensures
        candidates_below(roster, standing, place, plan, n).len() == tally(
            n,
            |i: int| eligible(roster, standing, place, plan, i),
        ),
    decreases n,
{
    if n > 0 {
        lemma_candidates_tally(roster, standing, place, plan, (n - 1) as nat);
    }
}

/// A rising list of places below `n` lists as many places as it is long.
proof fn lemma_listed_tally(listed: Seq<usize>, n: nat)
    requires
        n <= usize::MAX,
        forall|k: int| 0 <= k < listed.len() ==> #[trigger] listed[k] < n,
        forall|a: int, b: int|
            0 <= a < b < listed.len() ==> #[trigger] listed[a] < #[trigger] listed[b],
    ensures
        tally(n, |i: int| listed.contains(i as usize)) == listed.len(),
    decreases n,
{
    let f = |i: int| listed.contains(i as usize);
    if n == 0 {
        if listed.len() > 0 {
            assert(listed[0] < n);
        }
    } else if listed.len() > 0 && listed.last() == n - 1 {
        let front = listed.drop_last();
        let g = |i: int| front.contains(i as usize);
        assert(listed[listed.len() - 1] == n - 1);
        assert forall|k: int| 0 <= k < front.len() implies #[trigger] front[k] < n - 1 by {
            assert(front[k] == listed[k]);
            assert(listed[k] < listed[listed.len() - 1]);
        }
        assert forall|a: int, b: int| 0 <= a < b < front.len() implies #[trigger] front[a]
            < #[trigger] front[b] by {
            assert(front[a] == listed[a] && front[b] == listed[b]);
        }
        lemma_listed_tally(front, (n - 1) as nat);
        assert forall|i: int| 0 <= i < n - 1 implies #[trigger] f(i) == g(i) by {
            if listed.contains(i as usize) {
                let k = choose|k: int| 0 <= k < listed.len() && listed[k] == i as usize;
                assert(front[k] == i as usize);
            }
            if front.contains(i as usize) {
                let k = choose|k: int| 0 <= k < front.len() && front[k] == i as usize;
                assert(listed[k] == i as usize);
            }
        }
        lemma_tally_same((n - 1) as nat, f, g);
        assert(f(n - 1));
    } else {
        assert forall|k: int| 0 <= k < listed.len() implies #[trigger] listed[k] < n - 1 by {
            assert(listed[k] <= listed[listed.len() - 1]);
        }
        lemma_listed_tally(listed, (n - 1) as nat);
        assert(!f(n - 1)) by {
            if listed.contains((n - 1) as usize) {
                let k = choose|k: int| 0 <= k < listed.len() && listed[k] == (n - 1) as usize;
                assert(listed[k] < n - 1);
            }
        }
    }
}

/// How many players of a position take part.
pub open spec fn active_at(roster: Seq<Facts>, statuses: Seq<PlayStatus>, position: u32) -> nat {
    tally(roster.len(), |i: int| roster[i].position == position && takes_part(statuses[i]))
}

/// How many players of a position the line-up has on the field.
pub open spec fn fielded_at(roster: Seq<Facts>, position: u32) -> nat {
    tally(roster.len(), |i: int| roster[i].on_field && roster[i].position == position)
}

/// Whether every ready bench player of a position comes on.
pub open spec fn bench_used_up(
    roster: Seq<Facts>,
    statuses: Seq<PlayStatus>,
    position: u32,
) -> bool {
    forall|i: int|
        0 <= i < roster.len() && stands(Standing::Ready, #[trigger] roster[i])
            && roster[i].position == position ==> statuses[i] is SubbedIn
}

/// Whether no swap of a schedule has a player of the position.
pub open spec fn avoids(roster: Seq<Facts>, plan: Seq<Swap>, position: u32) -> bool {
    forall|t: int|
        0 <= t < plan.len() ==> roster[(#[trigger] plan[t]).coming_on as int].position
            != position && roster[plan[t].going_off as int].position != position
}

/// Whether a schedule begins with another.
pub open spec fn begins_with(plan: Seq<Swap>, start: Seq<Swap>) -> bool {
    &&& start.len() <= plan.len()
    &&& forall|t: int| 0 <= t < start.len() ==> #[trigger] plan[t] == start[t]
}

/// A pass for another part of the pitch leaves the position alone.
proof fn lemma_pass_avoids(
    roster: Seq<Facts>,
    plan: Seq<Swap>,
    place: Place,
    wanted: nat,
    position: u32,
)
    requires
        roster.len() <= usize::MAX,
        well_paired(roster, plan),
        avoids(roster, plan, position),
        place == Place::Keeper && position != crate::computer::lineup::GOALKEEPER || exists|
            other: u32,
        |
            place == Place::At(other) && other != position,
    ensures
        avoids(roster, pass(roster, plan, place, wanted), position),
        begins_with(pass(roster, plan, place, wanted), plan),
        well_paired(roster, pass(roster, plan, place, wanted)),
{
    let after = pass(roster, plan, place, wanted);
    lemma_pass(roster, plan, place, wanted);
    assert forall|t: int| 0 <= t < plan.len() implies #[trigger] after[t] == plan[t] by {
        assert(after.take(plan.len() as int)[t] == plan[t]);
    }
    assert forall|t: int| 0 <= t < after.len() implies roster[(
    #[trigger] after[t]).coming_on as int].position != position
        && roster[after[t].going_off as int].position != position by {
        if t < plan.len() {
            assert(after[t] == plan[t]);
        }
    }
}

/// What one minimum pass secures, under any later schedule that begins
/// with it.
proof fn lemma_minimum_secured(
    roster: Seq<Facts>,
    before: Seq<Swap>,
    position: u32,
    plan: Seq<Swap>,
)
    requires
        roster.len() <= usize::MAX,
        well_paired(roster, before),
        avoids(roster, before, position),
        well_paired(roster, plan),
        begins_with(plan, minimum_pass(roster, before, position)),
        fielded_at(roster, position) >= minimum_for(position),
    ensures
        tally(
            roster.len(),
            |i: int|
                roster[i].position == position && takes_part(
                    status_under(roster, plan, i),
                ),
        ) >= minimum_for(position) || forall|i: int|
            0 <= i < roster.len() && stands(Standing::Ready, #[trigger] roster[i])
                && roster[i].position == position ==> status_under(roster, plan, i)
                is SubbedIn,
{
    let n = roster.len();
    let nothing = Seq::<Swap>::empty();
    let place = Place::At(position);
    let coming = candidates(roster, Standing::Ready, place, before);
    let going = candidates(roster, Standing::Blanked, place, before);
    let sure = headcount(roster, Standing::Sure, place);
    let wanted = short_at(roster, position);
    let made = pairs(coming, going, wanted);
    let after = minimum_pass(roster, before, position);
    let arrived = coming.take(made as int);

    let is_sure = |i: int| eligible(roster, Standing::Sure, place, nothing, i);
    let is_blank = |i: int| eligible(roster, Standing::Blanked, place, nothing, i);
    let is_blank_left = |i: int| eligible(roster, Standing::Blanked, place, before, i);
    let has_arrived = |i: int| arrived.contains(i as usize);
    let is_active = |i: int|
        roster[i].position == position && takes_part(status_under(roster, plan, i));
    let is_fielded = |i: int| roster[i].on_field && roster[i].position == position;

    lemma_candidates(roster, Standing::Ready, place, before, n);
    lemma_candidates(roster, Standing::Blanked, place, before, n);
    lemma_candidates_tally(roster, Standing::Sure, place, nothing, n);
    lemma_candidates_tally(roster, Standing::Blanked, place, before, n);

    // the swaps that this pass adds stand in the later schedule
    assert forall|a: int| 0 <= a < made implies {
        &&& (#[trigger] plan[before.len() + a]).coming_on == coming[a]
        &&& status_under(roster, plan, coming[a] as int) is SubbedIn
    } by {
        assert(plan[before.len() + a] == after[before.len() + a]);
        lemma_lookup(roster, plan, before.len() + a);
    }

    // who is sure to play takes part
    assert forall|i: int| 0 <= i < n && #[trigger] is_sure(i) implies is_active(i) by {
        lemma_absent(roster, plan, i as usize);
    }
    // who arrives in this pass takes part
    assert forall|i: int| 0 <= i < n && #[trigger] has_arrived(i) implies is_active(i) by {
        let a = choose|a: int| 0 <= a < arrived.len() && arrived[a] == i as usize;
        assert(coming[a] == i as usize);
        assert(plan[before.len() + a].coming_on == coming[a]);
    }
    assert forall|i: int| 0 <= i < n implies !(#[trigger] is_sure(i) && has_arrived(i)) by {
        if has_arrived(i) {
            let a = choose|a: int| 0 <= a < arrived.len() && arrived[a] == i as usize;
            assert(coming[a] == i as usize);
        }
    }
    lemma_tally_sum(n, is_sure, has_arrived);
    lemma_tally_le(n, |i: int| is_sure(i) || has_arrived(i), is_active);
    assert forall|k: int| 0 <= k < arrived.len() implies #[trigger] arrived[k] < n by {
        assert(arrived[k] == coming[k]);
    }
    assert forall|a: int, b: int| 0 <= a < b < arrived.len() implies #[trigger] arrived[a]
        < #[trigger] arrived[b] by {
        assert(arrived[a] == coming[a] && arrived[b] == coming[b]);
    }
    lemma_listed_tally(arrived, n);
    assert(tally(n, is_active) >= sure + made);

    if made < wanted {
        if made == coming.len() {
            assert forall|i: int|
                0 <= i < n && stands(Standing::Ready, #[trigger] roster[i])
                    && roster[i].position == position implies status_under(
                roster,
                plan,
                i,
            ) is SubbedIn by {
                assert(!involved(before, i as usize)) by {
                    if involved(before, i as usize) {
                        let t = choose|t: int|
                            0 <= t < before.len() && ((#[trigger] before[t]).coming_on == i as usize
                                || before[t].going_off == i as usize);
                        assert(roster[before[t].coming_on as int].position != position);
                    }
                }
                assert(eligible(roster, Standing::Ready, place, before, i));
                let a = choose|a: int| 0 <= a < coming.len() && coming[a] == i as usize;
                assert(plan[before.len() + a].coming_on == coming[a]);
            }
        } else {
            // every blanked starter of the position has made way, which
            // a line-up that fields the minimum does not allow
            assert forall|i: int| 0 <= i < n implies #[trigger] is_blank(i) == is_blank_left(
                i,
            ) by {
                if is_blank(i) && involved(before, i as usize) {
                    let t = choose|t: int|
                        0 <= t < before.len() && ((#[trigger] before[t]).coming_on == i as usize
                            || before[t].going_off == i as usize);
                    assert(roster[before[t].coming_on as int].position != position);
                }
                if is_blank_left(i) {
                    assert(!involved(nothing, i as usize));
                }
            }
            lemma_tally_same(n, is_blank, is_blank_left);
            assert forall|i: int| 0 <= i < n implies !(#[trigger] is_sure(i) && is_blank(i)) by {}
            lemma_tally_sum(n, is_sure, is_blank);
            assert forall|i: int| 0 <= i < n implies #[trigger] is_fielded(i) == (is_sure(i)
                || is_blank(i)) by {
                assert(!involved(nothing, i as usize));
            }
            lemma_tally_same(n, is_fielded, |i: int| is_sure(i) || is_blank(i));
            assert(false);
        }
    }
}

/// After resolution, each outfield position that the line-up fields the
/// minimum of still has its minimum taking part (three defenders, two
/// midfielders, one forward), unless the bench runs out of ready players
/// of that position: then every such player comes on.
pub proof fn lemma_minimums_hold(roster: Seq<Facts>, position: u32)
    requires
        roster.len() <= usize::MAX,
        position == DEFENDER || position == MIDFIELDER || position == FORWARD,
        fielded_at(roster, position) >= minimum_for(position),
    ensures
        active_at(roster, resolve(roster), position) >= minimum_for(position) || bench_used_up(
            roster,
            resolve(roster),
            position,
        ),
{
    let n = roster.len();
    let nothing = Seq::<Swap>::empty();
    let plan = plan_of(roster);
    let resolved = resolve(roster);
    let keeper = pass(roster, nothing, Place::Keeper, 1);
    let defence = minimum_pass(roster, keeper, DEFENDER);
    let midfield = minimum_pass(roster, defence, MIDFIELDER);
    let attack = minimum_pass(roster, midfield, FORWARD);
    let wanted = short_outfield(roster, attack);

    assert(well_paired(roster, nothing));
    assert(avoids(roster, nothing, position));
    lemma_pass_avoids(roster, nothing, Place::Keeper, 1, position);
    lemma_minimum_pass(roster, keeper, DEFENDER);
    lemma_minimum_pass(roster, defence, MIDFIELDER);
    lemma_minimum_pass(roster, midfield, FORWARD);
    lemma_plan_well_paired(roster);
    lemma_extends(roster, keeper, DEFENDER);
    lemma_extends(roster, defence, MIDFIELDER);
    lemma_extends(roster, midfield, FORWARD);
    lemma_pass(roster, attack, Place::Outfield, wanted);
    assert(begins_with(plan, attack)) by {
        assert forall|t: int| 0 <= t < attack.len() implies #[trigger] plan[t] == attack[t] by {
            assert(plan.take(attack.len() as int)[t] == attack[t]);
        }
    }

    if position == DEFENDER {
        lemma_minimum_secured(roster, keeper, position, plan);
    } else if position == MIDFIELDER {
        lemma_minimum_avoids(roster, keeper, DEFENDER, position);
        lemma_minimum_secured(roster, defence, position, plan);
    } else {
        lemma_minimum_avoids(roster, keeper, DEFENDER, position);
        lemma_minimum_avoids(roster, defence, MIDFIELDER, position);
        lemma_minimum_secured(roster, midfield, position, plan);
    }
    lemma_tally_same(
        n,
        |i: int| roster[i].position == position && takes_part(resolved[i]),
        |i: int|
            roster[i].position == position && takes_part(status_under(roster, plan, i)),
    );
}

/// A schedule begins with what it was before a minimum pass.
proof fn lemma_extends(roster: Seq<Facts>, plan: Seq<Swap>, position: u32)
    requires
        roster.len() <= usize::MAX,
        well_paired(roster, plan),
    ensures
        begins_with(minimum_pass(roster, plan, position), plan),
{
    let after = minimum_pass(roster, plan, position);
    lemma_pass(roster, plan, Place::At(position), short_at(roster, position));
    assert forall|t: int| 0 <= t < plan.len() implies #[trigger] after[t] == plan[t] by {
        assert(after.take(plan.len() as int)[t] == plan[t]);
    }
}

/// The minimum pass of one position leaves every other position alone.
proof fn lemma_minimum_avoids(roster: Seq<Facts>, plan: Seq<Swap>, passed: u32, position: u32)
    requires
        roster.len() <= usize::MAX,
        well_paired(roster, plan),
        avoids(roster, plan, position),
        passed != position,
    ensures
        avoids(roster, minimum_pass(roster, plan, passed), position),
{
    lemma_pass_avoids(roster, plan, Place::At(passed), short_at(roster, passed), position);
}

} // verus!
