//! Resolving the play status of each player of a roster.
use crate::computer::lineup::arrival;
use crate::computer::lineup::candidates;
use crate::computer::lineup::candidates_below;
use crate::computer::lineup::DEFENDER;
use crate::computer::lineup::departure;
use crate::computer::lineup::Facts;
use crate::computer::lineup::FIRST_BENCH_SLOT;
use crate::computer::lineup::FORWARD;
use crate::computer::lineup::GOALKEEPER;
use crate::computer::lineup::headcount;
use crate::computer::lineup::involved;
use crate::computer::lineup::MIDFIELDER;
use crate::computer::lineup::minimum_for;
use crate::computer::lineup::minimum_pass;
use crate::computer::lineup::outfield_arrivals;
use crate::computer::lineup::OUTFIELD_PLAYERS;
use crate::computer::lineup::pair_up;
use crate::computer::lineup::pairs;
use crate::computer::lineup::pass;
use crate::computer::lineup::Place;
use crate::computer::lineup::plan_of;
use crate::computer::lineup::plays_in;
use crate::computer::lineup::resolve;
use crate::computer::lineup::shortfall;
use crate::computer::lineup::Standing;
use crate::computer::lineup::stands;
use crate::computer::lineup::status_under;
use crate::computer::lineup::Swap;
use crate::computer::lineup_laws::lemma_candidates;
use crate::computer::lineup_laws::lemma_found;
use crate::computer::lineup_laws::within;
use crate::ranking::Rankable;
use crate::ranking::Ranked;
use crate::ranking::sort_ranked;
use crate::ranking::stable_sort;
use crate::storage::table::Player;
use crate::storage::table::PlayStatus;
use vstd::prelude::*;

verus! {

impl Player {
    /// What the schedule reads of the player.
    pub open spec fn facts(&self) -> Facts {
        Facts {
            id: self.id,
            position: self.team_pos.number,
            on_field: self.on_field,
            pick_number: self.pick_number,
            has_played: self.has_played,
            fixtures_finished: self.fixtures_finished,
            has_upcoming_fixtures: self.has_upcoming_fixtures,
        }
    }
}

/// What the schedule reads of each player of a roster.
pub open spec fn facts_of(roster: Seq<Player>) -> Seq<Facts> {
    Seq::new(roster.len(), |i: int| roster[i].facts())
}

/// A roster with the play status that the schedule gives each player.
pub open spec fn resolved(roster: Seq<Player>) -> Seq<Player> {
    Seq::new(
        roster.len(),
        |i: int| Player { play_status: resolve(facts_of(roster))[i], ..roster[i] },
    )
}

/// Players are ordered by pick slot.
impl Ranked for Player {
    open spec fn rank(&self) -> int {
        self.pick_number as int
    }
}

impl Rankable for Player {
    fn rank_of(&self) -> (r: i64) {
        self.pick_number as i64
    }
}

fn has_standing(standing: Standing, p: &Player) -> (r: bool)
    ensures
        r == stands(standing, p.facts()),
{
    match standing {
        Standing::Sure => p.on_field && (p.has_played || !p.fixtures_finished),
        Standing::Blanked => p.on_field && !p.has_played && p.fixtures_finished,
        Standing::Ready => {
            let benched = p.pick_number >= FIRST_BENCH_SLOT && !p.on_field;
            let may_play = if p.team_pos.number == GOALKEEPER {
                p.has_upcoming_fixtures
            } else {
                !p.fixtures_finished
            };
            benched && (p.has_played || may_play)
        },
    }
}

fn is_in(place: Place, p: &Player) -> (r: bool)
    ensures
        r == plays_in(place, p.facts()),
{
    match place {
        Place::Keeper => p.team_pos.number == GOALKEEPER,
        Place::Outfield => p.team_pos.number != GOALKEEPER,
        Place::At(position) => p.team_pos.number == position,
    }
}

fn is_involved(plan: &Vec<Swap>, i: usize) -> (r: bool)
    ensures
        r == involved(plan@, i),
{
    let mut t: usize = 0;
    while t < plan.len()
        invariant
            t <= plan.len(),
            forall|u: int|
                0 <= u < t ==> (#[trigger] plan@[u]).coming_on != i && plan@[u].going_off != i,
        decreases plan.len() - t,
    {
        if plan[t].coming_on == i || plan[t].going_off == i {
            return true;
        }
        t += 1;
    }
    false
}

fn find_candidates(roster: &Vec<Player>, standing: Standing, place: Place, plan: &Vec<Swap>) -> (r:
    Vec<usize>)
    ensures
        r@ == candidates(facts_of(roster@), standing, place, plan@),
        forall|k: int| 0 <= k < r@.len() ==> #[trigger] r@[k] < roster@.len(),
{
    let mut found: Vec<usize> = Vec::new();
    let mut i: usize = 0;
    while i < roster.len()
        invariant
            i <= roster.len(),
            found@ == candidates_below(facts_of(roster@), standing, place, plan@, i as nat),
        decreases roster.len() - i,
    {
        if has_standing(standing, &roster[i]) && is_in(place, &roster[i]) && !is_involved(
            plan,
            i,
        ) {
            found.push(i);
        }
        i += 1;
    }
    proof {
        lemma_candidates(facts_of(roster@), standing, place, plan@, roster@.len());
    }
    found
}

fn count_players(roster: &Vec<Player>, standing: Standing, place: Place) -> (r: usize)
    ensures
        r == headcount(facts_of(roster@), standing, place),
{
    let nobody: Vec<Swap> = Vec::new();
    let found = find_candidates(roster, standing, place, &nobody);
    assert(nobody@ =~= Seq::<Swap>::empty());
    found.len()
}

fn count_outfield_arrivals(roster: &Vec<Player>, plan: &Vec<Swap>) -> (r: usize)
    ensures
        r == outfield_arrivals(facts_of(roster@), plan@),
{
    let mut count: usize = 0;
    let mut t: usize = 0;
    assert(plan@.take(0) =~= Seq::<Swap>::empty());
    while t < plan.len()
        invariant
            t <= plan.len(),
            count <= t,
            count == outfield_arrivals(facts_of(roster@), plan@.take(t as int)),
        decreases plan.len() - t,
    {
        let on = plan[t].coming_on;
        assert(plan@.take(t + 1).drop_last() =~= plan@.take(t as int));
        assert(plan@.take(t + 1).last() == plan@[t as int]);
        if on < roster.len() && roster[on].team_pos.number != GOALKEEPER {
            count += 1;
        }
        t += 1;
    }
    assert(plan@.take(plan.len() as int) =~= plan@);
    count
}

/// How many the line-up is short of `target` when `have` and `more` are
/// accounted for.
fn missing(target: usize, have: usize, more: usize) -> (r: usize)
    ensures
        r == shortfall(target as nat, (have + more) as nat),
{
    if have >= target {
        0
    } else if more >= target - have {
        0
    } else {
        target - have - more
    }
}

/// Adds one pass to the schedule.
fn run_pass(roster: &Vec<Player>, plan: &mut Vec<Swap>, place: Place, wanted: usize)
    requires
        within(old(plan)@, roster@.len()),
    ensures
        final(plan)@ == pass(facts_of(roster@), old(plan)@, place, wanted as nat),
        within(final(plan)@, roster@.len()),
{
    let coming = find_candidates(roster, Standing::Ready, place, plan);
    let going = find_candidates(roster, Standing::Blanked, place, plan);
    let available = if coming.len() <= going.len() {
        coming.len()
    } else {
        going.len()
    };
    let count = if wanted <= available {
        wanted
    } else {
        available
    };
    let ghost added = pair_up(coming@, going@, wanted as nat);
    let mut t: usize = 0;
    while t < count
        invariant
            t <= count,
            count == pairs(coming@, going@, wanted as nat),
            count <= coming@.len(),
            count <= going@.len(),
            added == pair_up(coming@, going@, wanted as nat),
            plan@ == old(plan)@ + added.take(t as int),
            within(plan@, roster@.len()),
            forall|k: int| 0 <= k < coming@.len() ==> #[trigger] coming@[k] < roster@.len(),
            forall|k: int| 0 <= k < going@.len() ==> #[trigger] going@[k] < roster@.len(),
        decreases count - t,
    {
        let ghost before = plan@;
        plan.push(Swap { coming_on: coming[t], going_off: going[t] });
        proof {
            assert(added.take(t + 1) =~= added.take(t as int).push(added[t as int]));
            assert(plan@ =~= old(plan)@ + added.take(t + 1));
            assert forall|u: int| 0 <= u < plan@.len() implies (#[trigger] plan@[u]).coming_on
                < roster@.len() && plan@[u].going_off < roster@.len() by {
                if u < before.len() {
                    assert(plan@[u] == before[u]);
                }
            }
        }
        t += 1;
    }
    assert(added.take(count as int) =~= added);
}

fn run_minimum_pass(roster: &Vec<Player>, plan: &mut Vec<Swap>, position: u32, minimum: usize)
    requires
        within(old(plan)@, roster@.len()),
        minimum == minimum_for(position),
    ensures
        final(plan)@ == minimum_pass(facts_of(roster@), old(plan)@, position),
        within(final(plan)@, roster@.len()),
{
    let sure = count_players(roster, Standing::Sure, Place::At(position));
    run_pass(roster, plan, Place::At(position), missing(minimum, sure, 0));
}

/// Draws up the schedule of a roster.
fn draw_up_plan(roster: &Vec<Player>) -> (plan: Vec<Swap>)
    ensures
        plan@ == plan_of(facts_of(roster@)),
        within(plan@, roster@.len()),
{
    let mut plan: Vec<Swap> = Vec::new();
    assert(plan@ =~= Seq::<Swap>::empty());
    run_pass(roster, &mut plan, Place::Keeper, 1);
    run_minimum_pass(roster, &mut plan, DEFENDER, 3);
    run_minimum_pass(roster, &mut plan, MIDFIELDER, 2);
    run_minimum_pass(roster, &mut plan, FORWARD, 1);
    let sure = count_players(roster, Standing::Sure, Place::Outfield);
    let arrivals = count_outfield_arrivals(roster, &plan);
    run_pass(roster, &mut plan, Place::Outfield, missing(OUTFIELD_PLAYERS, sure, arrivals));
    plan
}

fn arriving(plan: &Vec<Swap>, i: usize) -> (r: Option<Swap>)
    ensures
        r == arrival(plan@, i),
{
    let mut t: usize = plan.len();
    assert(plan@.take(t as int) =~= plan@);
    while t > 0
        invariant
            t <= plan.len(),
            arrival(plan@, i) == arrival(plan@.take(t as int), i),
        decreases t,
    {
        assert(plan@.take(t as int).drop_last() =~= plan@.take(t - 1));
        assert(plan@.take(t as int).last() == plan@[t - 1]);
        if plan[t - 1].coming_on == i {
            return Some(plan[t - 1]);
        }
        t -= 1;
    }
    None
}

fn departing(plan: &Vec<Swap>, i: usize) -> (r: Option<Swap>)
    ensures
        r == departure(plan@, i),
{
    let mut t: usize = plan.len();
    assert(plan@.take(t as int) =~= plan@);
    while t > 0
        invariant
            t <= plan.len(),
            departure(plan@, i) == departure(plan@.take(t as int), i),
        decreases t,
    {
        assert(plan@.take(t as int).drop_last() =~= plan@.take(t - 1));
        assert(plan@.take(t as int).last() == plan@[t - 1]);
        if plan[t - 1].going_off == i {
            return Some(plan[t - 1]);
        }
        t -= 1;
    }
    None
}

fn status_for(roster: &Vec<Player>, plan: &Vec<Swap>, i: usize) -> (r: PlayStatus)
    requires
        i < roster@.len(),
        within(plan@, roster@.len()),
    ensures
        r == status_under(facts_of(roster@), plan@, i as int),
{
    proof {
        lemma_found(plan@, i);
    }
    match arriving(plan, i) {
        Some(swap) => {
            assert(plan@.contains(swap));
            PlayStatus::SubbedIn { subbed_with: roster[swap.going_off].id }
        },
        None => match departing(plan, i) {
            Some(swap) => {
                assert(plan@.contains(swap));
                PlayStatus::SubbedOff { subbed_with: roster[swap.coming_on].id }
            },
            None => if roster[i].on_field {
                PlayStatus::Playing
            } else {
                PlayStatus::Benched
            },
        },
    }
}

/// Gives each player of a roster the play status that the schedule of
/// the roster assigns.
pub fn resolve_play_status(players: &mut Vec<Player>)
    ensures
        final(players)@ == resolved(old(players)@),
{
    let ghost roster = players@;
    let plan = draw_up_plan(players);
    let n = players.len();
    let mut statuses: Vec<PlayStatus> = Vec::new();
    let mut i: usize = 0;
    while i < n
        invariant
            i <= n,
            n == players@.len(),
            players@ == roster,
            plan@ == plan_of(facts_of(roster)),
            within(plan@, roster.len()),
            statuses@.len() == i,
            forall|j: int|
                0 <= j < i ==> #[trigger] statuses@[j] == status_under(
                    facts_of(roster),
                    plan@,
                    j,
                ),
        decreases n - i,
    {
        let status = status_for(players, &plan, i);
        statuses.push(status);
        i += 1;
    }
    let mut i: usize = 0;
    while i < n
        invariant
            i <= n,
            n == players@.len(),
            n == roster.len(),
            statuses@.len() == n,
            forall|j: int|
                0 <= j < n ==> #[trigger] statuses@[j] == resolve(facts_of(roster))[j],
            forall|j: int| 0 <= j < i ==> #[trigger] players@[j] == resolved(roster)[j],
            forall|j: int| i <= j < n ==> #[trigger] players@[j] == roster[j],
        decreases n - i,
    {
        players[i].play_status = statuses[i];
        i += 1;
    }
    assert(players@ =~= resolved(roster));
}

/// Orders the roster by pick slot and gives each player a play status:
/// the substitutions that are certain to come are made, everybody else on
/// the field plays, everybody else sits on the bench. No player is left
/// without a status.
pub fn calculate_play_status(players: &mut Vec<Player>)
    ensures
        final(players)@ == resolved(stable_sort(old(players)@)),
        forall|i: int|
            0 <= i < final(players)@.len() ==> (#[trigger] final(players)@[i]).play_status
                != PlayStatus::Unknown,
{
    sort_ranked(players);
    resolve_play_status(players);
}

} // verus!
