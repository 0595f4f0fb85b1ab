//! The fixtures a player takes part in this gameweek.
use crate::propcomp::get_player_from_live;
use crate::propcomp::live_player;
use crate::propcomp::tracks_player;
use crate::storage::FplEndpoints;
use crate::structs::live::Fixture as LiveFixture;
use crate::structs::live::PointsOrFixture;
use vstd::prelude::*;

verus! {

/// The fixture that an entry of a player's breakdown is about: its second
/// item, where that is a fixture id.
pub open spec fn entry_fixture(entry: Seq<PointsOrFixture>) -> Option<u32> {
    if entry.len() > 1 {
        match entry[1] {
            PointsOrFixture::Fixture(id) => Some(id),
            PointsOrFixture::Points(_) => None,
        }
    } else {
        None
    }
}

/// The fixtures that a breakdown is about, entry by entry.
pub open spec fn fixture_ids(explain: Seq<Vec<PointsOrFixture>>) -> Seq<u32>
    decreases explain.len(),
{
    if explain.len() == 0 {
        Seq::empty()
    } else {
        let before = fixture_ids(explain.drop_last());
        match entry_fixture(explain.last()@) {
            Some(id) => before.push(id),
            None => before,
        }
    }
}

/// How often an id stands in a list.
pub open spec fn occurrences(ids: Seq<u32>, id: u32) -> nat
    decreases ids.len(),
{
    if ids.len() == 0 {
        0
    } else {
        occurrences(ids.drop_last(), id) + if ids.last() == id {
            1nat
        } else {
            0nat
        }
    }
}

/// The fixtures of `all` that `ids` names, in the order of `all`, each as
/// often as `ids` names it.
pub open spec fn fixtures_named(all: Seq<LiveFixture>, ids: Seq<u32>) -> Seq<LiveFixture>
    decreases all.len(),
{
    if all.len() == 0 {
        Seq::empty()
    } else {
        fixtures_named(all.drop_last(), ids) + Seq::new(
            occurrences(ids, all.last().id),
            |k: int| all.last(),
        )
    }
}

/// The fixtures a player takes part in this gameweek.
pub open spec fn current_fixtures(endpoints: FplEndpoints, player_id: u32) -> Seq<LiveFixture> {
    fixtures_named(
        endpoints.live.fixtures@,
        fixture_ids(live_player(endpoints, player_id).explain@),
    )
}

/// What a list of borrowed fixtures holds.
pub open spec fn fixtures_of(borrowed: Seq<&LiveFixture>) -> Seq<LiveFixture> {
    Seq::new(borrowed.len(), |k: int| *borrowed[k])
}

/// Whether every fixture of a list has finished.
pub open spec fn all_finished(fixtures: Seq<LiveFixture>) -> bool {
    forall|k: int| 0 <= k < fixtures.len() ==> (#[trigger] fixtures[k]).finished
}

/// Whether a fixture of a list has yet to start.
pub open spec fn any_upcoming(fixtures: Seq<LiveFixture>) -> bool {
    exists|k: int| 0 <= k < fixtures.len() && !(#[trigger] fixtures[k]).started
}

/// The ids of the fixtures that the breakdown of a player is about.
pub fn get_player_current_fixture_ids(endpoints: &FplEndpoints, player_id: u32) -> (r: Vec<u32>)
    requires
        tracks_player(*endpoints, player_id),
    ensures
        r@ == fixture_ids(live_player(*endpoints, player_id).explain@),
{
    let player_live = get_player_from_live(endpoints, player_id);
    let mut fixtures: Vec<u32> = Vec::new();
    let mut i: usize = 0;
    assert(player_live.explain@.take(0) =~= Seq::<Vec<PointsOrFixture>>::empty());
    while i < player_live.explain.len()
        invariant
            i <= player_live.explain@.len(),
            fixtures@ == fixture_ids(player_live.explain@.take(i as int)),
        decreases player_live.explain@.len() - i,
    {
        let entry = &player_live.explain[i];
        proof {
            assert(player_live.explain@.take(i + 1).drop_last() =~= player_live.explain@.take(
                i as int,
            ));
            assert(player_live.explain@.take(i + 1).last() == *entry);
        }
        if entry.len() > 1 {
            if let PointsOrFixture::Fixture(id) = &entry[1] {
                fixtures.push(*id);
            }
        }
        i += 1;
    }
    assert(player_live.explain@.take(i as int) =~= player_live.explain@);
    fixtures
}

/// The fixtures a player takes part in this gameweek.
pub fn get_player_current_fixtures(endpoints: &FplEndpoints, player_id: u32) -> (r: Vec<
    &LiveFixture,
>)
    requires
        tracks_player(*endpoints, player_id),
    ensures
        fixtures_of(r@) == current_fixtures(*endpoints, player_id),
{
    let ids = get_player_current_fixture_ids(endpoints, player_id);
    let mut fixtures: Vec<&LiveFixture> = Vec::new();
    let live_fixtures = &endpoints.live.fixtures;
    let mut i: usize = 0;
    assert(live_fixtures@.take(0) =~= Seq::<LiveFixture>::empty());
    assert(fixtures_of(fixtures@) =~= Seq::<LiveFixture>::empty());
    while i < live_fixtures.len()
        invariant
            i <= live_fixtures@.len(),
            fixtures_of(fixtures@) == fixtures_named(live_fixtures@.take(i as int), ids@),
        decreases live_fixtures@.len() - i,
    {
        let fixture = &live_fixtures[i];
        let ghost before = fixtures_of(fixtures@);
        let mut j: usize = 0;
        assert(ids@.take(0) =~= Seq::<u32>::empty());
        assert(before + Seq::new(0, |k: int| *fixture) =~= before);
        while j < ids.len()
            invariant
                j <= ids@.len(),
                fixtures_of(fixtures@) == before + Seq::new(
                    occurrences(ids@.take(j as int), fixture.id),
                    |k: int| *fixture,
                ),
            decreases ids@.len() - j,
        {
            let ghost held = fixtures_of(fixtures@);
            proof {
                assert(ids@.take(j + 1).drop_last() =~= ids@.take(j as int));
                assert(ids@.take(j + 1).last() == ids@[j as int]);
            }
            if ids[j] == fixture.id {
                fixtures.push(fixture);
                assert(fixtures_of(fixtures@) =~= held.push(*fixture));
                assert(held.push(*fixture) =~= before + Seq::new(
                    occurrences(ids@.take(j + 1), fixture.id),
                    |k: int| *fixture,
                ));
            }
            j += 1;
        }
        proof {
            assert(ids@.take(j as int) =~= ids@);
            assert(live_fixtures@.take(i + 1).drop_last() =~= live_fixtures@.take(i as int));
            assert(live_fixtures@.take(i + 1).last() == *fixture);
        }
        i += 1;
    }
    assert(live_fixtures@.take(i as int) =~= live_fixtures@);
    fixtures
}

/// Whether all fixtures of a player this gameweek have finished. A player
/// without a fixture has nothing left to play.
pub fn compute_player_fixtures_has_finished(endpoints: &FplEndpoints, player_id: u32) -> (r: bool)
    requires
        tracks_player(*endpoints, player_id),
    ensures
        r == all_finished(current_fixtures(*endpoints, player_id)),
{
    let fixtures = get_player_current_fixtures(endpoints, player_id);
    let ghost held = fixtures_of(fixtures@);
    let mut k: usize = 0;
    while k < fixtures.len()
        invariant
            k <= fixtures@.len(),
            held == fixtures_of(fixtures@),
            held == current_fixtures(*endpoints, player_id),
            forall|w: int| 0 <= w < k ==> (#[trigger] held[w]).finished,
        decreases fixtures@.len() - k,
    {
        if !fixtures[k].finished {
            assert(!held[k as int].finished);
            return false;
        }
        k += 1;
    }
    true
}

/// Whether a fixture of a player this gameweek has yet to start.
pub fn compute_player_has_upcoming_fixtures(endpoints: &FplEndpoints, player_id: u32) -> (r: bool)
    requires
        tracks_player(*endpoints, player_id),
    ensures
        r == any_upcoming(current_fixtures(*endpoints, player_id)),
{
    let fixtures = get_player_current_fixtures(endpoints, player_id);
    let ghost held = fixtures_of(fixtures@);
    let mut k: usize = 0;
    while k < fixtures.len()
        invariant
            k <= fixtures@.len(),
            held == fixtures_of(fixtures@),
            held == current_fixtures(*endpoints, player_id),
            forall|w: int| 0 <= w < k ==> (#[trigger] held[w]).started,
        decreases fixtures@.len() - k,
    {
        if !fixtures[k].started {
            assert(!held[k as int].started);
            return true;
        }
        k += 1;
    }
    false
}

} // verus!
