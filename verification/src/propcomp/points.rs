//! Where a player's points come from, and what they are projected to be
//! once the bonus is awarded.
use crate::propcomp::fixtures::current_fixtures;
use crate::propcomp::fixtures::fixtures_of;
use crate::propcomp::fixtures::get_player_current_fixtures;
use crate::propcomp::get_player_from_live;
use crate::propcomp::live_player;
use crate::propcomp::tracks_player;
use crate::ranking::Rankable;
use crate::ranking::Ranked;
use crate::ranking::sort_ranked;
use crate::ranking::stable_sort;
use crate::saturate::clamp_i32;
use crate::saturate::narrow_i32;
use crate::storage::FplEndpoints;
use crate::storage::table::PointSource as TablePointSource;
use crate::structs::live::Fixture as LiveFixture;
use crate::structs::live::FixtureStat;
use crate::structs::live::FixtureStats;
use crate::structs::live::Point as LivePoint;
use crate::structs::live::PointsOrFixture;
use crate::text::same_text;
use vstd::prelude::*;

verus! {

/// The fewest entries a ranking needs before it awards any bonus.
pub const SMALLEST_RANKING: usize = 3;

/// The minutes a fixture must have run before a player below the third
/// place of the ranking is considered for a bonus.
pub const SETTLED_MINUTES: i32 = 15;

/// Whether an entry of a breakdown names the fixture, at whatever place.
pub open spec fn mentions(entry: Seq<PointsOrFixture>, fixture_id: u32) -> bool {
    exists|k: int|
        0 <= k < entry.len() && #[trigger] entry[k] == PointsOrFixture::Fixture(fixture_id)
}

/// The first entry of a breakdown that names the fixture.
pub open spec fn entry_for(explain: Seq<Vec<PointsOrFixture>>, fixture_id: u32) -> Option<
    Seq<PointsOrFixture>,
>
    decreases explain.len(),
{
    if explain.len() == 0 {
        None
    } else if mentions(explain[0]@, fixture_id) {
        Some(explain[0]@)
    } else {
        entry_for(explain.drop_first(), fixture_id)
    }
}

/// The point sources of an entry: the last list of points in it, none
/// where it holds no such list.
pub open spec fn points_in(entry: Seq<PointsOrFixture>) -> Seq<LivePoint>
    decreases entry.len(),
{
    if entry.len() == 0 {
        Seq::empty()
    } else {
        match entry.last() {
            PointsOrFixture::Points(points) => points@,
            PointsOrFixture::Fixture(_) => points_in(entry.drop_last()),
        }
    }
}

/// The point sources that a breakdown gives for a fixture: none where no
/// entry names the fixture.
pub open spec fn point_sources_of(explain: Seq<Vec<PointsOrFixture>>, fixture_id: u32) -> Seq<
    LivePoint,
> {
    match entry_for(explain, fixture_id) {
        Some(entry) => points_in(entry),
        None => Seq::empty(),
    }
}

fn copy_point(point: &LivePoint) -> (r: LivePoint)
    ensures
        r == *point,
{
    LivePoint {
        name: point.name.clone(),
        points: point.points,
        value: point.value,
        stat: point.stat.clone(),
    }
}

fn copy_points(points: &Vec<LivePoint>) -> (r: Vec<LivePoint>)
    ensures
        r@ == points@,
{
    let mut out: Vec<LivePoint> = Vec::new();
    let mut k: usize = 0;
    while k < points.len()
        invariant
            k <= points@.len(),
            out@ == points@.take(k as int),
        decreases points@.len() - k,
    {
        out.push(copy_point(&points[k]));
        assert(out@ =~= points@.take(k + 1));
        k += 1;
    }
    assert(points@.take(k as int) =~= points@);
    out
}

fn names_fixture(entry: &Vec<PointsOrFixture>, fixture_id: u32) -> (r: bool)
    ensures
        r == mentions(entry@, fixture_id),
{
    let mut k: usize = 0;
    while k < entry.len()
        invariant
            k <= entry@.len(),
            forall|w: int|
                0 <= w < k ==> #[trigger] entry@[w] != PointsOrFixture::Fixture(fixture_id),
        decreases entry@.len() - k,
    {
        if let PointsOrFixture::Fixture(id) = &entry[k] {
            if *id == fixture_id {
                return true;
            }
        }
        k += 1;
    }
    false
}

fn borrow_points_in(entry: &Vec<PointsOrFixture>) -> (r: Option<&Vec<LivePoint>>)
    ensures
        match r {
            Some(points) => points@ == points_in(entry@),
            None => points_in(entry@) == Seq::<LivePoint>::empty(),
        },
{
    let mut k: usize = entry.len();
    assert(entry@.take(k as int) =~= entry@);
    while k > 0
        invariant
            k <= entry@.len(),
            points_in(entry@) == points_in(entry@.take(k as int)),
        decreases k,
    {
        assert(entry@.take(k as int).drop_last() =~= entry@.take(k - 1));
        assert(entry@.take(k as int).last() == entry@[k - 1]);
        if let PointsOrFixture::Points(points) = &entry[k - 1] {
            return Some(points);
        }
        k -= 1;
    }
    None
}

/// The point sources that a breakdown gives for a fixture, where they
/// stand.
fn borrow_point_sources(fixtures: &Vec<Vec<PointsOrFixture>>, fixture_id: u32) -> (r: Option<
    &Vec<LivePoint>,
>)
    ensures
        match r {
            Some(points) => points@ == point_sources_of(fixtures@, fixture_id),
            None => point_sources_of(fixtures@, fixture_id) == Seq::<LivePoint>::empty(),
        },
{
    let mut i: usize = 0;
    assert(fixtures@.skip(0) =~= fixtures@);
    while i < fixtures.len()
        invariant
            i <= fixtures@.len(),
            entry_for(fixtures@, fixture_id) == entry_for(fixtures@.skip(i as int), fixture_id),
        decreases fixtures@.len() - i,
    {
        assert(fixtures@.skip(i as int)[0] == fixtures@[i as int]);
        assert(fixtures@.skip(i as int).drop_first() =~= fixtures@.skip(i + 1));
        if names_fixture(&fixtures[i], fixture_id) {
            return borrow_points_in(&fixtures[i]);
        }
        i += 1;
    }
    None
}

/// The point sources that a player's breakdown gives for a fixture.
pub fn calculate_point_sources(fixtures: &Vec<Vec<PointsOrFixture>>, fixture_id: u32) -> (r: Vec<
    LivePoint,
>)
    ensures
        r@ == point_sources_of(fixtures@, fixture_id),
{
    match borrow_point_sources(fixtures, fixture_id) {
        Some(points) => copy_points(points),
        None => Vec::new(),
    }
}

/// A ranking puts the highest score first.
impl Ranked for FixtureStat {
    open spec fn rank(&self) -> int {
        -(self.value as int)
    }
}

impl Rankable for FixtureStat {
    fn rank_of(&self) -> (r: i64) {
        -(self.value as i64)
    }
}

/// The scores that a fixture pools for its ranking: those of the first
/// statistic called `bps`, the away side before the home side.
pub open spec fn bps_pool(stats: Seq<FixtureStats>) -> Option<Seq<FixtureStat>>
    decreases stats.len(),
{
    if stats.len() == 0 {
        None
    } else if stats[0].s@ == "bps"@ {
        Some(stats[0].a@ + stats[0].h@)
    } else {
        bps_pool(stats.drop_first())
    }
}

/// The score that a ranking holds for a player: that of the player's first
/// entry, zero without one.
pub open spec fn ranked_score(ranking: Seq<FixtureStat>, player_id: u32) -> int
    decreases ranking.len(),
{
    if ranking.len() == 0 {
        0
    } else if ranking[0].element == player_id {
        ranking[0].value as int
    } else {
        ranked_score(ranking.drop_first(), player_id)
    }
}

/// The bonus that a ranking, highest score first, promises a player.
///
/// A ranking of fewer than three awards nothing. Nor is anything awarded
/// to a score of zero, or early in a fixture to a score below the third of
/// the ranking. Otherwise who equals the first score has three points, who
/// equals the second two, who equals the third one.
pub open spec fn bonus_in(ranking: Seq<FixtureStat>, minutes: i32, player_id: u32) -> int {
    let score = ranked_score(ranking, player_id);
    if ranking.len() < SMALLEST_RANKING {
        0
    } else if score < ranking[2].value && minutes < SETTLED_MINUTES {
        0
    } else if score == 0 {
        0
    } else if score == ranking[0].value {
        3
    } else if score == ranking[1].value {
        2
    } else if score == ranking[2].value {
        1
    } else {
        0
    }
}

/// The bonus that a fixture promises a player: nothing where the fixture
/// has no scores to rank.
pub open spec fn bonus_points(fixture: LiveFixture, player_id: u32) -> int {
    match bps_pool(fixture.stats@) {
        Some(pool) => bonus_in(stable_sort(pool), fixture.minutes, player_id),
        None => 0,
    }
}

fn pool_scores(stats: &FixtureStats) -> (r: Vec<FixtureStat>)
    ensures
        r@ == stats.a@ + stats.h@,
{
    let mut pool: Vec<FixtureStat> = Vec::new();
    let mut k: usize = 0;
    while k < stats.a.len()
        invariant
            k <= stats.a@.len(),
            pool@ == stats.a@.take(k as int),
        decreases stats.a@.len() - k,
    {
        pool.push(stats.a[k]);
        assert(pool@ =~= stats.a@.take(k + 1));
        k += 1;
    }
    assert(stats.a@.take(k as int) =~= stats.a@);
    let mut k: usize = 0;
    assert(stats.h@.take(0) =~= Seq::<FixtureStat>::empty());
    assert(pool@ =~= stats.a@ + stats.h@.take(0));
    while k < stats.h.len()
        invariant
            k <= stats.h@.len(),
            pool@ == stats.a@ + stats.h@.take(k as int),
        decreases stats.h@.len() - k,
    {
        pool.push(stats.h[k]);
        assert(pool@ =~= stats.a@ + stats.h@.take(k + 1));
        k += 1;
    }
    assert(stats.h@.take(k as int) =~= stats.h@);
    pool
}

fn score_in(ranking: &Vec<FixtureStat>, player_id: u32) -> (r: i32)
    ensures
        r == ranked_score(ranking@, player_id),
{
    let mut k: usize = 0;
    assert(ranking@.skip(0) =~= ranking@);
    while k < ranking.len()
        invariant
            k <= ranking@.len(),
            ranked_score(ranking@, player_id) == ranked_score(ranking@.skip(k as int), player_id),
        decreases ranking@.len() - k,
    {
        assert(ranking@.skip(k as int)[0] == ranking@[k as int]);
        assert(ranking@.skip(k as int).drop_first() =~= ranking@.skip(k + 1));
        if ranking[k].element == player_id {
            return ranking[k].value;
        }
        k += 1;
    }
    0
}

/// The bonus that a ranking promises a player.
pub fn bonus_from_ranking(ranking: &Vec<FixtureStat>, minutes: i32, player_id: u32) -> (r: i32)
    ensures
        r == bonus_in(ranking@, minutes, player_id),
{
    if ranking.len() < SMALLEST_RANKING {
        return 0;
    }
    let score = score_in(ranking, player_id);
    if score < ranking[2].value && minutes < SETTLED_MINUTES {
        0
    } else if score == 0 {
        0
    } else if score == ranking[0].value {
        3
    } else if score == ranking[1].value {
        2
    } else if score == ranking[2].value {
        1
    } else {
        0
    }
}

/// The bonus that a fixture promises a player.
pub fn calculate_bonus_points(fixture: &LiveFixture, player_id: u32) -> (r: i32)
    ensures
        r == bonus_points(*fixture, player_id),
        0 <= r <= 3,
{
    let mut k: usize = 0;
    assert(fixture.stats@.skip(0) =~= fixture.stats@);
    while k < fixture.stats.len()
        invariant
            k <= fixture.stats@.len(),
            bps_pool(fixture.stats@) == bps_pool(fixture.stats@.skip(k as int)),
        decreases fixture.stats@.len() - k,
    {
        let stat = &fixture.stats[k];
        assert(fixture.stats@.skip(k as int)[0] == *stat);
        assert(fixture.stats@.skip(k as int).drop_first() =~= fixture.stats@.skip(k + 1));
        if same_text(stat.s.as_str(), "bps") {
            let mut ranking = pool_scores(stat);
            sort_ranked(&mut ranking);
            return bonus_from_ranking(&ranking, fixture.minutes, player_id);
        }
        k += 1;
    }
    0
}

/// The points of a list of sources, added up.
pub open spec fn points_sum(sources: Seq<LivePoint>) -> int
    decreases sources.len(),
{
    if sources.len() == 0 {
        0
    } else {
        points_sum(sources.drop_last()) + sources.last().points
    }
}

/// Whether a list of sources already holds the bonus.
pub open spec fn holds_bonus(sources: Seq<LivePoint>) -> bool {
    exists|k: int| 0 <= k < sources.len() && (#[trigger] sources[k]).stat@ == "bonus"@
}

/// What a player is projected to take from one fixture: the points of all
/// sources, and the bonus that the ranking promises unless the sources
/// hold the bonus already.
pub open spec fn projected_in(
    explain: Seq<Vec<PointsOrFixture>>,
    fixture: LiveFixture,
    player_id: u32,
) -> int {
    let sources = point_sources_of(explain, fixture.id);
    clamp_i32(
        points_sum(sources) + if holds_bonus(sources) {
            0
        } else {
            bonus_points(fixture, player_id)
        },
    )
}

/// What a player is projected to take from a list of fixtures.
pub open spec fn projected_over(
    explain: Seq<Vec<PointsOrFixture>>,
    fixtures: Seq<LiveFixture>,
    player_id: u32,
) -> int
    decreases fixtures.len(),
{
    if fixtures.len() == 0 {
        0
    } else {
        projected_over(explain, fixtures.drop_last(), player_id) + projected_in(
            explain,
            fixtures.last(),
            player_id,
        )
    }
}

/// The projected points of a player this gameweek: nothing for a player
/// without a fixture.
pub open spec fn projected_points(endpoints: FplEndpoints, player_id: u32) -> int {
    clamp_i32(
        projected_over(
            live_player(endpoints, player_id).explain@,
            current_fixtures(endpoints, player_id),
            player_id,
        ),
    )
}

fn project_fixture(
    explain: &Vec<Vec<PointsOrFixture>>,
    fixture: &LiveFixture,
    player_id: u32,
) -> (r: i32)
    ensures
        r == projected_in(explain@, *fixture, player_id),
{
    let mut points: i128 = 0;
    let mut bonus_accounted_for = false;
    if let Some(sources) = borrow_point_sources(explain, fixture.id) {
        let mut k: usize = 0;
        assert(sources@.take(0) =~= Seq::<LivePoint>::empty());
        while k < sources.len()
            invariant
                k <= sources@.len(),
                points == points_sum(sources@.take(k as int)),
                -2147483648 * k <= points <= 2147483647 * k,
                bonus_accounted_for == holds_bonus(sources@.take(k as int)),
            decreases sources@.len() - k,
        {
            let ghost seen = sources@.take(k as int);
            let ghost seen_next = sources@.take(k + 1);
            let source = &sources[k];
            proof {
                assert(seen_next.drop_last() =~= seen);
                assert(seen_next.last() == *source);
                if holds_bonus(seen) {
                    let w = choose|w: int|
                        0 <= w < seen.len() && (#[trigger] seen[w]).stat@ == "bonus"@;
                    assert(seen_next[w] == seen[w]);
                }
                if holds_bonus(seen_next) && source.stat@ != "bonus"@ {
                    let w = choose|w: int|
                        0 <= w < seen_next.len() && (#[trigger] seen_next[w]).stat@ == "bonus"@;
                    assert(seen[w] == seen_next[w]);
                }
                if source.stat@ == "bonus"@ {
                    assert(seen_next[k as int].stat@ == "bonus"@);
                }
            }
            points = points + source.points as i128;
            if same_text(source.stat.as_str(), "bonus") {
                bonus_accounted_for = true;
            }
            k += 1;
        }
        assert(sources@.take(k as int) =~= sources@);
    }
    if !bonus_accounted_for {
        points = points + calculate_bonus_points(fixture, player_id) as i128;
    }
    narrow_i32(points)
}

/// The projected points of a player this gameweek.
pub fn get_player_projected_points(endpoints: &FplEndpoints, player_id: u32) -> (r: i32)
    requires
        tracks_player(*endpoints, player_id),
    ensures
        r == projected_points(*endpoints, player_id),
{
    let player_live = get_player_from_live(endpoints, player_id);
    let fixtures = get_player_current_fixtures(endpoints, player_id);
    let ghost held = fixtures_of(fixtures@);
    let mut points: i128 = 0;
    let mut k: usize = 0;
    assert(held.take(0) =~= Seq::<LiveFixture>::empty());
    while k < fixtures.len()
        invariant
            k <= fixtures@.len(),
            held == fixtures_of(fixtures@),
            points == projected_over(player_live.explain@, held.take(k as int), player_id),
            -2147483648 * k <= points <= 2147483647 * k,
        decreases fixtures@.len() - k,
    {
        proof {
            assert(held.take(k + 1).drop_last() =~= held.take(k as int));
            assert(held.take(k + 1).last() == *fixtures@[k as int]);
        }
        points = points + project_fixture(&player_live.explain, fixtures[k], player_id) as i128;
        k += 1;
    }
    assert(held.take(k as int) =~= held);
    narrow_i32(points)
}

/// The sources of a fixture as the table shows them.
pub open spec fn table_sources(sources: Seq<LivePoint>, fixture_id: u32) -> Seq<TablePointSource> {
    Seq::new(
        sources.len(),
        |k: int|
            TablePointSource {
                name: sources[k].name,
                points_total: sources[k].points,
                amount: sources[k].value,
                fixture: fixture_id,
                stat: sources[k].stat,
            },
    )
}

/// The sources of a list of fixtures as the table shows them, fixture by
/// fixture.
pub open spec fn sources_over(
    explain: Seq<Vec<PointsOrFixture>>,
    fixtures: Seq<LiveFixture>,
) -> Seq<TablePointSource>
    decreases fixtures.len(),
{
    if fixtures.len() == 0 {
        Seq::empty()
    } else {
        sources_over(explain, fixtures.drop_last()) + table_sources(
            point_sources_of(explain, fixtures.last().id),
            fixtures.last().id,
        )
    }
}

/// Where the live points of a player come from.
pub open spec fn point_sources(endpoints: FplEndpoints, player_id: u32) -> Seq<TablePointSource> {
    sources_over(
        live_player(endpoints, player_id).explain@,
        current_fixtures(endpoints, player_id),
    )
}

/// Where the live points of a player come from.
pub fn get_player_point_sources(endpoints: &FplEndpoints, player_id: u32) -> (r: Vec<
    TablePointSource,
>)
    requires
        tracks_player(*endpoints, player_id),
    ensures
        r@ == point_sources(*endpoints, player_id),
{
    let mut point_sources: Vec<TablePointSource> = Vec::new();
    let player_live = get_player_from_live(endpoints, player_id);
    let fixtures = get_player_current_fixtures(endpoints, player_id);
    let ghost held = fixtures_of(fixtures@);
    let mut i: usize = 0;
    assert(held.take(0) =~= Seq::<LiveFixture>::empty());
    while i < fixtures.len()
        invariant
            i <= fixtures@.len(),
            held == fixtures_of(fixtures@),
            point_sources@ == sources_over(player_live.explain@, held.take(i as int)),
        decreases fixtures@.len() - i,
    {
        let fixture = fixtures[i];
        let ghost before = point_sources@;
        let ghost shown = table_sources(
            point_sources_of(player_live.explain@, fixture.id),
            fixture.id,
        );
        assert(before + shown.take(0) =~= before);
        if let Some(live_points) = borrow_point_sources(&player_live.explain, fixture.id) {
            let mut k: usize = 0;
            while k < live_points.len()
                invariant
                    k <= live_points@.len(),
                    shown == table_sources(live_points@, fixture.id),
                    point_sources@ == before + shown.take(k as int),
                decreases live_points@.len() - k,
            {
                let live_point = &live_points[k];
                point_sources.push(
                    TablePointSource {
                        name: live_point.name.clone(),
                        amount: live_point.value,
                        points_total: live_point.points,
                        stat: live_point.stat.clone(),
                        fixture: fixture.id,
                    },
                );
                assert(point_sources@ =~= before + shown.take(k + 1));
                k += 1;
            }
        }
        proof {
            assert(shown.take(shown.len() as int) =~= shown);
            assert(held.take(i + 1).drop_last() =~= held.take(i as int));
            assert(held.take(i + 1).last() == *fixture);
        }
        i += 1;
    }
    assert(held.take(i as int) =~= held);
    point_sources
}

} // verus!
