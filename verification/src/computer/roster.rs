//! The players of a team's roster.
use crate::computer::lineup::Facts;
use crate::computer::lineup::resolve;
use crate::computer::play_status::facts_of;
use crate::computer::play_status::resolve_play_status;
use crate::computer::play_status::resolved;
use crate::propcomp::clubs::club_of;
use crate::propcomp::clubs::find_club;
use crate::propcomp::clubs::knows_club;
use crate::propcomp::code_of;
use crate::propcomp::compute_player_fixtures_has_finished;
use crate::propcomp::compute_player_has_played;
use crate::propcomp::compute_player_has_upcoming_fixtures;
use crate::propcomp::compute_player_is_on_field;
use crate::propcomp::compute_player_team;
use crate::propcomp::fixtures::all_finished;
use crate::propcomp::fixtures::any_upcoming;
use crate::propcomp::fixtures::current_fixtures;
use crate::propcomp::full_name_of;
use crate::propcomp::get_player_bps;
use crate::propcomp::get_player_display_name;
use crate::propcomp::get_player_full_name;
use crate::propcomp::get_player_injury_status;
use crate::propcomp::get_player_news;
use crate::propcomp::get_player_point_sources;
use crate::propcomp::get_player_points;
use crate::propcomp::get_player_position;
use crate::propcomp::get_player_projected_points;
use crate::propcomp::get_player_team_id;
use crate::propcomp::knows_player;
use crate::propcomp::live_player;
use crate::propcomp::on_field;
use crate::propcomp::player_is_known;
use crate::propcomp::player_is_tracked;
use crate::propcomp::points::point_sources;
use crate::propcomp::points::projected_points;
use crate::propcomp::static_player;
use crate::propcomp::tracks_player;
use crate::ranking::lemma_stable_sort;
use crate::ranking::Rankable;
use crate::ranking::Ranked;
use crate::ranking::sort_ranked;
use crate::ranking::stable_sort;
use crate::storage::FplEndpoints;
use crate::storage::table::injury_status_of;
use crate::storage::table::Player as TablePlayer;
use crate::storage::table::players_shown;
use crate::storage::table::PlayerView;
use crate::storage::table::PlayStatus;
use crate::storage::table::Position as PlayerPosition;
use crate::storage::table::position_name;
use crate::storage::table::PositionView;
use crate::structs::teamgw::Pick;
use crate::structs::teamgw::Substitution;
use crate::structs::teamgw::TeamGw;
use vstd::prelude::*;

verus! {

/// Picks are ordered by pick slot.
impl Ranked for Pick {
    open spec fn rank(&self) -> int {
        self.position as int
    }
}

impl Rankable for Pick {
    fn rank_of(&self) -> (r: i64) {
        self.position as i64
    }
}

/// Whether the snapshot holds all that a player of the table needs: the
/// reference data of the picked player, the player's club, and the
/// player's live data.
pub open spec fn resolves(endpoints: FplEndpoints, pick: Pick) -> bool {
    &&& pick.element > 0
    &&& knows_player(endpoints, pick.element as u32)
    &&& tracks_player(endpoints, pick.element as u32)
    &&& knows_club(endpoints, static_player(endpoints, pick.element as u32).team)
}

/// The picks of a roster that resolve, in the order of the roster.
pub open spec fn resolvable(endpoints: FplEndpoints, picks: Seq<Pick>) -> Seq<Pick>
    decreases picks.len(),
{
    if picks.len() == 0 {
        Seq::empty()
    } else {
        let before = resolvable(endpoints, picks.drop_last());
        if resolves(endpoints, picks.last()) {
            before.push(picks.last())
        } else {
            before
        }
    }
}

/// The player of a pick before the play status is resolved.
pub open spec fn drafted(
    endpoints: FplEndpoints,
    subs: Seq<Substitution>,
    pick: Pick,
) -> PlayerView {
    let id = pick.element as u32;
    let reference = static_player(endpoints, id);
    let live = live_player(endpoints, id);
    let position = code_of(reference.element_type);
    PlayerView {
        id,
        full_name: full_name_of(reference),
        display_name: reference.web_name@,
        team: club_of(endpoints, id),
        team_pos: PositionView { number: position, name: position_name(position) },
        points: live.stats.total_points,
        bps: live.stats.bps,
        projected_points: projected_points(endpoints, id) as i32,
        point_sources: point_sources(endpoints, id),
        on_field: on_field(pick, subs),
        pick_number: pick.position,
        has_played: live.stats.minutes > 0,
        fixtures_finished: all_finished(current_fixtures(endpoints, id)),
        has_upcoming_fixtures: any_upcoming(current_fixtures(endpoints, id)),
        status: injury_status_of(reference.status@),
        news: reference.news,
        play_status: PlayStatus::Unknown,
    }
}

/// What the schedule reads of a player of the table.
pub open spec fn facts_shown(player: PlayerView) -> Facts {
    Facts {
        id: player.id,
        position: player.team_pos.number,
        on_field: player.on_field,
        pick_number: player.pick_number,
        has_played: player.has_played,
        fixtures_finished: player.fixtures_finished,
        has_upcoming_fixtures: player.has_upcoming_fixtures,
    }
}

/// The players of a roster: one for each pick that resolves, by pick
/// slot, each with the play status that the schedule of the roster gives.
pub open spec fn roster_shown(endpoints: FplEndpoints, roster: TeamGw) -> Seq<PlayerView> {
    let picks = stable_sort(resolvable(endpoints, roster.picks@));
    let statuses = resolve(
        Seq::new(picks.len(), |k: int| facts_shown(drafted(endpoints, roster.subs@, picks[k]))),
    );
    Seq::new(
        picks.len(),
        |k: int|
            PlayerView { play_status: statuses[k], ..drafted(endpoints, roster.subs@, picks[k]) },
    )
}

/// Whether the snapshot holds the roster of a team.
pub open spec fn has_roster(endpoints: FplEndpoints, team_id: u32) -> bool {
    endpoints.teams_gws@.contains_key(team_id)
}

/// The players of a team.
pub open spec fn players_of(endpoints: FplEndpoints, team_id: u32) -> Seq<PlayerView> {
    roster_shown(endpoints, endpoints.teams_gws@[team_id])
}

/// Whether the snapshot holds the roster of a team.
pub fn roster_is_held(endpoints: &FplEndpoints, team_id: u32) -> (r: bool)
    ensures
        r == has_roster(*endpoints, team_id),
{
    endpoints.teams_gws.get(&team_id).is_some()
}

fn pick_resolves(endpoints: &FplEndpoints, pick: &Pick) -> (r: bool)
    ensures
        r == resolves(*endpoints, *pick),
{
    if pick.element <= 0 {
        return false;
    }
    let id = pick.element as u32;
    if !player_is_known(endpoints, id) || !player_is_tracked(endpoints, id) {
        return false;
    }
    find_club(endpoints, get_player_team_id(endpoints, id)).is_some()
}

fn resolvable_picks(endpoints: &FplEndpoints, picks: &Vec<Pick>) -> (r: Vec<Pick>)
    ensures
        r@ == resolvable(*endpoints, picks@),
{
    let mut kept: Vec<Pick> = Vec::new();
    let mut k: usize = 0;
    assert(picks@.take(0) =~= Seq::<Pick>::empty());
    while k < picks.len()
        invariant
            k <= picks@.len(),
            kept@ == resolvable(*endpoints, picks@.take(k as int)),
        decreases picks@.len() - k,
    {
        assert(picks@.take(k + 1).drop_last() =~= picks@.take(k as int));
        assert(picks@.take(k + 1).last() == picks@[k as int]);
        if pick_resolves(endpoints, &picks[k]) {
            kept.push(picks[k]);
        }
        k += 1;
    }
    assert(picks@.take(k as int) =~= picks@);
    kept
}

/// Every pick that `resolvable` keeps resolves, and sorting keeps that.
proof fn lemma_kept_resolve(endpoints: FplEndpoints, picks: Seq<Pick>)
    ensures
        forall|k: int|
            0 <= k < resolvable(endpoints, picks).len() ==> resolves(
                endpoints,
                #[trigger] resolvable(endpoints, picks)[k],
            ),
        forall|k: int|
            0 <= k < stable_sort(resolvable(endpoints, picks)).len() ==> resolves(
                endpoints,
                #[trigger] stable_sort(resolvable(endpoints, picks))[k],
            ),
    decreases picks.len(),
{
    broadcast use vstd::seq_lib::group_to_multiset_ensures;

    let kept = resolvable(endpoints, picks);
    let sorted = stable_sort(kept);
    if picks.len() > 0 {
        let before = resolvable(endpoints, picks.drop_last());
        lemma_kept_resolve(endpoints, picks.drop_last());
        assert forall|k: int| 0 <= k < kept.len() implies resolves(
            endpoints,
            #[trigger] kept[k],
        ) by {
            if k < before.len() {
                assert(kept[k] == before[k]);
            }
        }
    }
    lemma_stable_sort(kept);
    assert forall|k: int| 0 <= k < sorted.len() implies resolves(
        endpoints,
        #[trigger] sorted[k],
    ) by {
        assert(sorted.to_multiset().count(sorted[k]) > 0);
        assert(kept.to_multiset().count(sorted[k]) > 0);
        let w = choose|w: int| 0 <= w < kept.len() && kept[w] == sorted[k];
        assert(resolves(endpoints, kept[w]));
    }
}

fn draft_player(endpoints: &FplEndpoints, team_gw: &TeamGw, pick: &Pick) -> (r: TablePlayer)
    requires
        resolves(*endpoints, *pick),
    ensures
        r@ == drafted(*endpoints, team_gw.subs@, *pick),
{
    let player_id = pick.element as u32;
    TablePlayer {
        id: player_id,
        full_name: get_player_full_name(endpoints, player_id),
        display_name: get_player_display_name(endpoints, player_id),
        team: compute_player_team(endpoints, player_id),
        team_pos: PlayerPosition::from_number(get_player_position(endpoints, player_id)),
        points: get_player_points(endpoints, player_id),
        bps: get_player_bps(endpoints, player_id),
        projected_points: get_player_projected_points(endpoints, player_id),
        point_sources: get_player_point_sources(endpoints, player_id),
        on_field: compute_player_is_on_field(pick, team_gw),
        pick_number: pick.position,
        has_played: compute_player_has_played(endpoints, player_id),
        fixtures_finished: compute_player_fixtures_has_finished(endpoints, player_id),
        has_upcoming_fixtures: compute_player_has_upcoming_fixtures(endpoints, player_id),
        news: get_player_news(endpoints, player_id),
        status: get_player_injury_status(endpoints, player_id),
        play_status: PlayStatus::Unknown,
    }
}

/// The players of a roster.
pub fn players_of_roster(endpoints: &FplEndpoints, team_gw: &TeamGw) -> (r: Vec<TablePlayer>)
    ensures
        players_shown(r@) == roster_shown(*endpoints, *team_gw),
{
    let mut picks = resolvable_picks(endpoints, &team_gw.picks);
    sort_ranked(&mut picks);
    proof {
        lemma_kept_resolve(*endpoints, team_gw.picks@);
    }
    let mut players: Vec<TablePlayer> = Vec::new();
    let mut k: usize = 0;
    while k < picks.len()
        invariant
            k <= picks@.len(),
            picks@ == stable_sort(resolvable(*endpoints, team_gw.picks@)),
            forall|w: int| 0 <= w < picks@.len() ==> resolves(*endpoints, #[trigger] picks@[w]),
            players@.len() == k,
            forall|w: int|
                0 <= w < k ==> (#[trigger] players@[w])@ == drafted(
                    *endpoints,
                    team_gw.subs@,
                    picks@[w],
                ),
        decreases picks@.len() - k,
    {
        let player = draft_player(endpoints, team_gw, &picks[k]);
        players.push(player);
        k += 1;
    }
    let ghost built = players@;
    resolve_play_status(&mut players);
    proof {
        let shown = Seq::new(
            picks@.len(),
            |k: int| facts_shown(drafted(*endpoints, team_gw.subs@, picks@[k])),
        );
        assert(facts_of(built) =~= shown) by {
            assert forall|w: int| 0 <= w < built.len() implies #[trigger] facts_of(built)[w]
                == shown[w] by {
                assert(built[w]@ == drafted(*endpoints, team_gw.subs@, picks@[w]));
            }
        }
        assert(players_shown(players@) =~= roster_shown(*endpoints, *team_gw)) by {
            assert forall|w: int| 0 <= w < players@.len() implies #[trigger] players_shown(
                players@,
            )[w] == roster_shown(*endpoints, *team_gw)[w] by {
                assert(players@[w] == resolved(built)[w]);
                assert(built[w]@ == drafted(*endpoints, team_gw.subs@, picks@[w]));
            }
        }
    }
    players
}

/// The players of a team: one for each pick of its roster that resolves,
/// by pick slot, each with its play status.
pub fn extract_players(endpoints: &FplEndpoints, team_id: u32) -> (r: Vec<TablePlayer>)
    requires
        has_roster(*endpoints, team_id),
    ensures
        players_shown(r@) == players_of(*endpoints, team_id),
{
    let team_entry = endpoints.teams_gws.get(&team_id).unwrap();
    players_of_roster(endpoints, team_entry)
}

} // verus!
