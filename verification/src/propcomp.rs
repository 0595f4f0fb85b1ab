//! The basic properties of players, teams and the league, read off a
//! snapshot.
use crate::storage::FplEndpoints;
use crate::storage::table::injury_status_of;
use crate::storage::table::InjuryStatus;
use crate::storage::table::Scoring;
use crate::storage::table::scoring_of;
use crate::structs::live::Element as LiveElement;
use crate::structs::staticinfo::Element as StaticElement;
use crate::structs::teamgw::Pick as TeamGwPick;
use crate::structs::teamgw::Substitution;
use crate::structs::teamgw::TeamGw;
use crate::structs::teaminfo::Entry as TeamInfoEntry;
use crate::text::join;
use vstd::prelude::*;

pub mod clubs;
pub mod fixtures;
pub mod points;

pub use clubs::compute_player_team;
pub use fixtures::compute_player_fixtures_has_finished;
pub use fixtures::compute_player_has_upcoming_fixtures;
pub use fixtures::get_player_current_fixture_ids;
pub use fixtures::get_player_current_fixtures;
pub use points::calculate_bonus_points;
pub use points::calculate_point_sources;
pub use points::get_player_point_sources;
pub use points::get_player_projected_points;

verus! {

/// The last pick slot that starts.
pub const LAST_STARTING_SLOT: i32 = 11;

/// Whether the reference data holds the player.
pub open spec fn knows_player(endpoints: FplEndpoints, player_id: u32) -> bool {
    1 <= player_id <= endpoints.static_info.elements@.len()
}

/// The reference data of a player: the player with id `n` stands at index
/// `n - 1`.
pub open spec fn static_player(endpoints: FplEndpoints, player_id: u32) -> StaticElement {
    endpoints.static_info.elements@[player_id - 1]
}

/// Whether the live data holds the player.
pub open spec fn tracks_player(endpoints: FplEndpoints, player_id: u32) -> bool {
    endpoints.live.elements@.contains_key(player_id)
}

/// The live data of a player.
pub open spec fn live_player(endpoints: FplEndpoints, player_id: u32) -> LiveElement {
    endpoints.live.elements@[player_id]
}

/// A code as an unsigned number: a negative one, which names nothing,
/// counts as zero.
pub open spec fn code_of(raw: i32) -> u32 {
    if raw >= 0 {
        raw as u32
    } else {
        0
    }
}

/// A code as an unsigned number.
pub fn unsigned_code(raw: i32) -> (r: u32)
    ensures
        r == code_of(raw),
{
    if raw >= 0 {
        raw as u32
    } else {
        0
    }
}

/// Whether the reference data holds the player.
pub fn player_is_known(endpoints: &FplEndpoints, player_id: u32) -> (r: bool)
    ensures
        r == knows_player(*endpoints, player_id),
{
    player_id >= 1 && player_id as usize <= endpoints.static_info.elements.len()
}

/// Whether the live data holds the player.
pub fn player_is_tracked(endpoints: &FplEndpoints, player_id: u32) -> (r: bool)
    ensures
        r == tracks_player(*endpoints, player_id),
{
    endpoints.live.elements.get(&player_id).is_some()
}

/// The reference data of a player.
pub fn get_player_from_static(endpoints: &FplEndpoints, player_id: u32) -> (r: &StaticElement)
    requires
        knows_player(*endpoints, player_id),
    ensures
        *r == static_player(*endpoints, player_id),
{
    let i: usize = (player_id - 1) as usize;
    &endpoints.static_info.elements[i]
}

/// The live data of a player.
pub fn get_player_from_live(endpoints: &FplEndpoints, player_id: u32) -> (r: &LiveElement)
    requires
        tracks_player(*endpoints, player_id),
    ensures
        *r == live_player(*endpoints, player_id),
{
    endpoints.live.elements.get(&player_id).unwrap()
}

/// The name a player is displayed under.
pub fn get_player_display_name(endpoints: &FplEndpoints, player_id: u32) -> (r: String)
    requires
        knows_player(*endpoints, player_id),
    ensures
        r@ == static_player(*endpoints, player_id).web_name@,
{
    get_player_from_static(endpoints, player_id).web_name.clone()
}

/// First name, a space, second name.
pub open spec fn full_name_of(player: StaticElement) -> Seq<char> {
    player.first_name@ + " "@ + player.second_name@
}

/// The full name of a player.
pub fn get_player_full_name(endpoints: &FplEndpoints, player_id: u32) -> (r: String)
    requires
        knows_player(*endpoints, player_id),
    ensures
        r@ == full_name_of(static_player(*endpoints, player_id)),
{
    let p = get_player_from_static(endpoints, player_id);
    let mut name = join(p.first_name.as_str(), " ");
    name.append(p.second_name.as_str());
    name
}

/// The id of the club a player plays for.
pub fn get_player_team_id(endpoints: &FplEndpoints, player_id: u32) -> (r: u32)
    requires
        knows_player(*endpoints, player_id),
    ensures
        r == static_player(*endpoints, player_id).team,
{
    get_player_from_static(endpoints, player_id).team
}

/// The number of the position a player plays in.
pub fn get_player_position(endpoints: &FplEndpoints, player_id: u32) -> (r: u32)
    requires
        knows_player(*endpoints, player_id),
    ensures
        r == code_of(static_player(*endpoints, player_id).element_type),
{
    unsigned_code(get_player_from_static(endpoints, player_id).element_type)
}

/// The live points of a player.
pub fn get_player_points(endpoints: &FplEndpoints, player_id: u32) -> (r: i32)
    requires
        tracks_player(*endpoints, player_id),
    ensures
        r == live_player(*endpoints, player_id).stats.total_points,
{
    get_player_from_live(endpoints, player_id).stats.total_points
}

/// The score of a player in the bonus point system.
pub fn get_player_bps(endpoints: &FplEndpoints, player_id: u32) -> (r: i32)
    requires
        tracks_player(*endpoints, player_id),
    ensures
        r == live_player(*endpoints, player_id).stats.bps,
{
    get_player_from_live(endpoints, player_id).stats.bps
}

/// The availability of a player.
pub fn get_player_injury_status(endpoints: &FplEndpoints, player_id: u32) -> (r: InjuryStatus)
    requires
        knows_player(*endpoints, player_id),
    ensures
        r == injury_status_of(static_player(*endpoints, player_id).status@),
{
    InjuryStatus::from_fpl_str(get_player_from_static(endpoints, player_id).status.as_str())
}

/// The news on a player, if there is any.
pub fn get_player_news(endpoints: &FplEndpoints, player_id: u32) -> (r: Option<String>)
    requires
        knows_player(*endpoints, player_id),
    ensures
        r == static_player(*endpoints, player_id).news,
{
    match &get_player_from_static(endpoints, player_id).news {
        Some(text) => Some(text.clone()),
        None => None,
    }
}

/// Whether a final substitution brought the player on.
pub open spec fn brought_on(subs: Seq<Substitution>, element: i32) -> bool {
    exists|k: int| 0 <= k < subs.len() && (#[trigger] subs[k]).element_in == element
}

/// Whether a final substitution took the player off.
pub open spec fn taken_off(subs: Seq<Substitution>, element: i32) -> bool {
    exists|k: int| 0 <= k < subs.len() && (#[trigger] subs[k]).element_out == element
}

/// Whether the upstream line-up has a pick on the field: picked to start
/// and not taken off since, or brought on.
pub open spec fn on_field(pick: TeamGwPick, subs: Seq<Substitution>) -> bool {
    (pick.position <= LAST_STARTING_SLOT && !taken_off(subs, pick.element)) || brought_on(
        subs,
        pick.element,
    )
}

/// Whether the upstream line-up has a pick on the field.
pub fn compute_player_is_on_field(pick: &TeamGwPick, team_gw: &TeamGw) -> (r: bool)
    ensures
        r == on_field(*pick, team_gw.subs@),
{
    let selected_on_field = pick.position <= LAST_STARTING_SLOT;
    let mut substituted_in = false;
    let mut substituted_out = false;
    let mut k: usize = 0;
    while k < team_gw.subs.len()
        invariant
            k <= team_gw.subs@.len(),
            substituted_in == brought_on(team_gw.subs@.take(k as int), pick.element),
            substituted_out == taken_off(team_gw.subs@.take(k as int), pick.element),
        decreases team_gw.subs@.len() - k,
    {
        let ghost seen = team_gw.subs@.take(k as int);
        let ghost seen_next = team_gw.subs@.take(k + 1);
        let sub = &team_gw.subs[k];
        proof {
            assert(seen_next[k as int] == *sub);
            if brought_on(seen, pick.element) {
                let w = choose|w: int|
                    0 <= w < seen.len() && (#[trigger] seen[w]).element_in == pick.element;
                assert(seen_next[w] == seen[w]);
            }
            if taken_off(seen, pick.element) {
                let w = choose|w: int|
                    0 <= w < seen.len() && (#[trigger] seen[w]).element_out == pick.element;
                assert(seen_next[w] == seen[w]);
            }
            if brought_on(seen_next, pick.element) && sub.element_in != pick.element {
                let w = choose|w: int|
                    0 <= w < seen_next.len() && (#[trigger] seen_next[w]).element_in
                        == pick.element;
                assert(seen[w] == seen_next[w]);
            }
            if taken_off(seen_next, pick.element) && sub.element_out != pick.element {
                let w = choose|w: int|
                    0 <= w < seen_next.len() && (#[trigger] seen_next[w]).element_out
                        == pick.element;
                assert(seen[w] == seen_next[w]);
            }
        }
        if sub.element_in == pick.element {
            substituted_in = true;
        }
        if sub.element_out == pick.element {
            substituted_out = true;
        }
        k += 1;
    }
    assert(team_gw.subs@.take(k as int) =~= team_gw.subs@);
    (selected_on_field && !substituted_out) || substituted_in
}

/// Whether a player has played any minutes this gameweek.
pub fn compute_player_has_played(endpoints: &FplEndpoints, player_id: u32) -> (r: bool)
    requires
        tracks_player(*endpoints, player_id),
    ensures
        r == (live_player(*endpoints, player_id).stats.minutes > 0),
{
    let player = get_player_from_live(endpoints, player_id);
    player.stats.minutes > 0
}

/// The name of the league.
pub fn get_league_name(endpoints: &FplEndpoints) -> (r: String)
    ensures
        r@ == endpoints.details.league.name@,
{
    endpoints.details.league.name.clone()
}

/// The id of the league.
pub fn get_league_id(endpoints: &FplEndpoints) -> (r: u32)
    ensures
        r == endpoints.details.league.id,
{
    endpoints.details.league.id
}

/// How the league is scored.
pub fn get_league_scoring(endpoints: &FplEndpoints) -> (r: Scoring)
    ensures
        r == scoring_of(endpoints.details.league.scoring@),
{
    Scoring::from_fpl_str(endpoints.details.league.scoring.as_str())
}

/// The summary of a team, if the snapshot holds one.
pub fn get_team_info_entry(endpoints: &FplEndpoints, team_id: u32) -> (r: Option<&TeamInfoEntry>)
    ensures
        match r {
            Some(entry) => endpoints.teams_infos@.contains_key(team_id) && *entry
                == endpoints.teams_infos@[team_id].entry,
            None => !endpoints.teams_infos@.contains_key(team_id),
        },
{
    match endpoints.teams_infos.get(&team_id) {
        Some(info) => Some(&info.entry),
        None => None,
    }
}

/// The name of a team, or a placeholder where the snapshot has no summary
/// of the team.
pub open spec fn team_name_of(endpoints: FplEndpoints, team_id: u32) -> Seq<char> {
    if endpoints.teams_infos@.contains_key(team_id) {
        endpoints.teams_infos@[team_id].entry.name@
    } else {
        "<Team Name Unknown>"@
    }
}

/// The name of a team.
pub fn get_team_name(endpoints: &FplEndpoints, team_id: u32) -> (r: String)
    ensures
        r@ == team_name_of(*endpoints, team_id),
{
    match get_team_info_entry(endpoints, team_id) {
        None => String::from_str("<Team Name Unknown>"),
        Some(entry) => entry.name.clone(),
    }
}

/// The name of a team's owner, first name and last name, or a placeholder
/// where the snapshot has no summary of the team.
pub open spec fn team_owner_name_of(endpoints: FplEndpoints, team_id: u32) -> Seq<char> {
    if endpoints.teams_infos@.contains_key(team_id) {
        let entry = endpoints.teams_infos@[team_id].entry;
        entry.player_first_name@ + " "@ + entry.player_last_name@
    } else {
        "<Team Owner Unknown>"@
    }
}

/// The name of a team's owner.
pub fn get_team_owner_name(endpoints: &FplEndpoints, team_id: u32) -> (r: String)
    ensures
        r@ == team_owner_name_of(*endpoints, team_id),
{
    match get_team_info_entry(endpoints, team_id) {
        None => String::from_str("<Team Owner Unknown>"),
        Some(entry) => {
            let mut name = join(entry.player_first_name.as_str(), " ");
            name.append(entry.player_last_name.as_str());
            name
        },
    }
}

} // verus!
