//! The entries of the table, one for each team.
use crate::computer::head_to_head::compute_h2h_info;
use crate::computer::head_to_head::h2h_info_of;
use crate::computer::projection::calculate_live_points;
use crate::computer::projection::calculate_projected_point_explanation;
use crate::computer::projection::calculate_projected_points;
use crate::computer::projection::live_sum;
use crate::computer::projection::notes_on;
use crate::computer::projection::projected_sum;
use crate::computer::roster::extract_players;
use crate::computer::roster::has_roster;
use crate::computer::roster::players_of;
use crate::computer::roster::roster_is_held;
use crate::propcomp::get_team_info_entry;
use crate::propcomp::get_team_name;
use crate::propcomp::get_team_owner_name;
use crate::propcomp::team_name_of;
use crate::propcomp::team_owner_name_of;
use crate::saturate::clamp_i32;
use crate::saturate::narrow_i32;
use crate::storage::FplEndpoints;
use crate::storage::table::entries_shown;
use crate::storage::table::Entry as TableEntry;
use crate::storage::table::EntryView;
use crate::structs::details::LeagueEntry;
use vstd::prelude::*;

verus! {

/// The points of a team before this gameweek: the season's points without
/// those of the gameweek, nothing where the snapshot has no summary of the
/// team.
pub open spec fn points_before(endpoints: FplEndpoints, team_id: u32) -> int {
    if endpoints.teams_infos@.contains_key(team_id) {
        let summary = endpoints.teams_infos@[team_id].entry;
        clamp_i32(summary.overall_points - summary.event_points)
    } else {
        0
    }
}

/// The entry of a team.
pub open spec fn entry_of(endpoints: FplEndpoints, team_id: u32) -> EntryView {
    let players = players_of(endpoints, team_id);
    let before = points_before(endpoints, team_id);
    let gw_points = clamp_i32(live_sum(players));
    let gw_projected_points = clamp_i32(projected_sum(players));
    EntryView {
        team_code: team_id,
        team_name: team_name_of(endpoints, team_id),
        total_points: clamp_i32(before + gw_points) as i32,
        total_projected_points: clamp_i32(before + gw_projected_points) as i32,
        gw_points: gw_points as i32,
        gw_projected_points: gw_projected_points as i32,
        projected_points_explanation: notes_on(players),
        owner_name: team_owner_name_of(endpoints, team_id),
        players,
        h2h_info: h2h_info_of(endpoints, team_id),
    }
}

/// The entries of the teams that a league lists, in the order of the
/// list. A team whose roster the snapshot does not hold has no entry.
pub open spec fn entries_for(endpoints: FplEndpoints, listed: Seq<LeagueEntry>) -> Seq<EntryView>
    decreases listed.len(),
{
    if listed.len() == 0 {
        Seq::empty()
    } else {
        let before = entries_for(endpoints, listed.drop_last());
        if has_roster(endpoints, listed.last().entry_id) {
            before.push(entry_of(endpoints, listed.last().entry_id))
        } else {
            before
        }
    }
}

/// The entries of the league, in the order in which the league lists its
/// teams.
pub open spec fn entries_of(endpoints: FplEndpoints) -> Seq<EntryView> {
    entries_for(endpoints, endpoints.details.league_entries@)
}

/// The points of a team before this gameweek.
pub fn get_total_points_before_gw(endpoints: &FplEndpoints, id: u32) -> (r: i32)
    ensures
        r == points_before(*endpoints, id),
{
    match get_team_info_entry(endpoints, id) {
        Some(team_info) => narrow_i32(
            team_info.overall_points as i128 - team_info.event_points as i128,
        ),
        None => 0,
    }
}

/// The entry of a team.
pub fn compute_league_entry(endpoints: &FplEndpoints, id: u32) -> (r: TableEntry)
    requires
        has_roster(*endpoints, id),
    ensures
        r@ == entry_of(*endpoints, id),
{
    let players = extract_players(endpoints, id);
    let owner_name = get_team_owner_name(endpoints, id);
    let team_name = get_team_name(endpoints, id);
    let gw_points = calculate_live_points(&players);
    let gw_projected_points = calculate_projected_points(&players);
    let projected_points_explanation = calculate_projected_point_explanation(&players);
    let total_points_before_gw = get_total_points_before_gw(endpoints, id);
    let total_points = narrow_i32(total_points_before_gw as i128 + gw_points as i128);
    let total_projected_points = narrow_i32(
        total_points_before_gw as i128 + gw_projected_points as i128,
    );
    let h2h_info = compute_h2h_info(endpoints, id);
    TableEntry {
        team_code: id,
        owner_name,
        team_name,
        total_points,
        total_projected_points,
        gw_points,
        gw_projected_points,
        projected_points_explanation,
        players,
        h2h_info,
    }
}

/// The entries of the league.
pub fn compute_league_entries(endpoints: &FplEndpoints) -> (r: Vec<TableEntry>)
    ensures
        entries_shown(r@) == entries_of(*endpoints),
{
    let listed = &endpoints.details.league_entries;
    let mut entries: Vec<TableEntry> = Vec::new();
    let mut k: usize = 0;
    assert(listed@.take(0) =~= Seq::<LeagueEntry>::empty());
    assert(entries_shown(entries@) =~= Seq::<EntryView>::empty());
    while k < listed.len()
        invariant
            k <= listed@.len(),
            *listed == endpoints.details.league_entries,
            entries_shown(entries@) == entries_for(*endpoints, listed@.take(k as int)),
        decreases listed@.len() - k,
    {
        assert(listed@.take(k + 1).drop_last() =~= listed@.take(k as int));
        assert(listed@.take(k + 1).last() == listed@[k as int]);
        let team_id = listed[k].entry_id;
        let ghost before = entries_shown(entries@);
        if roster_is_held(endpoints, team_id) {
            let entry = compute_league_entry(endpoints, team_id);
            entries.push(entry);
            assert(entries_shown(entries@) =~= before.push(entry@));
        }
        k += 1;
    }
    assert(listed@.take(k as int) =~= listed@);
    entries
}

} // verus!
