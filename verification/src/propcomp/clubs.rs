//! The club a player plays for.
use crate::propcomp::code_of;
use crate::propcomp::get_player_team_id;
use crate::propcomp::knows_player;
use crate::propcomp::static_player;
use crate::propcomp::unsigned_code;
use crate::storage::FplEndpoints;
use crate::storage::table::Team as TableTeam;
use crate::storage::table::TeamView;
use crate::structs::staticinfo::Team as StaticTeam;
use crate::text::signed_decimal;
use crate::text::signed_decimal_text;
use vstd::prelude::*;

verus! {

/// The first club of a list with the given id.
pub open spec fn club_with(clubs: Seq<StaticTeam>, team_id: u32) -> Option<StaticTeam>
    decreases clubs.len(),
{
    if clubs.len() == 0 {
        None
    } else if clubs[0].id == team_id {
        Some(clubs[0])
    } else {
        club_with(clubs.drop_first(), team_id)
    }
}

/// Whether the reference data holds the club.
pub open spec fn knows_club(endpoints: FplEndpoints, team_id: u32) -> bool {
    club_with(endpoints.static_info.teams@, team_id) is Some
}

/// Where the image of a club's outfield shirt is found.
pub open spec fn shirt_url_of(code: i32) -> Seq<char> {
    "https://draft.premierleague.com/img/shirts/standard/shirt_"@ + signed_decimal(code as int)
        + "-36.png"@
}

/// Where the image of a club's goalkeeper shirt is found.
pub open spec fn gk_shirt_url_of(code: i32) -> Seq<char> {
    "https://draft.premierleague.com/img/shirts/standard/shirt_"@ + signed_decimal(code as int)
        + "_1-36.png"@
}

/// A club as the table shows it.
pub open spec fn club_shown(club: StaticTeam) -> TeamView {
    TeamView {
        id: club.id,
        name: club.name@,
        short_name: club.short_name@,
        code: code_of(club.code),
        shirt_url: shirt_url_of(club.code),
        gk_shirt_url: gk_shirt_url_of(club.code),
    }
}

/// The club of a player as the table shows it.
pub open spec fn club_of(endpoints: FplEndpoints, player_id: u32) -> TeamView {
    club_shown(
        club_with(endpoints.static_info.teams@, static_player(endpoints, player_id).team)->0,
    )
}

/// The club with the given id, if the reference data holds it.
pub fn find_club(endpoints: &FplEndpoints, team_id: u32) -> (r: Option<&StaticTeam>)
    ensures
        match r {
            Some(club) => club_with(endpoints.static_info.teams@, team_id) == Some(*club),
            None => !knows_club(*endpoints, team_id),
        },
{
    let clubs = &endpoints.static_info.teams;
    let mut k: usize = 0;
    assert(clubs@.skip(0) =~= clubs@);
    while k < clubs.len()
        invariant
            k <= clubs@.len(),
            *clubs == endpoints.static_info.teams,
            club_with(clubs@, team_id) == club_with(clubs@.skip(k as int), team_id),
        decreases clubs@.len() - k,
    {
        assert(clubs@.skip(k as int)[0] == clubs@[k as int]);
        assert(clubs@.skip(k as int).drop_first() =~= clubs@.skip(k + 1));
        if clubs[k].id == team_id {
            return Some(&clubs[k]);
        }
        k += 1;
    }
    None
}

fn show_club(club: &StaticTeam) -> (r: TableTeam)
    ensures
        r@ == club_shown(*club),
{
    let code = signed_decimal_text(club.code as i64);
    let mut shirt_url = String::from_str(
        "https://draft.premierleague.com/img/shirts/standard/shirt_",
    );
    shirt_url.append(code.as_str());
    shirt_url.append("-36.png");
    let mut gk_shirt_url = String::from_str(
        "https://draft.premierleague.com/img/shirts/standard/shirt_",
    );
    gk_shirt_url.append(code.as_str());
    gk_shirt_url.append("_1-36.png");
    TableTeam {
        id: club.id,
        name: club.name.clone(),
        short_name: club.short_name.clone(),
        code: unsigned_code(club.code),
        shirt_url,
        gk_shirt_url,
    }
}

/// The club a player plays for.
pub fn compute_player_team(endpoints: &FplEndpoints, player_id: u32) -> (r: TableTeam)
    requires
        knows_player(*endpoints, player_id),
        knows_club(*endpoints, static_player(*endpoints, player_id).team),
    ensures
        r@ == club_of(*endpoints, player_id),
{
    let team_id = get_player_team_id(endpoints, player_id);
    let club = find_club(endpoints, team_id).unwrap();
    show_club(club)
}

} // verus!
