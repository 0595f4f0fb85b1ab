//! What a team is projected to score this gameweek, and why that differs
//! from its live points.
use crate::computer::lineup::takes_part;
use crate::saturate::clamp_i32;
use crate::saturate::narrow_i32;
use crate::storage::table::ExplanationView;
use crate::storage::table::notes_shown;
use crate::storage::table::Player as TablePlayer;
use crate::storage::table::players_shown;
use crate::storage::table::PlayerView;
use crate::storage::table::PlayStatus;
use crate::storage::table::ProjectedPointsExplanation;
use vstd::prelude::*;

verus! {

/// The projected points of the players who take part, added up.
pub open spec fn projected_sum(players: Seq<PlayerView>) -> int
    decreases players.len(),
{
    if players.len() == 0 {
        0
    } else {
        projected_sum(players.drop_last()) + if takes_part(players.last().play_status) {
            players.last().projected_points as int
        } else {
            0
        }
    }
}

/// The live points of the players on the field, added up.
pub open spec fn live_sum(players: Seq<PlayerView>) -> int
    decreases players.len(),
{
    if players.len() == 0 {
        0
    } else {
        live_sum(players.drop_last()) + if players.last().on_field {
            players.last().points as int
        } else {
            0
        }
    }
}

/// The note on a player, if the player earns one.
///
/// A note goes to a player who takes part, has played and has scored, if
/// the projection differs from the live points or the player is certain to
/// come on. It carries the difference in the first case and the live
/// points in the second, and both where both hold.
pub open spec fn note_on(player: PlayerView) -> Option<ExplanationView> {
    let difference = clamp_i32(player.projected_points - player.points);
    let differs = difference != 0;
    let comes_on = player.play_status is SubbedIn;
    if takes_part(player.play_status) && player.has_played && player.points > 0 && (differs
        || comes_on) {
        Some(
            ExplanationView {
                name: player.display_name,
                bonus_points: if differs {
                    Some(difference as i32)
                } else {
                    None
                },
                subbed_points: if comes_on {
                    Some(player.points)
                } else {
                    None
                },
            },
        )
    } else {
        None
    }
}

/// The notes on the players of a roster, in roster order.
pub open spec fn notes_on(players: Seq<PlayerView>) -> Seq<ExplanationView>
    decreases players.len(),
{
    if players.len() == 0 {
        Seq::empty()
    } else {
        let before = notes_on(players.drop_last());
        match note_on(players.last()) {
            Some(note) => before.push(note),
            None => before,
        }
    }
}

fn is_taking_part(player: &TablePlayer) -> (r: bool)
    ensures
        r == takes_part(player.play_status),
{
    match player.play_status {
        PlayStatus::Playing => true,
        PlayStatus::SubbedIn { subbed_with: _ } => true,
        _ => false,
    }
}

/// The live points of a team this gameweek: those of its players on the
/// field.
pub fn calculate_live_points(players: &Vec<TablePlayer>) -> (r: i32)
    ensures
        r == clamp_i32(live_sum(players_shown(players@))),
{
    let ghost shown = players_shown(players@);
    let mut total: i128 = 0;
    let mut k: usize = 0;
    assert(shown.take(0) =~= Seq::<PlayerView>::empty());
    while k < players.len()
        invariant
            k <= players@.len(),
            shown == players_shown(players@),
            total == live_sum(shown.take(k as int)),
            -2147483648 * k <= total <= 2147483647 * k,
        decreases players@.len() - k,
    {
        assert(shown.take(k + 1).drop_last() =~= shown.take(k as int));
        assert(shown.take(k + 1).last() == players@[k as int]@);
        if players[k].on_field {
            total = total + players[k].points as i128;
        }
        k += 1;
    }
    assert(shown.take(k as int) =~= shown);
    narrow_i32(total)
}

/// The projected points of a team this gameweek: those of its players who
/// take part.
pub fn calculate_projected_points(players: &Vec<TablePlayer>) -> (r: i32)
    ensures
        r == clamp_i32(projected_sum(players_shown(players@))),
{
    let ghost shown = players_shown(players@);
    let mut total: i128 = 0;
    let mut k: usize = 0;
    assert(shown.take(0) =~= Seq::<PlayerView>::empty());
    while k < players.len()
        invariant
            k <= players@.len(),
            shown == players_shown(players@),
            total == projected_sum(shown.take(k as int)),
            -2147483648 * k <= total <= 2147483647 * k,
        decreases players@.len() - k,
    {
        assert(shown.take(k + 1).drop_last() =~= shown.take(k as int));
        assert(shown.take(k + 1).last() == players@[k as int]@);
        if is_taking_part(&players[k]) {
            total = total + players[k].projected_points as i128;
        }
        k += 1;
    }
    assert(shown.take(k as int) =~= shown);
    narrow_i32(total)
}

fn explain(player: &TablePlayer) -> (r: Option<ProjectedPointsExplanation>)
    ensures
        match r {
            Some(note) => note_on(player@) == Some(note@),
            None => note_on(player@) is None,
        },
{
    if is_taking_part(player) && player.has_played && player.points > 0 {
        let proj_diff = narrow_i32(player.projected_points as i128 - player.points as i128);
        let bonus_opt = if proj_diff != 0 {
            Some(proj_diff)
        } else {
            None
        };
        let subbed_pts_opt = match player.play_status {
            PlayStatus::SubbedIn { subbed_with: _ } => Some(player.points),
            _ => None,
        };
        if bonus_opt.is_some() || subbed_pts_opt.is_some() {
            return Some(
                ProjectedPointsExplanation {
                    name: player.display_name.clone(),
                    bonus_points: bonus_opt,
                    subbed_points: subbed_pts_opt,
                },
            );
        }
    }
    None
}

/// The notes on the projection of a team.
pub fn calculate_projected_point_explanation(players: &Vec<TablePlayer>) -> (r: Vec<
    ProjectedPointsExplanation,
>)
    ensures
        notes_shown(r@) == notes_on(players_shown(players@)),
{
    let ghost shown = players_shown(players@);
    let mut explanations: Vec<ProjectedPointsExplanation> = Vec::new();
    let mut k: usize = 0;
    assert(shown.take(0) =~= Seq::<PlayerView>::empty());
    assert(notes_shown(explanations@) =~= Seq::<ExplanationView>::empty());
    while k < players.len()
        invariant
            k <= players@.len(),
            shown == players_shown(players@),
            notes_shown(explanations@) == notes_on(shown.take(k as int)),
        decreases players@.len() - k,
    {
        assert(shown.take(k + 1).drop_last() =~= shown.take(k as int));
        assert(shown.take(k + 1).last() == players@[k as int]@);
        let ghost before = notes_shown(explanations@);
        if let Some(note) = explain(&players[k]) {
            explanations.push(note);
            assert(notes_shown(explanations@) =~= before.push(note@));
        }
        k += 1;
    }
    assert(shown.take(k as int) =~= shown);
    explanations
}

} // verus!
