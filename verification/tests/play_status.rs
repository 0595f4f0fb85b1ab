use fpl_proxy::computer::calculate_play_status;
use fpl_proxy::storage::table::InjuryStatus;
use fpl_proxy::storage::table::PlayStatus;
use fpl_proxy::storage::table::Player;
use fpl_proxy::storage::table::Position;
use fpl_proxy::storage::table::Team;

const GK: u32 = 1;
const DEF: u32 = 2;
const MID: u32 = 3;
const FWD: u32 = 4;

fn club() -> Team {
    Team {
        id: 1,
        name: String::from("Club"),
        short_name: String::from("CLB"),
        code: 3,
        shirt_url: String::new(),
        gk_shirt_url: String::new(),
    }
}

/// A player who has played and whose fixtures are finished.
fn player(id: u32, position: u32, pick: i32) -> Player {
    Player {
        id,
        full_name: format!("Player {}", id),
        display_name: format!("P{}", id),
        team: club(),
        team_pos: Position::from_number(position),
        points: 2,
        bps: 10,
        projected_points: 2,
        point_sources: Vec::new(),
        on_field: pick <= 11,
        pick_number: pick,
        has_played: true,
        fixtures_finished: true,
        has_upcoming_fixtures: false,
        status: InjuryStatus::Available,
        news: None,
        play_status: PlayStatus::Unknown,
    }
}

/// A player whose fixtures are finished and who never played.
fn blanked(id: u32, position: u32, pick: i32) -> Player {
    let mut p = player(id, position, pick);
    p.has_played = false;
    p.points = 0;
    p
}

/// A player whose fixture has yet to start.
fn waiting(id: u32, position: u32, pick: i32) -> Player {
    let mut p = player(id, position, pick);
    p.has_played = false;
    p.fixtures_finished = false;
    p.has_upcoming_fixtures = true;
    p.points = 0;
    p
}

/// One goalkeeper, four defenders, four midfielders and two forwards on
/// the field; a goalkeeper, a defender, a midfielder and a forward on the
/// bench. The player in pick slot `n` has the id `100 + n`.
fn full_roster(make: fn(u32, u32, i32) -> Player, bench: fn(u32, u32, i32) -> Player) -> Vec<Player> {
    let positions = [GK, DEF, DEF, DEF, DEF, MID, MID, MID, MID, FWD, FWD, GK, DEF, MID, FWD];
    let mut roster = Vec::new();
    for (k, position) in positions.iter().enumerate() {
        let pick = k as i32 + 1;
        let id = 100 + pick as u32;
        if pick <= 11 {
            roster.push(make(id, *position, pick));
        } else {
            roster.push(bench(id, *position, pick));
        }
    }
    roster
}

fn status_of(roster: &Vec<Player>, id: u32) -> PlayStatus {
    roster.iter().find(|p| p.id == id).unwrap().play_status
}

fn count_status(roster: &Vec<Player>, wanted: fn(&PlayStatus) -> bool) -> usize {
    roster.iter().filter(|p| wanted(&p.play_status)).count()
}

fn is_in(s: &PlayStatus) -> bool {
    matches!(s, PlayStatus::SubbedIn { .. })
}

fn is_off(s: &PlayStatus) -> bool {
    matches!(s, PlayStatus::SubbedOff { .. })
}

fn replace(roster: &mut Vec<Player>, with: Player) {
    let at = roster.iter().position(|p| p.pick_number == with.pick_number).unwrap();
    roster[at] = with;
}

#[test]
fn everyone_played_means_no_substitutions() {
    let mut roster = full_roster(player, blanked);
    calculate_play_status(&mut roster);
    assert_eq!(roster.len(), 15);
    for p in roster.iter() {
        if p.pick_number <= 11 {
            assert_eq!(p.play_status, PlayStatus::Playing);
        } else {
            assert_eq!(p.play_status, PlayStatus::Benched);
        }
    }
    assert_eq!(count_status(&roster, is_in), 0);
    assert_eq!(count_status(&roster, is_off), 0);
}

#[test]
fn blanked_keeper_makes_way_for_waiting_bench_keeper() {
    let mut roster = full_roster(player, blanked);
    replace(&mut roster, blanked(101, GK, 1));
    replace(&mut roster, waiting(112, GK, 12));
    calculate_play_status(&mut roster);
    assert_eq!(status_of(&roster, 112), PlayStatus::SubbedIn { subbed_with: 101 });
    assert_eq!(status_of(&roster, 101), PlayStatus::SubbedOff { subbed_with: 112 });
    assert_eq!(count_status(&roster, is_in), 1);
    assert_eq!(count_status(&roster, is_off), 1);
    for p in roster.iter() {
        if p.id != 101 && p.id != 112 {
            if p.pick_number <= 11 {
                assert_eq!(p.play_status, PlayStatus::Playing);
            } else {
                assert_eq!(p.play_status, PlayStatus::Benched);
            }
        }
    }
}

#[test]
fn bench_keeper_who_played_comes_on() {
    let mut roster = full_roster(player, blanked);
    replace(&mut roster, blanked(101, GK, 1));
    replace(&mut roster, player(112, GK, 12));
    calculate_play_status(&mut roster);
    assert_eq!(status_of(&roster, 112), PlayStatus::SubbedIn { subbed_with: 101 });
    assert_eq!(status_of(&roster, 101), PlayStatus::SubbedOff { subbed_with: 112 });
}

#[test]
fn blanked_keeper_stays_when_bench_keeper_blanked_too() {
    let mut roster = full_roster(player, blanked);
    replace(&mut roster, blanked(101, GK, 1));
    calculate_play_status(&mut roster);
    assert_eq!(status_of(&roster, 101), PlayStatus::Playing);
    assert_eq!(status_of(&roster, 112), PlayStatus::Benched);
    assert_eq!(count_status(&roster, is_in), 0);
}

#[test]
fn keeper_with_fixture_to_come_is_not_replaced() {
    let mut roster = full_roster(player, player);
    replace(&mut roster, waiting(101, GK, 1));
    calculate_play_status(&mut roster);
    assert_eq!(status_of(&roster, 101), PlayStatus::Playing);
    assert_eq!(status_of(&roster, 112), PlayStatus::Benched);
}

#[test]
fn outfield_player_never_replaces_the_keeper() {
    let mut roster = full_roster(player, player);
    replace(&mut roster, blanked(101, GK, 1));
    replace(&mut roster, blanked(112, GK, 12));
    calculate_play_status(&mut roster);
    assert_eq!(status_of(&roster, 101), PlayStatus::Playing);
    assert_eq!(count_status(&roster, is_in), 0);
    assert_eq!(count_status(&roster, is_off), 0);
}

#[test]
fn first_ready_bench_player_fills_the_line_up_to_ten() {
    let mut roster = full_roster(player, player);
    // a midfielder blanks: three midfielders are left, the minimum holds
    replace(&mut roster, blanked(106, MID, 6));
    calculate_play_status(&mut roster);
    // the defender in slot 13 is the first outfield player on the bench
    assert_eq!(status_of(&roster, 113), PlayStatus::SubbedIn { subbed_with: 106 });
    assert_eq!(status_of(&roster, 106), PlayStatus::SubbedOff { subbed_with: 113 });
    assert_eq!(status_of(&roster, 114), PlayStatus::Benched);
    assert_eq!(status_of(&roster, 115), PlayStatus::Benched);
    assert_eq!(status_of(&roster, 112), PlayStatus::Benched);
    assert_eq!(count_status(&roster, is_in), 1);
}

#[test]
fn bench_player_who_blanked_is_passed_over() {
    let mut roster = full_roster(player, player);
    replace(&mut roster, blanked(106, MID, 6));
    replace(&mut roster, blanked(113, DEF, 13));
    calculate_play_status(&mut roster);
    assert_eq!(status_of(&roster, 113), PlayStatus::Benched);
    assert_eq!(status_of(&roster, 114), PlayStatus::SubbedIn { subbed_with: 106 });
    assert_eq!(status_of(&roster, 106), PlayStatus::SubbedOff { subbed_with: 114 });
}

#[test]
fn minimum_of_a_position_goes_before_bench_order() {
    // three defenders, five midfielders, two forwards
    let positions = [GK, DEF, DEF, DEF, MID, MID, MID, MID, MID, FWD, FWD];
    let mut roster = Vec::new();
    for (k, position) in positions.iter().enumerate() {
        let pick = k as i32 + 1;
        roster.push(player(100 + pick as u32, *position, pick));
    }
    roster.push(player(112, GK, 12));
    roster.push(player(113, MID, 13));
    roster.push(player(114, DEF, 14));
    roster.push(player(115, FWD, 15));
    // a defender blanks: two are left, one short of the minimum
    replace(&mut roster, blanked(102, DEF, 2));
    calculate_play_status(&mut roster);
    assert_eq!(status_of(&roster, 114), PlayStatus::SubbedIn { subbed_with: 102 });
    assert_eq!(status_of(&roster, 102), PlayStatus::SubbedOff { subbed_with: 114 });
    // ten outfield players are accounted for: nobody else comes on
    assert_eq!(status_of(&roster, 113), PlayStatus::Benched);
    assert_eq!(status_of(&roster, 115), PlayStatus::Benched);
    assert_eq!(count_status(&roster, is_in), 1);
}

#[test]
fn every_blanked_starter_is_replaced_while_the_bench_lasts() {
    let mut roster = full_roster(player, player);
    replace(&mut roster, blanked(102, DEF, 2));
    replace(&mut roster, blanked(106, MID, 6));
    replace(&mut roster, blanked(110, FWD, 10));
    replace(&mut roster, blanked(111, FWD, 11));
    calculate_play_status(&mut roster);
    // both forwards blanked: the forward on the bench restores the minimum
    assert_eq!(status_of(&roster, 115), PlayStatus::SubbedIn { subbed_with: 110 });
    assert_eq!(status_of(&roster, 110), PlayStatus::SubbedOff { subbed_with: 115 });
    // then the bench fills the line in its order, for the blanked starters in theirs
    assert_eq!(status_of(&roster, 113), PlayStatus::SubbedIn { subbed_with: 102 });
    assert_eq!(status_of(&roster, 102), PlayStatus::SubbedOff { subbed_with: 113 });
    assert_eq!(status_of(&roster, 114), PlayStatus::SubbedIn { subbed_with: 106 });
    assert_eq!(status_of(&roster, 106), PlayStatus::SubbedOff { subbed_with: 114 });
    // nobody is left for the second forward, who stays
    assert_eq!(status_of(&roster, 111), PlayStatus::Playing);
    assert_eq!(count_status(&roster, is_in), 3);
    assert_eq!(count_status(&roster, is_off), 3);
}

#[test]
fn players_come_out_ordered_by_pick_slot() {
    let mut roster = full_roster(player, player);
    roster.reverse();
    calculate_play_status(&mut roster);
    let picks: Vec<i32> = roster.iter().map(|p| p.pick_number).collect();
    assert_eq!(picks, vec![1, 2, 3, 4, 5, 6, 7, 8, 9, 10, 11, 12, 13, 14, 15]);
}

#[test]
fn nobody_is_left_unknown() {
    let mut roster = full_roster(blanked, waiting);
    replace(&mut roster, waiting(103, DEF, 3));
    calculate_play_status(&mut roster);
    for p in roster.iter() {
        assert_ne!(p.play_status, PlayStatus::Unknown);
    }
}

#[test]
fn substitutions_name_each_other() {
    let mut roster = full_roster(blanked, waiting);
    calculate_play_status(&mut roster);
    let mut pairs = 0;
    for p in roster.iter() {
        if let PlayStatus::SubbedIn { subbed_with } = p.play_status {
            let partners: Vec<&Player> = roster
                .iter()
                .filter(|q| q.play_status == PlayStatus::SubbedOff { subbed_with: p.id })
                .collect();
            assert_eq!(partners.len(), 1);
            assert_eq!(partners[0].id, subbed_with);
            pairs += 1;
        }
        if let PlayStatus::SubbedOff { subbed_with } = p.play_status {
            let partners: Vec<&Player> = roster
                .iter()
                .filter(|q| q.play_status == PlayStatus::SubbedIn { subbed_with: p.id })
                .collect();
            assert_eq!(partners.len(), 1);
            assert_eq!(partners[0].id, subbed_with);
        }
    }
    // the whole bench comes on: the keeper, the forward for the minimum,
    // the defender and the midfielder
    assert_eq!(pairs, 4);
}

#[test]
fn minimums_hold_when_the_bench_has_the_players() {
    let mut roster = full_roster(player, player);
    replace(&mut roster, blanked(102, DEF, 2));
    replace(&mut roster, blanked(103, DEF, 3));
    calculate_play_status(&mut roster);
    let active = |position: u32| {
        roster
            .iter()
            .filter(|p| {
                p.team_pos.number == position
                    && (p.play_status == PlayStatus::Playing || is_in(&p.play_status))
            })
            .count()
    };
    assert!(active(DEF) >= 3);
    assert!(active(MID) >= 2);
    assert!(active(FWD) >= 1);
    // two defenders were left: the defender on the bench comes on first
    assert_eq!(status_of(&roster, 113), PlayStatus::SubbedIn { subbed_with: 102 });
    // and the line is filled up to ten by the next on the bench
    assert_eq!(status_of(&roster, 114), PlayStatus::SubbedIn { subbed_with: 103 });
}

#[test]
fn player_taken_off_upstream_does_not_come_back() {
    let mut roster = full_roster(player, player);
    // the upstream system took the midfielder in slot 6 off for the one in slot 14
    let mut off = player(106, MID, 6);
    off.on_field = false;
    replace(&mut roster, off);
    let mut on = player(114, MID, 14);
    on.on_field = true;
    replace(&mut roster, on);
    replace(&mut roster, blanked(107, MID, 7));
    calculate_play_status(&mut roster);
    assert_eq!(status_of(&roster, 106), PlayStatus::Benched);
    assert_eq!(status_of(&roster, 114), PlayStatus::Playing);
    assert_eq!(status_of(&roster, 113), PlayStatus::SubbedIn { subbed_with: 107 });
}

#[test]
fn empty_roster_resolves_to_nothing() {
    let mut roster: Vec<Player> = Vec::new();
    calculate_play_status(&mut roster);
    assert!(roster.is_empty());
}
