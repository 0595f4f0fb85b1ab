//! The league table that is served to clients.
use crate::text::same_text;
use std::collections::HashMap;
use vstd::prelude::*;

verus! {

/// The league table: what clients are served.
#[derive(Debug)]
pub struct LeagueTable {
    /// The entries of the league, the one with the most points first.
    pub entries: Vec<Entry>,
    /// The code of the league.
    pub code: u32,
    /// The name of the league.
    pub name: String,
    /// How the league is scored.
    pub scoring: Scoring,
    /// For a head-to-head league, the matches of each gameweek, in no
    /// particular order.
    pub matches: Option<HashMap<u32, Vec<H2HMatch>>>,
}

/// The entry of one team.
#[derive(Debug)]
pub struct Entry {
    /// The code of the team.
    pub team_code: u32,
    /// The name of the team.
    pub team_name: String,
    /// Points of the whole season, the live gameweek included.
    pub total_points: i32,
    /// Points of the whole season, the projected gameweek included.
    pub total_projected_points: i32,
    /// Live points of this gameweek, over the players on the field.
    pub gw_points: i32,
    /// Projected points of this gameweek, with the bonus that the ranking
    /// promises and the substitutions that are certain to come.
    pub gw_projected_points: i32,
    /// Why the projection differs from the live points.
    pub projected_points_explanation: Vec<ProjectedPointsExplanation>,
    /// The name of the team's owner.
    pub owner_name: String,
    /// The players of the roster, by pick slot.
    pub players: Vec<Player>,
    /// The head-to-head record, where there is one.
    pub h2h_info: Option<H2HInfo>,
}

/// A note on why the projection of a player differs from the live points.
#[derive(Debug)]
pub struct ProjectedPointsExplanation {
    /// The display name of the player.
    pub name: String,
    /// What the projection adds to the player's live points.
    pub bonus_points: Option<i32>,
    /// The live points of a player who is certain to come on.
    pub subbed_points: Option<i32>,
}

/// A player of a roster in one gameweek.
#[derive(Debug)]
pub struct Player {
    pub id: u32,
    /// First name and second name.
    pub full_name: String,
    pub display_name: String,
    /// The club the player plays for.
    pub team: Team,
    pub team_pos: Position,
    /// Live points.
    pub points: i32,
    /// The score in the bonus point system.
    pub bps: i32,
    pub projected_points: i32,
    /// Where the live points come from.
    pub point_sources: Vec<PointSource>,
    /// Whether the upstream line-up has the player on the field: picked
    /// to start and not taken off, or brought on.
    pub on_field: bool,
    /// The pick slot: 1 to 11 start, 12 to 15 sit on the bench.
    pub pick_number: i32,
    /// Whether the player has played any minutes this gameweek.
    pub has_played: bool,
    /// Whether all fixtures of the player this gameweek have finished.
    pub fixtures_finished: bool,
    /// Whether a fixture of the player this gameweek has yet to start.
    pub has_upcoming_fixtures: bool,
    pub status: InjuryStatus,
    pub news: Option<String>,
    pub play_status: PlayStatus,
}

/// A club.
#[derive(Debug)]
pub struct Team {
    pub id: u32,
    pub name: String,
    pub short_name: String,
    /// Names the club in the shirt images.
    pub code: u32,
    pub shirt_url: String,
    pub gk_shirt_url: String,
}

/// A position on the pitch.
#[derive(Debug)]
pub struct Position {
    /// 1 goalkeeper, 2 defender, 3 midfielder, 4 forward.
    pub number: u32,
    /// GK, DEF, MID or FWD; empty for any other number.
    pub name: String,
}

/// One source of a player's points.
#[derive(Debug)]
pub struct PointSource {
    /// What the points are for.
    pub name: String,
    /// The points from this source in total.
    pub points_total: i32,
    /// How often it happened.
    pub amount: i32,
    /// The fixture the points come from.
    pub fixture: u32,
    /// The upstream name of the statistic.
    pub stat: String,
}

/// How a league is scored: head to head, or by points alone.
#[allow(non_camel_case_types)]
#[derive(Clone, Copy, Debug, PartialEq, Eq, Structural)]
pub enum Scoring {
    H2H,
    CLASSIC,
}

/// A match between two league entries.
#[derive(Clone, Copy, Debug, PartialEq, Eq, Structural)]
pub struct H2HMatch {
    pub gw: u32,
    pub league_entry_1: u32,
    pub league_entry_2: u32,
    pub started: bool,
    pub finished: bool,
}

/// The head-to-head record of a team.
#[derive(Clone, Copy, Debug, PartialEq, Eq, Structural)]
pub struct H2HInfo {
    pub points: i32,
    pub matches_drawn: u32,
    pub matches_lost: u32,
    pub matches_played: u32,
    pub matches_won: u32,
    pub current_opponent: u32,
}

/// How available a player is.
#[derive(Clone, Copy, Debug, PartialEq, Eq, Structural)]
pub enum InjuryStatus {
    Available,
    Doubt,
    Unavailable,
}

/// Whether a player plays this gameweek, as far as can be told.
#[derive(Clone, Copy, Debug, PartialEq, Eq, Structural)]
pub enum PlayStatus {
    /// On the field, and not known to leave it.
    Playing,
    /// On the bench, and not certain to come on.
    Benched,
    /// On the bench and certain to come on for the player `subbed_with`.
    SubbedIn { subbed_with: u32 },
    /// On the field and certain to make way for the player `subbed_with`.
    SubbedOff { subbed_with: u32 },
    /// Not yet resolved.
    Unknown,
}

/// A club as a value.
pub struct TeamView {
    pub id: u32,
    pub name: Seq<char>,
    pub short_name: Seq<char>,
    pub code: u32,
    pub shirt_url: Seq<char>,
    pub gk_shirt_url: Seq<char>,
}

impl View for Team {
    type V = TeamView;

    open spec fn view(&self) -> TeamView {
        TeamView {
            id: self.id,
            name: self.name@,
            short_name: self.short_name@,
            code: self.code,
            shirt_url: self.shirt_url@,
            gk_shirt_url: self.gk_shirt_url@,
        }
    }
}

/// A position as a value.
pub struct PositionView {
    pub number: u32,
    pub name: Seq<char>,
}

impl View for Position {
    type V = PositionView;

    open spec fn view(&self) -> PositionView {
        PositionView { number: self.number, name: self.name@ }
    }
}

/// A player of the table as a value.
pub struct PlayerView {
    pub id: u32,
    pub full_name: Seq<char>,
    pub display_name: Seq<char>,
    pub team: TeamView,
    pub team_pos: PositionView,
    pub points: i32,
    pub bps: i32,
    pub projected_points: i32,
    pub point_sources: Seq<PointSource>,
    pub on_field: bool,
    pub pick_number: i32,
    pub has_played: bool,
    pub fixtures_finished: bool,
    pub has_upcoming_fixtures: bool,
    pub status: InjuryStatus,
    pub news: Option<String>,
    pub play_status: PlayStatus,
}

impl View for Player {
    type V = PlayerView;

    open spec fn view(&self) -> PlayerView {
        PlayerView {
            id: self.id,
            full_name: self.full_name@,
            display_name: self.display_name@,
            team: self.team@,
            team_pos: self.team_pos@,
            points: self.points,
            bps: self.bps,
            projected_points: self.projected_points,
            point_sources: self.point_sources@,
            on_field: self.on_field,
            pick_number: self.pick_number,
            has_played: self.has_played,
            fixtures_finished: self.fixtures_finished,
            has_upcoming_fixtures: self.has_upcoming_fixtures,
            status: self.status,
            news: self.news,
            play_status: self.play_status,
        }
    }
}

/// A note on a projection as a value.
pub struct ExplanationView {
    pub name: Seq<char>,
    pub bonus_points: Option<i32>,
    pub subbed_points: Option<i32>,
}

impl View for ProjectedPointsExplanation {
    type V = ExplanationView;

    open spec fn view(&self) -> ExplanationView {
        ExplanationView {
            name: self.name@,
            bonus_points: self.bonus_points,
            subbed_points: self.subbed_points,
        }
    }
}

/// The players of a roster as values.
pub open spec fn players_shown(players: Seq<Player>) -> Seq<PlayerView> {
    Seq::new(players.len(), |k: int| players[k]@)
}

/// The notes on a projection as values.
pub open spec fn notes_shown(notes: Seq<ProjectedPointsExplanation>) -> Seq<ExplanationView> {
    Seq::new(notes.len(), |k: int| notes[k]@)
}

/// An entry of the table as a value.
pub struct EntryView {
    pub team_code: u32,
    pub team_name: Seq<char>,
    pub total_points: i32,
    pub total_projected_points: i32,
    pub gw_points: i32,
    pub gw_projected_points: i32,
    pub projected_points_explanation: Seq<ExplanationView>,
    pub owner_name: Seq<char>,
    pub players: Seq<PlayerView>,
    pub h2h_info: Option<H2HInfo>,
}

impl View for Entry {
    type V = EntryView;

    open spec fn view(&self) -> EntryView {
        EntryView {
            team_code: self.team_code,
            team_name: self.team_name@,
            total_points: self.total_points,
            total_projected_points: self.total_projected_points,
            gw_points: self.gw_points,
            gw_projected_points: self.gw_projected_points,
            projected_points_explanation: notes_shown(self.projected_points_explanation@),
            owner_name: self.owner_name@,
            players: players_shown(self.players@),
            h2h_info: self.h2h_info,
        }
    }
}

/// The entries of a table as values.
pub open spec fn entries_shown(entries: Seq<Entry>) -> Seq<EntryView> {
    Seq::new(entries.len(), |k: int| entries[k]@)
}

/// The matches of each gameweek as values.
pub open spec fn matches_shown(matches: Map<u32, Vec<H2HMatch>>) -> Map<u32, Seq<H2HMatch>> {
    Map::new(|gw: u32| matches.contains_key(gw), |gw: u32| matches[gw]@)
}

/// The table as a value.
pub struct LeagueTableView {
    pub entries: Seq<EntryView>,
    pub code: u32,
    pub name: Seq<char>,
    pub scoring: Scoring,
    pub matches: Option<Map<u32, Seq<H2HMatch>>>,
}

impl View for LeagueTable {
    type V = LeagueTableView;

    open spec fn view(&self) -> LeagueTableView {
        LeagueTableView {
            entries: entries_shown(self.entries@),
            code: self.code,
            name: self.name@,
            scoring: self.scoring,
            matches: match self.matches {
                Some(matches) => Some(matches_shown(matches@)),
                None => None,
            },
        }
    }
}

/// What a position is called.
pub open spec fn position_name(number: u32) -> Seq<char> {
    if number == 1 {
        "GK"@
    } else if number == 2 {
        "DEF"@
    } else if number == 3 {
        "MID"@
    } else if number == 4 {
        "FWD"@
    } else {
        Seq::empty()
    }
}

impl Position {
    /// The position with the given number.
    pub fn from_number(number: u32) -> (r: Position)
        ensures
            r@ == (PositionView { number, name: position_name(number) }),
    {
        proof {
            reveal_strlit("");
        }
        let name = if number == 1 {
            "GK"
        } else if number == 2 {
            "DEF"
        } else if number == 3 {
            "MID"
        } else if number == 4 {
            "FWD"
        } else {
            ""
        };
        assert(name@ =~= position_name(number));
        Position { number, name: String::from_str(name) }
    }
}

/// The scoring mode that an upstream code stands for: `h` is head-to-head,
/// anything else classic.
pub open spec fn scoring_of(code: Seq<char>) -> Scoring {
    if code == "h"@ {
        Scoring::H2H
    } else {
        Scoring::CLASSIC
    }
}

impl Scoring {
    /// The scoring mode that an upstream code stands for.
    pub fn from_fpl_str(fpl_scoring_str: &str) -> (r: Scoring)
        ensures
            r == scoring_of(fpl_scoring_str@),
    {
        if same_text(fpl_scoring_str, "h") {
            Scoring::H2H
        } else {
            Scoring::CLASSIC
        }
    }
}

/// The availability that an upstream status code stands for. `d` is a
/// doubt; `u`, `i`, `s` and `n` are unavailable; `a` and any unknown code
/// count as available.
pub open spec fn injury_status_of(code: Seq<char>) -> InjuryStatus {
    if code == "d"@ {
        InjuryStatus::Doubt
    } else if code == "u"@ || code == "i"@ || code == "s"@ || code == "n"@ {
        InjuryStatus::Unavailable
    } else {
        InjuryStatus::Available
    }
}

impl InjuryStatus {
    /// The availability that an upstream status code stands for.
    pub fn from_fpl_str(injury_status: &str) -> (r: InjuryStatus)
        ensures
            r == injury_status_of(injury_status@),
    {
        if same_text(injury_status, "d") {
            InjuryStatus::Doubt
        } else if same_text(injury_status, "u") || same_text(injury_status, "i") || same_text(
            injury_status,
            "s",
        ) || same_text(injury_status, "n") {
            InjuryStatus::Unavailable
        } else {
            InjuryStatus::Available
        }
    }
}

} // verus!
