//! The league table of a snapshot.
use crate::computer::entries::compute_league_entries;
use crate::computer::entries::entries_of;
use crate::computer::matches::compute_all_league_matches;
use crate::computer::matches::league_matches;
use crate::propcomp::get_league_id;
use crate::propcomp::get_league_name;
use crate::propcomp::get_league_scoring;
use crate::ranking::lemma_sort_shown;
use crate::ranking::lemma_stable_sort;
use crate::ranking::ordered;
use crate::ranking::Rankable;
use crate::ranking::Ranked;
use crate::ranking::sort_ranked;
use crate::ranking::stable_sort;
use crate::storage::FplEndpoints;
use crate::storage::table::entries_shown;
use crate::storage::table::Entry as TableEntry;
use crate::storage::table::EntryView;
use crate::storage::table::LeagueTable;
use crate::storage::table::LeagueTableView;
use crate::storage::table::scoring_of;
use vstd::prelude::*;

verus! {

/// How long the publication loop sleeps between two tables.
pub const PUBLICATION_SLEEP_MS: u64 = 30000;

/// Entries are ordered by points: the more points, the earlier.
impl Ranked for TableEntry {
    open spec fn rank(&self) -> int {
        -(self.total_points as int)
    }
}

impl Rankable for TableEntry {
    fn rank_of(&self) -> (r: i64) {
        -(self.total_points as i64)
    }
}

impl Ranked for EntryView {
    open spec fn rank(&self) -> int {
        -(self.total_points as int)
    }
}

/// Whether the snapshot is too incomplete for a table: the league lists
/// teams, and the snapshot holds the roster of none.
pub open spec fn too_incomplete(endpoints: FplEndpoints) -> bool {
    endpoints.details.league_entries@.len() > 0 && entries_of(endpoints).len() == 0
}

/// The table of a snapshot. Its entries are those of the league, the one
/// with the most points first; entries with the same points keep the order
/// in which the league lists their teams.
pub open spec fn table_of(endpoints: FplEndpoints) -> LeagueTableView {
    LeagueTableView {
        entries: stable_sort(entries_of(endpoints)),
        code: endpoints.details.league.id,
        name: endpoints.details.league.name@,
        scoring: scoring_of(endpoints.details.league.scoring@),
        matches: league_matches(endpoints),
    }
}

/// The table of a snapshot, or nothing where the snapshot is too
/// incomplete. In the table no entry has more points than one before it.
pub fn compute_new_league_table(endpoints: FplEndpoints) -> (r: Option<LeagueTable>)
    ensures
        match r {
            Some(table) => {
                &&& !too_incomplete(endpoints)
                &&& table@ == table_of(endpoints)
                &&& forall|i: int, j: int|
                    0 <= i <= j < table.entries@.len() ==> (
                    #[trigger] table.entries@[i]).total_points >= (
                    #[trigger] table.entries@[j]).total_points
            },
            None => too_incomplete(endpoints),
        },
{
    let mut entries = compute_league_entries(&endpoints);
    if entries.len() == 0 && endpoints.details.league_entries.len() > 0 {
        return None;
    }
    let ghost computed = entries@;
    sort_ranked(&mut entries);
    proof {
        let show = |e: TableEntry| e@;
        lemma_sort_shown(computed, show);
        lemma_stable_sort(computed);
        assert(computed.map_values(show) =~= entries_shown(computed));
        assert(entries@.map_values(show) =~= entries_shown(entries@));
        assert forall|i: int, j: int| 0 <= i <= j < entries@.len() implies (
        #[trigger] entries@[i]).total_points >= (#[trigger] entries@[j]).total_points by {
            assert(entries@[i].rank() <= entries@[j].rank());
        }
    }
    let matches = compute_all_league_matches(&endpoints);
    let table = LeagueTable {
        entries,
        code: get_league_id(&endpoints),
        name: get_league_name(&endpoints),
        scoring: get_league_scoring(&endpoints),
        matches,
    };
    Some(table)
}

/// What a cycle of the publication loop has to publish: the table of the
/// snapshot, or nothing where the snapshot could not be read or is too
/// incomplete. With nothing to publish, the table published before stays.
pub fn next_table(snapshot: Option<FplEndpoints>) -> (r: Option<LeagueTable>)
    ensures
        match snapshot {
            Some(endpoints) => match r {
                Some(table) => !too_incomplete(endpoints) && table@ == table_of(endpoints),
                None => too_incomplete(endpoints),
            },
            None => r is None,
        },
{
    match snapshot {
        Some(endpoints) => compute_new_league_table(endpoints),
        None => None,
    }
}

} // verus!
