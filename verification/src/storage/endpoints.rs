//! The snapshot of the upstream resources and how fresh fetches are merged
//! into it.
use crate::structs::Details;
use crate::structs::Game;
use crate::structs::Live;
use crate::structs::StaticInfo;
use crate::structs::TeamGw;
use crate::structs::TeamInfo;
use std::collections::HashMap;
use vstd::prelude::*;
use vstd::std_specs::iter::IteratorSpec;

verus! {

/// The merged upstream state.
#[derive(Clone, Debug)]
pub struct FplEndpoints {
    pub details: Details,
    pub game: Game,
    pub live: Live,
    pub static_info: StaticInfo,
    /// The roster of each team for the current gameweek, by team id.
    pub teams_gws: HashMap<u32, TeamGw>,
    /// The summary of each team, by team id.
    pub teams_infos: HashMap<u32, TeamInfo>,
}

/// What one round of fetches brought: `None` where a fetch failed or was
/// left out.
#[derive(Clone, Debug)]
pub struct FplEndpointsUpdate {
    pub details: Option<Details>,
    pub game: Option<Game>,
    pub live: Option<Live>,
    pub static_info: Option<StaticInfo>,
    pub teams_gws: HashMap<u32, Option<TeamGw>>,
    pub teams_infos: HashMap<u32, Option<TeamInfo>>,
}

/// A snapshot as a value: the per-team resources as maps.
pub struct Snapshot {
    pub details: Details,
    pub game: Game,
    pub live: Live,
    pub static_info: StaticInfo,
    pub teams_gws: Map<u32, TeamGw>,
    pub teams_infos: Map<u32, TeamInfo>,
}

/// An update as a value.
pub struct SnapshotUpdate {
    pub details: Option<Details>,
    pub game: Option<Game>,
    pub live: Option<Live>,
    pub static_info: Option<StaticInfo>,
    pub teams_gws: Map<u32, Option<TeamGw>>,
    pub teams_infos: Map<u32, Option<TeamInfo>>,
}

impl View for FplEndpoints {
    type V = Snapshot;

    open spec fn view(&self) -> Snapshot {
        Snapshot {
            details: self.details,
            game: self.game,
            live: self.live,
            static_info: self.static_info,
            teams_gws: self.teams_gws@,
            teams_infos: self.teams_infos@,
        }
    }
}

impl View for FplEndpointsUpdate {
    type V = SnapshotUpdate;

    open spec fn view(&self) -> SnapshotUpdate {
        SnapshotUpdate {
            details: self.details,
            game: self.game,
            live: self.live,
            static_info: self.static_info,
            teams_gws: self.teams_gws@,
            teams_infos: self.teams_infos@,
        }
    }
}

/// A resource after a fetch: the fresh value where there is one, else the
/// value held before.
pub open spec fn merge_field<T>(held: T, fresh: Option<T>) -> T {
    match fresh {
        Some(value) => value,
        None => held,
    }
}

/// Whether a round of per-team fetches brought a value for the team.
pub open spec fn brings<T>(fresh: Map<u32, Option<T>>, team: u32) -> bool {
    fresh.contains_key(team) && fresh[team] is Some
}

/// A per-team resource after a round of fetches: each team that the round
/// brought a value for has that value, every other team what it had.
pub open spec fn merge_teams<T>(held: Map<u32, T>, fresh: Map<u32, Option<T>>) -> Map<u32, T> {
    Map::new(
        |team: u32| held.contains_key(team) || brings(fresh, team),
        |team: u32|
            if brings(fresh, team) {
                fresh[team]->0
            } else {
                held[team]
            },
    )
}

/// The snapshot after an update has been merged into it.
pub open spec fn merge(held: Snapshot, update: SnapshotUpdate) -> Snapshot {
    Snapshot {
        details: merge_field(held.details, update.details),
        game: merge_field(held.game, update.game),
        live: merge_field(held.live, update.live),
        static_info: merge_field(held.static_info, update.static_info),
        teams_gws: merge_teams(held.teams_gws, update.teams_gws),
        teams_infos: merge_teams(held.teams_infos, update.teams_infos),
    }
}

/// Whether an update holds none of the four global resources and no value
/// for any team.
pub open spec fn brings_nothing(update: SnapshotUpdate) -> bool {
    &&& update.details is None
    &&& update.game is None
    &&& update.live is None
    &&& update.static_info is None
    &&& forall|team: u32| !brings(update.teams_gws, team)
    &&& forall|team: u32| !brings(update.teams_infos, team)
}

/// Merging an update that brings nothing leaves the snapshot as it was.
pub proof fn lemma_merge_nothing(held: Snapshot, update: SnapshotUpdate)
    requires
        brings_nothing(update),
    ensures
        merge(held, update) == held,
{
    assert(merge_teams(held.teams_gws, update.teams_gws) =~= held.teams_gws);
    assert(merge_teams(held.teams_infos, update.teams_infos) =~= held.teams_infos);
}

/// Merging the same update a second time changes nothing.
pub proof fn lemma_merge_again(held: Snapshot, update: SnapshotUpdate)
    ensures
        merge(merge(held, update), update) == merge(held, update),
{
    let once = merge(held, update);
    assert(merge_teams(once.teams_gws, update.teams_gws) =~= once.teams_gws);
    assert(merge_teams(once.teams_infos, update.teams_infos) =~= once.teams_infos);
}

/// Whatever the snapshot held, after a merge each resource that the update
/// brought has the update's value.
pub proof fn lemma_merge_takes_fresh(held: Snapshot, update: SnapshotUpdate)
    ensures
        update.details matches Some(d) ==> merge(held, update).details == d,
        update.game matches Some(g) ==> merge(held, update).game == g,
        update.live matches Some(l) ==> merge(held, update).live == l,
        update.static_info matches Some(s) ==> merge(held, update).static_info == s,
        forall|team: u32| #[trigger]
            brings(update.teams_gws, team) ==> merge(held, update).teams_gws.contains_key(team)
                && merge(held, update).teams_gws[team] == update.teams_gws[team]->0,
        forall|team: u32| #[trigger]
            brings(update.teams_infos, team) ==> merge(held, update).teams_infos.contains_key(team)
                && merge(held, update).teams_infos[team] == update.teams_infos[team]->0,
{
}

/// After a merge each global resource that the update did not bring is the
/// one that the snapshot held: a failed fetch clears nothing.
pub proof fn lemma_merge_keeps_held(held: Snapshot, update: SnapshotUpdate)
    ensures
        update.details is None ==> merge(held, update).details == held.details,
        update.game is None ==> merge(held, update).game == held.game,
        update.live is None ==> merge(held, update).live == held.live,
        update.static_info is None ==> merge(held, update).static_info == held.static_info,
{
}

/// A merge touches only the teams that the update brings a value for: the
/// roster of any other team is what it was (or as absent as it was),
/// whatever happens to other teams and to the summaries, and likewise the
/// summary.
pub proof fn lemma_merge_isolates_teams(held: Snapshot, update: SnapshotUpdate, team: u32)
    ensures
        !brings(update.teams_gws, team) ==> {
            &&& merge(held, update).teams_gws.contains_key(team) == held.teams_gws.contains_key(
                team,
            )
            &&& held.teams_gws.contains_key(team) ==> merge(held, update).teams_gws[team]
                == held.teams_gws[team]
        },
        !brings(update.teams_infos, team) ==> {
            &&& merge(held, update).teams_infos.contains_key(team)
                == held.teams_infos.contains_key(team)
            &&& held.teams_infos.contains_key(team) ==> merge(held, update).teams_infos[team]
                == held.teams_infos[team]
        },
{
}

/// A merge never drops a team: whoever had a roster or a summary still has
/// one.
pub proof fn lemma_merge_keeps_teams(held: Snapshot, update: SnapshotUpdate)
    ensures
        held.teams_gws.dom().subset_of(merge(held, update).teams_gws.dom()),
        held.teams_infos.dom().subset_of(merge(held, update).teams_infos.dom()),
{
}

/// The keys of a map, each once, in the order the map hands them out.
fn team_ids_of<T>(teams: &HashMap<u32, T>) -> (ids: Vec<u32>)
    ensures
        ids@.to_set() == teams@.dom(),
        ids@.no_duplicates(),
{
    broadcast use vstd::std_specs::hash::group_hash_axioms;

    let mut ids: Vec<u32> = Vec::new();
    for id in it: teams.keys()
        invariant
            ids@ == it.seq().unref().take(it.index()),
    {
        ids.push(*id);
    }
    assert(ids@ =~= vstd::std_specs::hash::spec_keys_iter(teams).remaining().unref());
    ids
}

/// Moves each value that `fresh` brings into `held`.
fn merge_team_map<T>(held: &mut HashMap<u32, T>, fresh: HashMap<u32, Option<T>>)
    ensures
        final(held)@ == merge_teams(old(held)@, fresh@),
{
    broadcast use vstd::std_specs::hash::group_hash_axioms;

    let mut fresh = fresh;
    let ghost brought = fresh@;
    let ids = team_ids_of(&fresh);
    let mut i: usize = 0;
    while i < ids.len()
        invariant
            i <= ids.len(),
            ids@.to_set() == brought.dom(),
            ids@.no_duplicates(),
            forall|j: int|
                i <= j < ids.len() ==> fresh@.contains_key(#[trigger] ids@[j]) && fresh@[ids@[j]]
                    == brought[ids@[j]],
            held@ == merge_teams(old(held)@, brought.restrict(ids@.take(i as int).to_set())),
        decreases ids.len() - i,
    {
        let id = ids[i];
        let ghost head = ids@.take(i as int);
        let ghost head_next = ids@.take(i + 1);
        let ghost seen = head.to_set();
        let ghost seen_next = head_next.to_set();
        proof {
            assert(head_next =~= head.push(id));
            assert forall|k: u32| seen_next.contains(k) <==> seen.insert(id).contains(k) by {
                if head_next.contains(k) {
                    let j = choose|j: int| 0 <= j < head_next.len() && #[trigger] head_next[j] == k;
                    if j < i {
                        assert(head[j] == k);
                    }
                }
                if head.contains(k) {
                    let j = choose|j: int| 0 <= j < head.len() && #[trigger] head[j] == k;
                    assert(head_next[j] == k);
                }
                if k == id {
                    assert(head_next[i as int] == k);
                }
            }
            assert(seen_next =~= seen.insert(id));
            assert(!seen.contains(id)) by {
                if head.contains(id) {
                    let j = choose|j: int| 0 <= j < head.len() && #[trigger] head[j] == id;
                    assert(ids@[j] == ids@[i as int]);
                }
            }
            assert(brought.contains_key(id)) by {
                assert(ids@.to_set().contains(ids@[i as int]));
            }
        }
        let taken = fresh.remove(&id);
        match taken {
            Some(Some(value)) => {
                held.insert(id, value);
            },
            _ => {},
        }
        proof {
            assert forall|j: int| i + 1 <= j < ids.len() implies fresh@.contains_key(
                #[trigger] ids@[j],
            ) && fresh@[ids@[j]] == brought[ids@[j]] by {
                assert(ids@[j] != ids@[i as int]);
            }
            assert(held@ =~= merge_teams(old(held)@, brought.restrict(seen_next)));
        }
        i += 1;
    }
    proof {
        assert(ids@.take(ids.len() as int) =~= ids@);
        assert(brought.restrict(brought.dom()) =~= brought);
    }
}

impl FplEndpointsUpdate {
    /// Whether the update holds all four global resources.
    pub open spec fn is_complete(&self) -> bool {
        &&& self.details is Some
        &&& self.game is Some
        &&& self.live is Some
        &&& self.static_info is Some
    }

    /// Whether the update holds all four global resources, which the
    /// first snapshot needs.
    pub fn holds_all_globals(&self) -> (r: bool)
        ensures
            r == self.is_complete(),
    {
        self.details.is_some() && self.game.is_some() && self.live.is_some()
            && self.static_info.is_some()
    }
}

impl FplEndpoints {
    /// The first snapshot, from an update that holds every global
    /// resource. A team has a roster or a summary in it where the update
    /// brings one.
    pub fn initialize_from_update(update: FplEndpointsUpdate) -> (r: FplEndpoints)
        requires
            update.is_complete(),
        ensures
            r.details == update.details->0,
            r.game == update.game->0,
            r.live == update.live->0,
            r.static_info == update.static_info->0,
            r.teams_gws@ == merge_teams(Map::empty(), update.teams_gws@),
            r.teams_infos@ == merge_teams(Map::empty(), update.teams_infos@),
    {
        let FplEndpointsUpdate { details, game, live, static_info, teams_gws, teams_infos } =
            update;
        let mut new_teams_gws: HashMap<u32, TeamGw> = HashMap::new();
        merge_team_map(&mut new_teams_gws, teams_gws);
        let mut new_teams_infos: HashMap<u32, TeamInfo> = HashMap::new();
        merge_team_map(&mut new_teams_infos, teams_infos);
        FplEndpoints {
            details: details.unwrap(),
            game: game.unwrap(),
            live: live.unwrap(),
            static_info: static_info.unwrap(),
            teams_gws: new_teams_gws,
            teams_infos: new_teams_infos,
        }
    }

    /// Merges a round of fetches into the snapshot: what the round brought
    /// replaces what was held, everything else stays.
    pub fn update(&mut self, other: FplEndpointsUpdate)
        ensures
            final(self)@ == merge(old(self)@, other@),
    {
        let FplEndpointsUpdate { details, game, live, static_info, teams_gws, teams_infos } =
            other;
        if let Some(game) = game {
            self.game = game;
        }
        if let Some(live) = live {
            self.live = live;
        }
        if let Some(details) = details {
            self.details = details;
        }
        if let Some(static_info) = static_info {
            self.static_info = static_info;
        }
        merge_team_map(&mut self.teams_gws, teams_gws);
        merge_team_map(&mut self.teams_infos, teams_infos);
    }
}

} // verus!
