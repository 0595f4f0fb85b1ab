//! What the service is configured with and what it works on.
use crate::structs::Details;
use crate::structs::details::LeagueEntry;
use crate::structs::Game;
use crate::text::same_text;
use vstd::prelude::*;

verus! {

/// Where the configuration is read from when no flag says otherwise.
pub const CONFIG_FILE_DEFAULT_PATH: &'static str = "./Config.toml";

/// The flag that is followed by the path of the configuration file.
pub const CONFIG_FILE_FLAG: &'static str = "-f";

/// How long the refresh pipeline sleeps between two cycles.
pub const FETCH_SLEEP_MS: u64 = 60000;

/// How long the reference data is taken to stay fresh.
pub const STATIC_INFO_FETCH_FREQ_MS: u64 = 1800000;

/// What the refresh pipeline works on.
#[derive(Clone, Debug)]
pub struct AppContext {
    pub league_id: u32,
    /// The teams of the league.
    pub team_ids: Vec<u32>,
    /// The gameweek that was current when it was last known.
    pub gw: u32,
    pub fetch_sleep_ms: u64,
    pub static_info_fetch_freq_ms: u64,
}

/// What the configuration file holds.
#[derive(Clone, Debug)]
pub struct AppConfig {
    pub league_id: u32,
    pub local_fetch: Option<bool>,
    pub local_url: Option<String>,
}

impl AppConfig {
    /// Whether the recorded resources are to be used in place of the live
    /// ones: only where the configuration says so.
    pub fn uses_local_backend(&self) -> (r: bool)
        ensures
            r == (self.local_fetch == Some(true)),
    {
        match self.local_fetch {
            Some(true) => true,
            Some(false) | None => false,
        }
    }
}

/// What the command line says of the configuration file.
pub enum ConfigFlag {
    /// No flag: the default path holds.
    Absent,
    /// The flag and the path that follows it.
    Path(String),
    /// The flag with nothing after it.
    MissingPath,
}

/// Where the first `-f` stands among the arguments from `from` on.
pub open spec fn flag_position(args: Seq<String>, from: int) -> Option<int>
    decreases args.len() - from,
{
    if from < 0 || from >= args.len() {
        None
    } else if args[from]@ == CONFIG_FILE_FLAG@ {
        Some(from)
    } else {
        flag_position(args, from + 1)
    }
}

/// Reads the arguments for the path of the configuration file: the first
/// `-f` decides, and what follows it is the path.
pub fn read_config_file_flag(args: &Vec<String>) -> (r: ConfigFlag)
    ensures
        match flag_position(args@, 0) {
            None => r is Absent,
            Some(at) => if at + 1 < args@.len() {
                r == ConfigFlag::Path(args@[at + 1])
            } else {
                r is MissingPath
            },
        },
{
    let mut k: usize = 0;
    while k < args.len()
        invariant
            k <= args@.len(),
            flag_position(args@, 0) == flag_position(args@, k as int),
        decreases args@.len() - k,
    {
        if same_text(args[k].as_str(), CONFIG_FILE_FLAG) {
            if k + 1 < args.len() {
                return ConfigFlag::Path(args[k + 1].clone());
            } else {
                return ConfigFlag::MissingPath;
            }
        }
        k += 1;
    }
    ConfigFlag::Absent
}

/// The team ids of the league entries, in their order.
pub open spec fn team_ids_of(entries: Seq<LeagueEntry>) -> Seq<u32> {
    Seq::new(entries.len(), |k: int| entries[k].entry_id)
}

/// The context for a league, from the state of the game and the details
/// of the league. There is none before the first gameweek, when no
/// gameweek is current.
pub fn build_app_context(league_id: u32, game: &Game, details: &Details) -> (r: Option<AppContext>)
    ensures
        match r {
            Some(context) => {
                &&& game.current_event == Some(context.gw)
                &&& context.league_id == league_id
                &&& context.team_ids@ == team_ids_of(details.league_entries@)
                &&& context.fetch_sleep_ms == FETCH_SLEEP_MS
                &&& context.static_info_fetch_freq_ms == STATIC_INFO_FETCH_FREQ_MS
            },
            None => game.current_event is None,
        },
{
    let gw = match game.current_event {
        Some(gw) => gw,
        None => {
            return None;
        },
    };
    let mut team_ids: Vec<u32> = Vec::new();
    let mut k: usize = 0;
    while k < details.league_entries.len()
        invariant
            k <= details.league_entries@.len(),
            team_ids@ == team_ids_of(details.league_entries@).take(k as int),
        decreases details.league_entries@.len() - k,
    {
        team_ids.push(details.league_entries[k].entry_id);
        assert(team_ids@ =~= team_ids_of(details.league_entries@).take(k + 1));
        k += 1;
    }
    assert(team_ids_of(details.league_entries@).take(k as int) =~= team_ids_of(
        details.league_entries@,
    ));
    Some(
        AppContext {
            league_id,
            team_ids,
            gw,
            fetch_sleep_ms: FETCH_SLEEP_MS,
            static_info_fetch_freq_ms: STATIC_INFO_FETCH_FREQ_MS,
        },
    )
}

} // verus!
