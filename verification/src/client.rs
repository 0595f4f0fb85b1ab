//! What the upstream client needs decided: where each resource is found,
//! and what counts as a failure.
use crate::text::decimal;
use crate::text::decimal_text;
use crate::text::join;
use vstd::prelude::*;

verus! {

/// Where the live upstream resources are served.
pub const FPL_API_BASE: &'static str = "https://draft.premierleague.com/api/";

/// Where the recorded upstream resources are kept.
pub const LOCAL_API_BASE: &'static str = "/home/fl/db2/api";

/// Why a fetch failed.
#[derive(Debug, Clone)]
pub enum ClientError {
    ReqwestError(String),
    InternalError(String),
    HttpError(String),
    LocalError(String),
    JsonError(String),
}

/// What an error reads as.
pub open spec fn error_text(error: ClientError) -> Seq<char> {
    match error {
        ClientError::InternalError(msg) => "Internal client error: "@ + msg@,
        ClientError::ReqwestError(msg) => "Reqwest lib error: "@ + msg@,
        ClientError::HttpError(msg) => "HTTP error: "@ + msg@,
        ClientError::LocalError(msg) => "Local error: "@ + msg@,
        ClientError::JsonError(msg) => "Json error: "@ + msg@,
    }
}

impl ClientError {
    /// The error as text for a log.
    pub fn describe(&self) -> (r: String)
        ensures
            r@ == error_text(*self),
    {
        match self {
            ClientError::InternalError(msg) => join("Internal client error: ", msg.as_str()),
            ClientError::ReqwestError(msg) => join("Reqwest lib error: ", msg.as_str()),
            ClientError::HttpError(msg) => join("HTTP error: ", msg.as_str()),
            ClientError::LocalError(msg) => join("Local error: ", msg.as_str()),
            ClientError::JsonError(msg) => join("Json error: ", msg.as_str()),
        }
    }
}

/// Whether an HTTP status code reports success: the codes from 200 to 299
/// do.
pub open spec fn is_success(code: u16) -> bool {
    200 <= code < 300
}

/// Accepts a status code that reports success and turns any other into an
/// error that names the code.
pub fn verify_error_code(code: u16) -> (r: Result<(), ClientError>)
    ensures
        match r {
            Ok(_) => is_success(code),
            Err(ClientError::HttpError(msg)) => !is_success(code) && msg@
                == "Received error code: "@ + decimal(code as nat),
            Err(_) => false,
        },
{
    if 200 <= code && code < 300 {
        Ok(())
    } else {
        let digits = decimal_text(code as u64);
        Err(ClientError::HttpError(join("Received error code: ", digits.as_str())))
    }
}

/// Where the resources are found: the recorded ones for the local backend,
/// the live ones otherwise.
pub fn base_url(local: bool) -> (r: &'static str)
    ensures
        r@ == if local {
            LOCAL_API_BASE@
        } else {
            FPL_API_BASE@
        },
{
    if local {
        LOCAL_API_BASE
    } else {
        FPL_API_BASE
    }
}

/// Where the resources of a client are found: under the place that the
/// configuration names for the recorded resources, where the client is
/// local and the configuration names one; else under the usual base.
pub open spec fn base_of(local: bool, local_url: Option<String>) -> Seq<char> {
    match local_url {
        Some(url) if local => url@,
        _ => if local {
            LOCAL_API_BASE@
        } else {
            FPL_API_BASE@
        },
    }
}

/// Where the resources of a client are found.
pub fn client_base_url<'a>(local: bool, local_url: &'a Option<String>) -> (r: &'a str)
    ensures
        r@ == base_of(local, *local_url),
{
    match local_url {
        Some(url) => {
            if local {
                url.as_str()
            } else {
                base_url(local)
            }
        },
        None => base_url(local),
    }
}

/// Where the details of a league are found.
pub open spec fn league_details_path(base: Seq<char>, league: u32) -> Seq<char> {
    base + "/league/"@ + decimal(league as nat) + "/details"@
}

/// Where the state of the game is found.
pub open spec fn game_path(base: Seq<char>) -> Seq<char> {
    base + "/game"@
}

/// Where the roster of a team for a gameweek is found.
pub open spec fn team_gw_path(base: Seq<char>, team: u32, gw: u32) -> Seq<char> {
    base + "/entry/"@ + decimal(team as nat) + "/event/"@ + decimal(gw as nat)
}

/// Where the summary of a team is found.
pub open spec fn team_info_path(base: Seq<char>, team: u32) -> Seq<char> {
    base + "/entry/"@ + decimal(team as nat) + "/public"@
}

/// Where the live data of a gameweek is found.
pub open spec fn live_path(base: Seq<char>, gw: u32) -> Seq<char> {
    base + "/event/"@ + decimal(gw as nat) + "/live"@
}

/// Where the reference data is found.
pub open spec fn static_path(base: Seq<char>) -> Seq<char> {
    base + "/bootstrap-static"@
}

/// Where the details of a league are found.
pub fn league_details_url(base: &str, league_code: u32) -> (r: String)
    ensures
        r@ == league_details_path(base@, league_code),
{
    let mut url = join(base, "/league/");
    url.append(decimal_text(league_code as u64).as_str());
    url.append("/details");
    url
}

/// Where the state of the game is found.
pub fn game_url(base: &str) -> (r: String)
    ensures
        r@ == game_path(base@),
{
    join(base, "/game")
}

/// Where the roster of a team for a gameweek is found.
pub fn team_gw_url(base: &str, team: u32, gw: u32) -> (r: String)
    ensures
        r@ == team_gw_path(base@, team, gw),
{
    let mut url = join(base, "/entry/");
    url.append(decimal_text(team as u64).as_str());
    url.append("/event/");
    url.append(decimal_text(gw as u64).as_str());
    url
}

/// Where the summary of a team is found.
pub fn team_info_url(base: &str, team: u32) -> (r: String)
    ensures
        r@ == team_info_path(base@, team),
{
    let mut url = join(base, "/entry/");
    url.append(decimal_text(team as u64).as_str());
    url.append("/public");
    url
}

/// Where the live data of a gameweek is found.
pub fn live_url(base: &str, gw: u32) -> (r: String)
    ensures
        r@ == live_path(base@, gw),
{
    let mut url = join(base, "/event/");
    url.append(decimal_text(gw as u64).as_str());
    url.append("/live");
    url
}

/// Where the reference data is found.
pub fn static_url(base: &str) -> (r: String)
    ensures
        r@ == static_path(base@),
{
    join(base, "/bootstrap-static")
}

} // verus!
