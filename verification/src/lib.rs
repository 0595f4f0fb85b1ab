//! A cache in front of the upstream fantasy league resources and the league
//! table that is derived from it.
//!
//! The upstream service offers several resources: the state of the game,
//! the details of a league, the live data of a gameweek, the reference data
//! of the season, and for each team its roster and its summary. The service
//! around this library fetches them cycle after cycle. The library holds
//! what is decided and computed on the way:
//!
//! - [`structs`] are the upstream resources as typed values;
//! - [`storage`] is the snapshot that holds the freshest of each, with the
//!   merge that brings a round of fetches into it, and the league table;
//! - [`fetcher`], [`client`] and [`initializer`] hold the decisions of the
//!   refresh pipeline and of the upstream client;
//! - [`propcomp`] reads the properties of players, teams and the league off
//!   a snapshot, among them the projected points of a player;
//! - [`computer`] derives the league table: the players of each roster, the
//!   substitutions that are certain to come, the points of each team, and
//!   the ranking;
//! - [`ranking`], [`saturate`] and [`text`] are what the others share.

pub mod client;
pub mod computer;
pub mod fetcher;
pub mod initializer;
pub mod propcomp;
pub mod ranking;
pub mod saturate;
pub mod storage;
pub mod structs;
pub mod text;
