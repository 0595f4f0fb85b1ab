//! From a snapshot to the league table.

pub mod entries;
pub mod formation_laws;
pub mod head_to_head;
pub mod league_table;
pub mod lineup;
pub mod lineup_laws;
pub mod matches;
pub mod play_status;
pub mod projection;
pub mod roster;

pub use entries::compute_league_entries;
pub use entries::compute_league_entry;
pub use entries::get_total_points_before_gw;
pub use head_to_head::compute_h2h_info;
pub use league_table::compute_new_league_table;
pub use league_table::next_table;
pub use matches::compute_all_league_matches;
pub use matches::compute_gw_league_matches;
pub use matches::compute_table_league_match;
pub use play_status::calculate_play_status;
pub use projection::calculate_projected_point_explanation;
pub use projection::calculate_projected_points;
pub use roster::extract_players;
