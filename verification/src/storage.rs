//! What the service keeps in memory: the snapshot of the upstream
//! resources and the table derived from it.

pub mod endpoints;
pub mod table;

pub use endpoints::FplEndpoints;
pub use endpoints::FplEndpointsUpdate;
pub use table::LeagueTable;
