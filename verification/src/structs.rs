//! The upstream resources as typed values.

pub mod details;
pub mod game;
pub mod live;
pub mod staticinfo;
pub mod teamgw;
pub mod teaminfo;

pub use details::Details;
pub use game::Game;
pub use live::Live;
pub use staticinfo::StaticInfo;
pub use teamgw::TeamGw;
pub use teaminfo::TeamInfo;
