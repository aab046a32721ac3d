//! Core logic of a media-player bridge: player resolution, snapshot
//! publication, control-command planning, and an artwork gateway with
//! content sniffing.

pub mod art;
pub mod control;
pub mod model;
pub mod resolve;
pub mod snapshot;
pub mod state;
pub mod text;
