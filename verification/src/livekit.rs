//! LiveKit integration: access-token minting, subscription gating and room
//! parameters.

pub mod token;
pub mod billing;
pub mod room;
