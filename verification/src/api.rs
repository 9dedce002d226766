//! The XRPC endpoints' request parameters and the decisions the handlers
//! make around their storage calls.

pub mod params;
pub mod livekit;
pub mod views;
