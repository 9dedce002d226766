//! WHIP/WHEP signalling: offer validation, proxy answers and the session table.

pub mod signal;
pub mod session;
