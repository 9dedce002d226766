//! Well-known scope constants.

use vstd::prelude::*;

verus! {

/// The base AT Protocol access scope — grants full XRPC access.
pub const ATPROTO: &'static str = "atproto";

/// Legacy transition scope for Bluesky-specific endpoints.
pub const TRANSITION_GENERIC: &'static str = "transition:generic";

/// Legacy transition scope for Bluesky chat endpoints.
pub const TRANSITION_CHAT_BSKY: &'static str = "transition:chat.bsky";

} // verus!
