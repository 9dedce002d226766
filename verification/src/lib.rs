//! The logic of an AT Protocol AppView: OAuth scope sets; AT URIs and
//! identifiers; DID resolution decisions and identity-profile checks;
//! bearer-token payloads; what each repository record indexes to; the relay
//! consumer's reconnect and cursor decisions; the durable job queues and
//! stream cursors; WebRTC signalling sessions; LiveKit grants and billing
//! tiers; label filtering; and the views the read endpoints answer with.

pub mod text;
pub mod clock;
pub mod scopes;
pub mod appview;
pub mod identity;
pub mod livekit;
pub mod webrtc;
pub mod labels;
pub mod label_cache;
pub mod auth;
pub mod json;
pub mod indexer;
pub mod queue;
pub mod firehose;
pub mod api;
pub mod lexicon;
pub mod db;
