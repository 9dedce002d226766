//! Lexicon records, views and outputs with plain fields: the Know-Me agent,
//! live and video records, Bluesky actor, post, feed, list and notification
//! views, feed gates, and moderation reports.

pub mod knowme;
pub mod bsky;
pub mod moderation;
