//! DID resolution: capability tiers, the DID document model, the AT Protocol
//! account profile, and the per-method resolvers.

pub mod capability;
pub mod document;
pub mod profile;
pub mod peer;
pub mod key;
pub mod composite;
pub mod common;
pub mod plc;
pub mod web;
