//! Subscription tiers and the billing gate's decisions.

use vstd::prelude::*;
use crate::text::{str_eq, to_string};

verus! {

broadcast use vstd::string::group_string_axioms;

/// Subscription tier for a DID.
#[derive(Clone, Copy, Debug, PartialEq, Eq, Structural)]
pub enum SubscriptionTier {
    /// Free tier: viewer only, no hosting.
    Free,
    /// Creator tier: can host sessions up to N concurrent viewers.
    Creator,
    /// Pro tier: unlimited viewers, AI agents, gated content.
    Pro,
}

/// Creator and Pro may host.
pub open spec fn tier_can_host(t: SubscriptionTier) -> bool {
    t == SubscriptionTier::Creator || t == SubscriptionTier::Pro
}

/// Only Pro may use agents or gate content.
pub open spec fn tier_is_pro(t: SubscriptionTier) -> bool {
    t == SubscriptionTier::Pro
}

impl SubscriptionTier {
    pub fn can_host(&self) -> (r: bool)
        ensures
            r == tier_can_host(*self),
    {
        match self {
            SubscriptionTier::Creator | SubscriptionTier::Pro => true,
            SubscriptionTier::Free => false,
        }
    }

    pub fn can_use_agents(&self) -> (r: bool)
        ensures
            r == tier_is_pro(*self),
    {
        match self {
            SubscriptionTier::Pro => true,
            _ => false,
        }
    }

    pub fn can_gate_content(&self) -> (r: bool)
        ensures
            r == tier_is_pro(*self),
    {
        match self {
            SubscriptionTier::Pro => true,
            _ => false,
        }
    }

    /// The viewer cap: 100 for Creator; 0 for Free (no hosting) and for Pro
    /// (unlimited).
    pub fn max_viewers(&self) -> (r: u32)
        ensures
            r == (if *self == SubscriptionTier::Creator { 100u32 } else { 0u32 }),
    {
        match self {
            SubscriptionTier::Free => 0,
            SubscriptionTier::Creator => 100,
            SubscriptionTier::Pro => 0,
        }
    }

    /// The tier a stored tier name stands for: `pro`, `creator`, anything
    /// else (or no current subscription) is Free.
    pub fn from_stored(name: Option<&str>) -> (r: SubscriptionTier)
        ensures
            r == (match name {
                Some(n) => if n@ == "pro"@ {
                    SubscriptionTier::Pro
                } else if n@ == "creator"@ {
                    SubscriptionTier::Creator
                } else {
                    SubscriptionTier::Free
                },
                None => SubscriptionTier::Free,
            }),
    {
        match name {
            Some(n) => {
                if str_eq(n, "pro") {
                    SubscriptionTier::Pro
                } else if str_eq(n, "creator") {
                    SubscriptionTier::Creator
                } else {
                    SubscriptionTier::Free
                }
            },
            None => SubscriptionTier::Free,
        }
    }
}

/// Result of a billing gate check.
#[derive(Debug)]
pub struct GateResult {
    pub allowed: bool,
    pub tier: SubscriptionTier,
    pub reason: Option<String>,
}

impl GateResult {
    pub fn allow(tier: SubscriptionTier) -> (r: GateResult)
        ensures
            r.allowed,
            r.tier == tier,
            r.reason is None,
    {
        GateResult { allowed: true, tier, reason: None }
    }

    pub fn deny(tier: SubscriptionTier, reason: &str) -> (r: GateResult)
        ensures
            !r.allowed,
            r.tier == tier,
            r.reason matches Some(m) && m@ == reason@,
    {
        GateResult { allowed: false, tier, reason: Some(to_string(reason)) }
    }

    /// Whether a DID of `tier` may host a live session.
    pub fn for_hosting(tier: SubscriptionTier) -> (r: GateResult)
        ensures
            r.allowed == tier_can_host(tier),
            r.tier == tier,
            r.allowed ==> r.reason is None,
            !r.allowed ==> (r.reason matches Some(m) && m@
                == "hosting requires Creator or Pro subscription"@),
    {
        if tier.can_host() {
            GateResult::allow(tier)
        } else {
            GateResult::deny(tier, "hosting requires Creator or Pro subscription")
        }
    }

    /// Whether a viewer may join: a session that is not gated is open to
    /// everyone; a gated one needs a purchase.
    pub fn for_joining(gated: bool, has_access: bool) -> (r: GateResult)
        ensures
            r.allowed == (!gated || has_access),
            r.tier == SubscriptionTier::Free,
            r.allowed ==> r.reason is None,
            !r.allowed ==> (r.reason matches Some(m) && m@
                == "purchase required to join this session"@),
    {
        if !gated || has_access {
            GateResult::allow(SubscriptionTier::Free)
        } else {
            GateResult::deny(SubscriptionTier::Free, "purchase required to join this session")
        }
    }

    /// Whether a DID of `tier` may use AI agents.
    pub fn for_agents(tier: SubscriptionTier) -> (r: GateResult)
        ensures
            r.allowed == tier_is_pro(tier),
            r.tier == tier,
            r.allowed ==> r.reason is None,
            !r.allowed ==> (r.reason matches Some(m) && m@ == "AI agents require Pro subscription"@),
    {
        if tier.can_use_agents() {
            GateResult::allow(tier)
        } else {
            GateResult::deny(tier, "AI agents require Pro subscription")
        }
    }
}

/// Each tier's rights include those of the tiers below it: whatever may use
/// agents or gate content may also host, and Free may do none of these.
pub proof fn law_tier_rights_nested(t: SubscriptionTier)
    ensures
        tier_is_pro(t) ==> tier_can_host(t),
        t == SubscriptionTier::Free ==> !tier_can_host(t) && !tier_is_pro(t),
{
}


} // verus!
