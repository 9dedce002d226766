//! `tools.know-me.*` records.

use vstd::prelude::*;
use crate::lexicon::bsky::ProfileViewBasic;

verus! {

/// Pricing model for an agent service.
#[derive(Debug)]
pub struct AgentPricing {
    pub per_minute_usd_cents: Option<i64>,
    pub per_session_usd_cents: Option<i64>,
    pub subscription_monthly_usd_cents: Option<i64>,
}

/// `tools.know-me.agent.profile`: an agent's capability descriptor.
#[derive(Debug)]
pub struct AgentProfile {
    /// The record's `$type`.
    pub type_: Option<String>,
    pub display_name: String,
    pub description: Option<String>,
    /// E.g. `["text", "voice", "video", "image"]`.
    pub modalities: Vec<String>,
    pub model_family: Option<String>,
    pub pricing: Option<AgentPricing>,
    /// DID of the human or entity responsible for billing.
    pub contact_did: Option<String>,
    /// E.g. `["livekit-voice", "livekit-video", "content-gen"]`.
    pub capabilities: Vec<String>,
    pub created_at: String,
}

/// `tools.know-me.agent.output`: a record produced by an agent run.
#[derive(Debug)]
pub struct AgentOutput {
    pub type_: Option<String>,
    /// DID of the agent that produced this output.
    pub generated_by_did: String,
    pub model: String,
    /// SHA-256 of the prompt, for auditability.
    pub prompt_hash: Option<String>,
    /// AT URI of the output record.
    pub content_uri: Option<String>,
    /// `text`, `image`, `video` or `audio`.
    pub output_type: String,
    pub created_at: String,
}

/// A service offered by an agent DID.
#[derive(Debug)]
pub struct AgentService {
    pub name: String,
    pub description: String,
    /// `voice-call`, `content-gen` or `live-agent`.
    pub service_type: String,
    pub pricing: AgentPricing,
    pub livekit_agent_name: Option<String>,
    pub created_at: String,
}

/// An agent with its handle, profile and services.
#[derive(Debug)]
pub struct AgentView {
    pub did: String,
    pub handle: String,
    pub profile: AgentProfile,
    pub services: Vec<AgentService>,
}

/// `tools.know-me.agent.getAgents` output.
#[derive(Debug)]
pub struct GetAgentsOutput {
    pub agents: Vec<AgentView>,
    pub cursor: Option<String>,
}

/// `tools.know-me.agent.requestSession` input.
#[derive(Debug)]
pub struct RequestSessionInput {
    pub agent_did: String,
    pub instructions: Option<String>,
    pub room_name: Option<String>,
}

/// `tools.know-me.agent.requestSession` output.
#[derive(Debug)]
pub struct RequestSessionOutput {
    pub session_uri: String,
    pub room_url: String,
    pub participant_token: String,
}

/// Gate specification used when creating a live session.
#[derive(Debug)]
pub struct GateSpec {
    pub gate_type: String,
    pub price_usd_cents: Option<i64>,
}

/// `tools.know-me.live.session`: a live streaming session record.
#[derive(Debug)]
pub struct LiveSession {
    pub type_: Option<String>,
    pub title: String,
    pub description: Option<String>,
    /// Filled by the AppView once the session is created.
    pub whip_endpoint: Option<String>,
    pub started_at: Option<String>,
    pub ended_at: Option<String>,
    pub gate_uri: Option<String>,
    pub created_at: String,
}

/// `tools.know-me.live.createSession` input.
#[derive(Debug)]
pub struct CreateSessionInput {
    pub title: String,
    pub description: Option<String>,
    pub gate: Option<GateSpec>,
}

/// `tools.know-me.live.createSession` output.
#[derive(Debug)]
pub struct CreateSessionOutput {
    pub session_uri: String,
    pub whip_endpoint: String,
    pub stream_key: String,
}

/// How a viewer joins a stream.
#[derive(Debug)]
pub enum ViewerToken {
    Whep { endpoint: String },
    LiveKit { server_url: String, token: String },
}

/// `tools.know-me.live.getTokenLiveKit` input.
#[derive(Debug)]
pub struct GetTokenLiveKitInput {
    pub session_uri: String,
}

/// `tools.know-me.live.getTokenLiveKit` output.
#[derive(Debug)]
pub struct GetTokenLiveKitOutput {
    pub server_url: String,
    pub token: String,
}

/// Aspect ratio of a video.
#[derive(Debug)]
pub struct AspectRatio {
    pub width: u32,
    pub height: u32,
}

/// The kind of access gate on content.
#[derive(Clone, Copy, Debug, PartialEq, Eq, Structural)]
pub enum GateType {
    Free,
    Paid,
    Subscription,
}

/// `tools.know-me.video.gate`: an access gate for a content record.
#[derive(Debug)]
pub struct VideoGate {
    pub type_: Option<String>,
    /// AT URI of the gated content.
    pub content_uri: String,
    pub gate_type: GateType,
    pub price_usd_cents: Option<i64>,
    pub subscription_plan: Option<String>,
    pub created_at: String,
}


/// A live session with its author and audience.
#[derive(Debug)]
pub struct LiveSessionView {
    pub uri: String,
    pub cid: String,
    pub author: ProfileViewBasic,
    pub record: LiveSession,
    pub viewer_count: Option<i64>,
    pub is_live: bool,
}

/// `tools.know-me.live.getSession` output: the session, and how to watch it.
#[derive(Debug)]
pub struct GetSessionOutput {
    pub session: LiveSessionView,
    pub viewer_token: Option<ViewerToken>,
}

} // verus!
