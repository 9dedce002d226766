//! The LiveKit token endpoint's decisions.

use vstd::prelude::*;
use crate::appview::error::{display_of, AppViewError};
use crate::livekit::billing::GateResult;
use crate::livekit::token::{
    mint_fields_refused, mint_refusal_message, signed_jwt, MintedToken, ParticipantGrants,
    TokenMinter, MAX_TTL_SECONDS,
};
use crate::text::to_string;

verus! {

broadcast use vstd::string::group_string_axioms;

/// A token request.
#[derive(Debug)]
pub struct TokenMintRequest {
    pub room_name: String,
    pub identity: Option<String>,
    pub can_publish: Option<bool>,
    pub can_subscribe: Option<bool>,
    pub can_publish_data: Option<bool>,
    pub ttl_seconds: Option<u64>,
}

/// A minted token.
#[derive(Debug)]
pub struct TokenMintResponse {
    pub token: String,
    pub server_url: String,
    pub room_name: String,
    pub identity: String,
    pub expires_at: i64,
}

/// An error body.
#[derive(Debug)]
pub struct ErrorResponse {
    pub error: String,
    pub message: String,
}

/// `o`, or `d` when absent.
pub open spec fn bool_or(o: Option<bool>, d: bool) -> bool {
    match o {
        Some(b) => b,
        None => d,
    }
}

/// The lifetime a request asks for: one hour by default.
pub open spec fn requested_ttl(req: TokenMintRequest) -> u64 {
    match req.ttl_seconds {
        Some(t) => t,
        None => 3600,
    }
}

/// The identity a request mints for: its own, or the viewer's DID.
pub open spec fn requested_identity(req: TokenMintRequest, viewer_did: Seq<char>) -> Seq<char> {
    match req.identity {
        Some(i) => i@,
        None => viewer_did,
    }
}

/// What a request states is what it gets: a requested lifetime, identity
/// or right is taken as given, and only what it leaves out is defaulted (an
/// hour, the viewer's DID, every right).
pub proof fn law_request_is_honoured(req: TokenMintRequest, viewer_did: Seq<char>, o: Option<bool>, d: bool)
    ensures
        req.ttl_seconds matches Some(t) ==> requested_ttl(req) == t,
        req.ttl_seconds is None ==> requested_ttl(req) == 3600,
        req.identity matches Some(i) ==> requested_identity(req, viewer_did) == i@,
        req.identity is None ==> requested_identity(req, viewer_did) == viewer_did,
        o matches Some(b) ==> bool_or(o, d) == b,
        o is None ==> bool_or(o, d) == d,
{
}

/// The grants a request asks for: the viewer's DID unless an identity is
/// given, every right unless refused, one hour unless said otherwise.
pub fn grants_for(req: &TokenMintRequest, viewer_did: &str) -> (r: ParticipantGrants)
    ensures
        r.room_name@ == req.room_name@,
        r.identity@ == requested_identity(*req, viewer_did@),
        r.name is None,
        r.can_publish == bool_or(req.can_publish, true),
        r.can_subscribe == bool_or(req.can_subscribe, true),
        r.can_publish_data == bool_or(req.can_publish_data, true),
        r.ttl_seconds == requested_ttl(*req),
{
    ParticipantGrants {
        room_name: req.room_name.clone(),
        identity: match &req.identity {
            Some(i) => i.clone(),
            None => to_string(viewer_did),
        },
        name: None,
        can_publish: match req.can_publish {
            Some(b) => b,
            None => true,
        },
        can_subscribe: match req.can_subscribe {
            Some(b) => b,
            None => true,
        },
        can_publish_data: match req.can_publish_data {
            Some(b) => b,
            None => true,
        },
        ttl_seconds: match req.ttl_seconds {
            Some(t) => t,
            None => 3600,
        },
    }
}

/// The answer when LiveKit is not configured: 503.
pub fn not_configured() -> (r: (u16, ErrorResponse))
    ensures
        r.0 == 503,
        r.1.error@ == "LivekitNotConfigured"@,
        r.1.message@ == "LiveKit is not configured on this server"@,
{
    (
        503,
        ErrorResponse {
            error: to_string("LivekitNotConfigured"),
            message: to_string("LiveKit is not configured on this server"),
        },
    )
}

/// The answer to a request for a token lifetime past what the clock can
/// carry: 400 `InvalidRequest`.
pub fn ttl_out_of_range() -> (r: (u16, ErrorResponse))
    ensures
        r.0 == 400,
        r.1.error@ == "InvalidRequest"@,
        r.1.message@ == "ttl_seconds out of range"@,
{
    (400, ErrorResponse { error: to_string("InvalidRequest"), message: to_string("ttl_seconds out of range") })
}

/// The answer when the subscription check itself failed: 500.
pub fn billing_check_failed(e: &AppViewError) -> (r: (u16, ErrorResponse))
    ensures
        r.0 == 500,
        r.1.error@ == "BillingCheckFailed"@,
        r.1.message@ == display_of(*e),
{
    (500, ErrorResponse { error: to_string("BillingCheckFailed"), message: e.message() })
}

/// A gate result that does not allow hosting is answered 403 with the
/// gate's reason; one that allows it is not refused.
pub fn gate_refusal(result: &GateResult) -> (r: Option<(u16, ErrorResponse)>)
    ensures
        result.allowed <==> r is None,
        r matches Some(e) ==> e.0 == 403 && e.1.error@ == "InsufficientTier"@ && e.1.message@
            == match result.reason {
            Some(m) => m@,
            None => "hosting not allowed for your tier"@,
        },
{
    if result.allowed {
        return None;
    }
    let message = match &result.reason {
        Some(m) => m.clone(),
        None => to_string("hosting not allowed for your tier"),
    };
    Some((403, ErrorResponse { error: to_string("InsufficientTier"), message }))
}

impl TokenMintResponse {
    /// The response for a minted token.
    pub fn from_minted(t: MintedToken) -> (r: TokenMintResponse)
        ensures
            r.token@ == t.token@,
            r.server_url@ == t.server_url@,
            r.room_name@ == t.room_name@,
            r.identity@ == t.identity@,
            r.expires_at == t.expires_at,
    {
        TokenMintResponse {
            token: t.token,
            server_url: t.server_url,
            room_name: t.room_name,
            identity: t.identity,
            expires_at: t.expires_at,
        }
    }
}

/// The answer for what minting gave: the minted token, or a refusal to
/// sign answered 500 `TokenMintFailed` with the error's text.
pub fn mint_outcome(minted: Result<MintedToken, AppViewError>) -> (r: Result<
    TokenMintResponse,
    (u16, ErrorResponse),
>)
    ensures
        minted matches Ok(t) ==> (r matches Ok(resp) && resp.token@ == t.token@
            && resp.server_url@ == t.server_url@ && resp.room_name@ == t.room_name@
            && resp.identity@ == t.identity@ && resp.expires_at == t.expires_at),
        minted matches Err(e) ==> (r matches Err(x) && x.0 == 500 && x.1.error@
            == "TokenMintFailed"@ && x.1.message@ == display_of(e)),
{
    match minted {
        Ok(t) => Ok(TokenMintResponse::from_minted(t)),
        Err(e) => Err((500, ErrorResponse { error: to_string("TokenMintFailed"), message: e.message() })),
    }
}

/// Mints the token a request asks for (once the caller may host): the
/// request's room and identity (the viewer's DID by default), with the
/// requested rights (all by default) and lifetime (an hour by default). A
/// refusal to sign is answered 500 `TokenMintFailed` with the error's text;
/// with a key, a secret, a room and an identity the token is minted.
pub fn mint_for(minter: &TokenMinter, req: &TokenMintRequest, viewer_did: &str) -> (r: Result<
    TokenMintResponse,
    (u16, ErrorResponse),
>)
    requires
        requested_ttl(*req) < MAX_TTL_SECONDS,
    ensures
        mint_fields_refused(minter.config(), req.room_name@, requested_identity(*req, viewer_did@))
            ==> (r matches Err(e) && e.0 == 500 && e.1.error@ == "TokenMintFailed"@ && e.1.message@
            == "Internal error: "@ + mint_refusal_message(minter.config())),
        r matches Ok(t) ==> t.room_name@ == req.room_name@ && t.identity@ == requested_identity(
            *req,
            viewer_did@,
        ) && t.server_url@ == minter.config().server_url@ && signed_jwt(
            t.token@,
            minter.config().api_key@,
            minter.config().api_secret@,
            requested_identity(*req, viewer_did@),
            requested_identity(*req, viewer_did@),
            requested_ttl(*req),
            req.room_name@,
            true,
            false,
            bool_or(req.can_publish, true),
            bool_or(req.can_subscribe, true),
            bool_or(req.can_publish_data, true),
        ),
        r matches Err(e) ==> e.0 == 500 && e.1.error@ == "TokenMintFailed"@,
        !mint_fields_refused(minter.config(), req.room_name@, requested_identity(*req, viewer_did@))
            ==> r is Ok,
{
    let grants = grants_for(req, viewer_did);
    mint_outcome(minter.mint(grants))
}

} // verus!
