//! Minting LiveKit access tokens.

use vstd::prelude::*;
use vstd::string::StringSliceAdditionalSpecFns;
use vstd::utf8::{decode_utf8, encode_utf8, is_char_boundary};
use crate::appview::error::AppViewError;
use crate::text::to_string;

verus! {

broadcast use vstd::string::group_string_axioms;

/// The longest token lifetime accepted, in seconds (about 146 billion
/// years); it keeps the expiry clear of clock overflow.
pub const MAX_TTL_SECONDS: u64 = 0x1000_0000_0000_0000;

/// LiveKit server configuration.
#[derive(Debug)]
pub struct LiveKitConfig {
    pub api_key: String,
    pub api_secret: String,
    pub server_url: String,
}

impl LiveKitConfig {
    pub fn new(api_key: &str, api_secret: &str, server_url: &str) -> (r: LiveKitConfig)
        ensures
            r.api_key@ == api_key@,
            r.api_secret@ == api_secret@,
            r.server_url@ == server_url@,
    {
        LiveKitConfig {
            api_key: to_string(api_key),
            api_secret: to_string(api_secret),
            server_url: to_string(server_url),
        }
    }

    /// The configuration from the three variables the environment may hold:
    /// `LIVEKIT_API_KEY`, `LIVEKIT_API_SECRET`, `LIVEKIT_URL`, in that order;
    /// the first one missing is reported.
    pub fn from_vars(
        api_key: Option<String>,
        api_secret: Option<String>,
        server_url: Option<String>,
    ) -> (r: Result<LiveKitConfig, AppViewError>)
        ensures
            r is Ok <==> api_key is Some && api_secret is Some && server_url is Some,
            r matches Ok(c) ==> c.api_key@ == api_key->Some_0@ && c.api_secret@
                == api_secret->Some_0@ && c.server_url@ == server_url->Some_0@,
            r matches Err(e) ==> e matches AppViewError::Internal(m) && m@ == (if api_key is None {
                "LIVEKIT_API_KEY not set"@
            } else if api_secret is None {
                "LIVEKIT_API_SECRET not set"@
            } else {
                "LIVEKIT_URL not set"@
            }),
    {
        let api_key = match api_key {
            Some(k) => k,
            None => return Err(AppViewError::Internal(to_string("LIVEKIT_API_KEY not set"))),
        };
        let api_secret = match api_secret {
            Some(s) => s,
            None => return Err(AppViewError::Internal(to_string("LIVEKIT_API_SECRET not set"))),
        };
        let server_url = match server_url {
            Some(u) => u,
            None => return Err(AppViewError::Internal(to_string("LIVEKIT_URL not set"))),
        };
        Ok(LiveKitConfig { api_key, api_secret, server_url })
    }
}

/// Token grants for a participant joining a room.
#[derive(Debug)]
pub struct ParticipantGrants {
    /// Room the token grants access to.
    pub room_name: String,
    /// Participant identity (DID).
    pub identity: String,
    /// Friendly display name.
    pub name: Option<String>,
    /// Whether the participant can publish audio/video.
    pub can_publish: bool,
    /// Whether the participant can subscribe to others.
    pub can_subscribe: bool,
    /// Whether the participant can publish data channel messages.
    pub can_publish_data: bool,
    /// Token TTL in seconds (default 3600).
    pub ttl_seconds: u64,
}

impl Default for ParticipantGrants {
    fn default() -> (r: ParticipantGrants)
        ensures
            r.room_name@ == Seq::<char>::empty(),
            r.identity@ == Seq::<char>::empty(),
            r.name is None,
            r.can_publish && r.can_subscribe && r.can_publish_data,
            r.ttl_seconds == 3600,
    {
        ParticipantGrants {
            room_name: String::new(),
            identity: String::new(),
            name: None,
            can_publish: true,
            can_subscribe: true,
            can_publish_data: true,
            ttl_seconds: 3600,
        }
    }
}

/// A minted JWT and where to use it.
#[derive(Debug)]
pub struct MintedToken {
    pub token: String,
    pub server_url: String,
    pub room_name: String,
    pub identity: String,
    pub expires_at: i64,
}

/// The message that `to_jwt` of the LiveKit access token reports when the
/// key or the secret is empty.
pub open spec fn invalid_keys_message() -> Seq<char> {
    "Invalid API Key or Secret Key"@
}

/// The message that `to_jwt` reports for a room-join grant without identity
/// or room.
pub open spec fn invalid_claims_message() -> Seq<char> {
    "invalid claims: token grants room_join but doesn't have an identity or room"@
}

/// What a token is signed with, besides the server's key and secret: the
/// participant, the display name, the lifetime, the room, and the video
/// grant's rights in it.
#[derive(Debug)]
pub struct SigningRequest {
    pub identity: String,
    pub name: String,
    pub ttl_seconds: u64,
    pub room: String,
    pub room_join: bool,
    pub room_admin: bool,
    pub can_publish: bool,
    pub can_subscribe: bool,
    pub can_publish_data: bool,
}

/// `token` is a JWT that LiveKit's `AccessToken::to_jwt` signed (HS256)
/// with `api_secret`: issuer `api_key`, subject `identity`, name `name`,
/// expiring `ttl_seconds` after it was signed, with a video grant on `room`
/// holding exactly the listed rights (`roomJoin`, `roomAdmin`, `canPublish`,
/// `canSubscribe`, `canPublishData`).
pub uninterp spec fn signed_jwt(
    token: Seq<char>,
    api_key: Seq<char>,
    api_secret: Seq<char>,
    identity: Seq<char>,
    name: Seq<char>,
    ttl_seconds: u64,
    room: Seq<char>,
    room_join: bool,
    room_admin: bool,
    can_publish: bool,
    can_subscribe: bool,
    can_publish_data: bool,
) -> bool;

/// Signs a LiveKit access token (`AccessToken::with_api_key`,
/// `with_identity`, `with_name`, `with_ttl`, `with_grants`, `to_jwt`) with
/// the request's claims. A token that comes back is one signed with exactly
/// those claims (`signed_jwt`); it also carries the signing time, so its
/// text is not fixed. The refusals are stated: an empty key or secret first,
/// then a room-join grant without identity or room. Past those checks
/// `to_jwt` always signs: it encodes HS256 claims of strings, numbers and
/// booleans, and HMAC takes a secret of any length. `AccessToken` reads the
/// system clock and panics on one set before 1970; nothing here can rule
/// that out.
#[verifier::external_body]
fn livekit_jwt(api_key: &str, api_secret: &str, req: &SigningRequest) -> (r: Result<String, String>)
    requires
        req.ttl_seconds < MAX_TTL_SECONDS,
    ensures
        r matches Ok(t) ==> signed_jwt(
            t@,
            api_key@,
            api_secret@,
            req.identity@,
            req.name@,
            req.ttl_seconds,
            req.room@,
            req.room_join,
            req.room_admin,
            req.can_publish,
            req.can_subscribe,
            req.can_publish_data,
        ),
        api_key@.len() == 0 || api_secret@.len() == 0 ==> r is Err && r->Err_0@
            == invalid_keys_message(),
        api_key@.len() > 0 && api_secret@.len() > 0 && req.room_join && (req.identity@.len() == 0
            || req.room@.len() == 0) ==> r is Err && r->Err_0@ == invalid_claims_message(),
        api_key@.len() > 0 && api_secret@.len() > 0 && (req.room_join ==> req.identity@.len() > 0
            && req.room@.len() > 0) ==> r is Ok,
{
    let grants = livekit_api::access_token::VideoGrants {
        room: req.room.clone(),
        room_join: req.room_join,
        room_admin: req.room_admin,
        can_publish: Some(req.can_publish),
        can_subscribe: Some(req.can_subscribe),
        can_publish_data: Some(req.can_publish_data),
        ..Default::default()
    };
    livekit_api::access_token::AccessToken::with_api_key(api_key, api_secret).with_identity(
        &req.identity,
    ).with_name(&req.name).with_ttl(std::time::Duration::from_secs(req.ttl_seconds)).with_grants(
        grants,
    ).to_jwt().map_err(|e| e.to_string())
}

/// The current Unix time in seconds (`chrono::Utc::now().timestamp()`);
/// nothing is stated of it.
#[verifier::external_body]
fn utc_now_timestamp() -> i64 {
    chrono::Utc::now().timestamp()
}

/// Whether minting for `grants` with `config` is refused before anything is
/// signed: an empty key or secret, or an empty identity or room.
pub open spec fn mint_refused(config: LiveKitConfig, grants: ParticipantGrants) -> bool {
    config.api_key@.len() == 0 || config.api_secret@.len() == 0 || grants.identity@.len() == 0
        || grants.room_name@.len() == 0
}

/// `mint_refused` for a room and an identity.
pub open spec fn mint_fields_refused(config: LiveKitConfig, room: Seq<char>, identity: Seq<char>) -> bool {
    config.api_key@.len() == 0 || config.api_secret@.len() == 0 || identity.len() == 0
        || room.len() == 0
}

/// The message of the refusal, as `mint` reports it.
pub open spec fn mint_refusal_message(config: LiveKitConfig) -> Seq<char> {
    "failed to mint livekit token: "@ + (if config.api_key@.len() == 0 || config.api_secret@.len()
        == 0 {
        invalid_keys_message()
    } else {
        invalid_claims_message()
    })
}

/// The name a token carries: the display name, or the identity.
pub open spec fn display_name_of(grants: ParticipantGrants) -> Seq<char> {
    match grants.name {
        Some(n) => n@,
        None => grants.identity@,
    }
}

/// `token` was signed with `config` for `grants` (joining the room, and
/// administering it when `room_admin`).
pub open spec fn signed_for(
    token: Seq<char>,
    config: LiveKitConfig,
    grants: ParticipantGrants,
    room_admin: bool,
) -> bool {
    signed_jwt(
        token,
        config.api_key@,
        config.api_secret@,
        grants.identity@,
        display_name_of(grants),
        grants.ttl_seconds,
        grants.room_name@,
        true,
        room_admin,
        grants.can_publish,
        grants.can_subscribe,
        grants.can_publish_data,
    )
}

/// The claims a token for `grants` is signed with: the participant and
/// room of the grants, its display name (the identity when it has none), its
/// lifetime and rights, joining the room, and administering it when
/// `room_admin`.
pub fn signing_request(grants: &ParticipantGrants, room_admin: bool) -> (r: SigningRequest)
    ensures
        r.identity@ == grants.identity@,
        r.name@ == display_name_of(*grants),
        r.ttl_seconds == grants.ttl_seconds,
        r.room@ == grants.room_name@,
        r.room_join,
        r.room_admin == room_admin,
        r.can_publish == grants.can_publish,
        r.can_subscribe == grants.can_subscribe,
        r.can_publish_data == grants.can_publish_data,
{
    SigningRequest {
        identity: grants.identity.clone(),
        name: match &grants.name {
            Some(n) => n.clone(),
            None => grants.identity.clone(),
        },
        ttl_seconds: grants.ttl_seconds,
        room: grants.room_name.clone(),
        room_join: true,
        room_admin,
        can_publish: grants.can_publish,
        can_subscribe: grants.can_subscribe,
        can_publish_data: grants.can_publish_data,
    }
}

/// The name of an agent's participant: `agent:` and the first 16 bytes of
/// its DID (all of it when shorter).
pub open spec fn agent_name_of(agent_did: Seq<char>) -> Seq<char> {
    let b = encode_utf8(agent_did);
    "agent:"@ + decode_utf8(b.subrange(0, if b.len() < 16 { b.len() as int } else { 16 }))
}

/// Mints LiveKit access tokens for participants.
#[derive(Debug)]
pub struct TokenMinter {
    config: LiveKitConfig,
}

impl TokenMinter {
    pub fn new(config: LiveKitConfig) -> (r: TokenMinter)
        ensures
            r.config() == config,
    {
        TokenMinter { config }
    }

    /// The configuration tokens are minted with.
    pub closed spec fn config(&self) -> LiveKitConfig {
        self.config
    }

    /// Mints a token for `grants`, administering the room when `room_admin`.
    fn mint_with(&self, grants: ParticipantGrants, room_admin: bool) -> (r: Result<
        MintedToken,
        AppViewError,
    >)
        requires
            grants.ttl_seconds < MAX_TTL_SECONDS,
        ensures
            mint_refused(self.config(), grants) ==> (r matches Err(AppViewError::Internal(m)) && m@
                == mint_refusal_message(self.config())),
            r matches Ok(t) ==> !mint_refused(self.config(), grants) && t.server_url@
                == self.config().server_url@ && t.room_name@ == grants.room_name@ && t.identity@
                == grants.identity@ && signed_for(t.token@, self.config(), grants, room_admin),
            r matches Err(e) ==> e is Internal,
            !mint_refused(self.config(), grants) ==> r is Ok,
    {
        let req = signing_request(&grants, room_admin);
        let signed = livekit_jwt(self.config.api_key.as_str(), self.config.api_secret.as_str(), &req);
        let now = utc_now_timestamp();
        self.token_from_signature(grants, signed, now)
    }

    /// Mints a token for a participant with the given grants, joining the
    /// room; its name is the display name, or the identity when there is
    /// none.
    pub fn mint(&self, grants: ParticipantGrants) -> (r: Result<MintedToken, AppViewError>)
        requires
            grants.ttl_seconds < MAX_TTL_SECONDS,
        ensures
            mint_refused(self.config(), grants) ==> (r matches Err(AppViewError::Internal(m)) && m@
                == mint_refusal_message(self.config())),
            r matches Ok(t) ==> !mint_refused(self.config(), grants) && t.server_url@
                == self.config().server_url@ && t.room_name@ == grants.room_name@ && t.identity@
                == grants.identity@ && signed_for(t.token@, self.config(), grants, false),
            r matches Err(e) ==> e is Internal,
            !mint_refused(self.config(), grants) ==> r is Ok,
    {
        self.mint_with(grants, false)
    }

    /// The outcome of minting for `grants` once the token library answered
    /// `signed` at Unix time `now`: its refusal, reported as an internal
    /// error, or the token with where to use it, its room and identity, and
    /// its expiry `ttl_seconds` after `now`.
    pub fn token_from_signature(
        &self,
        grants: ParticipantGrants,
        signed: Result<String, String>,
        now: i64,
    ) -> (r: Result<MintedToken, AppViewError>)
        requires
            grants.ttl_seconds < MAX_TTL_SECONDS,
        ensures
            signed matches Err(e) ==> (r matches Err(AppViewError::Internal(m)) && m@
                == "failed to mint livekit token: "@ + e@),
            signed matches Ok(jwt) ==> (r matches Ok(t) && t.token@ == jwt@ && t.server_url@
                == self.config().server_url@ && t.room_name@ == grants.room_name@ && t.identity@
                == grants.identity@ && (now + grants.ttl_seconds <= i64::MAX ==> t.expires_at == now
                + grants.ttl_seconds)),
    {
        let token = match signed {
            Ok(t) => t,
            Err(e) => {
                let mut m = to_string("failed to mint livekit token: ");
                m.append(e.as_str());
                return Err(AppViewError::Internal(m));
            },
        };
        let expires_at = now.wrapping_add(grants.ttl_seconds as i64);
        Ok(MintedToken {
            token,
            server_url: self.config.server_url.clone(),
            room_name: grants.room_name,
            identity: grants.identity,
            expires_at,
        })
    }

    /// Mints a host token: publish, subscribe and data, managing the room,
    /// for two hours.
    pub fn mint_host(&self, room_name: &str, did: &str, display_name: Option<&str>) -> (r: Result<
        MintedToken,
        AppViewError,
    >)
        ensures
            mint_fields_refused(self.config(), room_name@, did@) ==> (r matches Err(
                AppViewError::Internal(m),
            ) && m@ == mint_refusal_message(self.config())),
            r matches Ok(t) ==> !mint_fields_refused(self.config(), room_name@, did@)
                && t.server_url@ == self.config().server_url@ && t.room_name@ == room_name@
                && t.identity@ == did@ && signed_jwt(
                t.token@,
                self.config().api_key@,
                self.config().api_secret@,
                did@,
                match display_name {
                    Some(n) => n@,
                    None => did@,
                },
                7200,
                room_name@,
                true,
                true,
                true,
                true,
                true,
            ),
            r matches Err(e) ==> e is Internal,
            !mint_fields_refused(self.config(), room_name@, did@) ==> r is Ok,
    {
        let grants = ParticipantGrants {
            room_name: to_string(room_name),
            identity: to_string(did),
            name: match display_name {
                Some(s) => Some(to_string(s)),
                None => None,
            },
            can_publish: true,
            can_subscribe: true,
            can_publish_data: true,
            ttl_seconds: 7200,
        };
        self.mint_with(grants, true)
    }

    /// Mints a viewer token: subscribe only, no publishing, for one hour.
    pub fn mint_viewer(&self, room_name: &str, did: &str, display_name: Option<&str>) -> (r: Result<
        MintedToken,
        AppViewError,
    >)
        ensures
            mint_fields_refused(self.config(), room_name@, did@) ==> (r matches Err(
                AppViewError::Internal(m),
            ) && m@ == mint_refusal_message(self.config())),
            r matches Ok(t) ==> !mint_fields_refused(self.config(), room_name@, did@)
                && t.server_url@ == self.config().server_url@ && t.room_name@ == room_name@
                && t.identity@ == did@ && signed_jwt(
                t.token@,
                self.config().api_key@,
                self.config().api_secret@,
                did@,
                match display_name {
                    Some(n) => n@,
                    None => did@,
                },
                3600,
                room_name@,
                true,
                false,
                false,
                true,
                false,
            ),
            r matches Err(e) ==> e is Internal,
            !mint_fields_refused(self.config(), room_name@, did@) ==> r is Ok,
    {
        let grants = ParticipantGrants {
            room_name: to_string(room_name),
            identity: to_string(did),
            name: match display_name {
                Some(s) => Some(to_string(s)),
                None => None,
            },
            can_publish: false,
            can_subscribe: true,
            can_publish_data: false,
            ttl_seconds: 3600,
        };
        self.mint_with(grants, false)
    }

    /// Mints an AI agent token for one day: it can subscribe and publish
    /// data, but not audio or video. Its name is `agent:` followed by the
    /// first 16 bytes of the agent's DID (all of it when shorter).
    pub fn mint_agent(&self, room_name: &str, agent_did: &str) -> (r: Result<MintedToken, AppViewError>)
        requires
            agent_did.spec_bytes().len() <= 16 || is_char_boundary(agent_did.spec_bytes(), 16),
        ensures
            mint_fields_refused(self.config(), room_name@, agent_did@) ==> (r matches Err(
                AppViewError::Internal(m),
            ) && m@ == mint_refusal_message(self.config())),
            r matches Ok(t) ==> !mint_fields_refused(self.config(), room_name@, agent_did@)
                && t.server_url@ == self.config().server_url@ && t.room_name@ == room_name@
                && t.identity@ == agent_did@ && signed_jwt(
                t.token@,
                self.config().api_key@,
                self.config().api_secret@,
                agent_did@,
                agent_name_of(agent_did@),
                86400,
                room_name@,
                true,
                false,
                false,
                true,
                true,
            ),
            r matches Err(e) ==> e is Internal,
            !mint_fields_refused(self.config(), room_name@, agent_did@) ==> r is Ok,
    {
        let len = agent_did.as_bytes().len();
        let n: usize = if len < 16 {
            len
        } else {
            16
        };
        proof {
            vstd::utf8::encode_utf8_valid_utf8(agent_did@);
            vstd::utf8::is_char_boundary_start_end_of_seq(agent_did.spec_bytes());
        }
        let (head, _) = agent_did.split_at(n);
        proof {
            vstd::utf8::encode_utf8_decode_utf8(head@);
            assert(head@ == decode_utf8(agent_did.spec_bytes().subrange(0, n as int)));
        }
        let mut name = to_string("agent:");
        name.append(head);
        let grants = ParticipantGrants {
            room_name: to_string(room_name),
            identity: to_string(agent_did),
            name: Some(name),
            can_publish: false,
            can_subscribe: true,
            can_publish_data: true,
            ttl_seconds: 86400,
        };
        self.mint_with(grants, false)
    }
}

} // verus!
