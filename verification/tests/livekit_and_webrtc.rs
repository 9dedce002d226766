use base64::Engine;
use rsky_appview::api::livekit::{gate_refusal, grants_for, mint_for, not_configured, ttl_out_of_range, TokenMintRequest};
use rsky_appview::livekit::billing::{GateResult, SubscriptionTier};
use rsky_appview::livekit::room::CreateRoomParams;
use rsky_appview::livekit::token::{LiveKitConfig, ParticipantGrants, TokenMinter};
use rsky_appview::webrtc::session::{SessionTable, SessionType};
use rsky_appview::webrtc::signal::{build_proxy_answer, validate_offer, SdpOfferRequest};

#[test]
fn tier_rights() {
    assert!(!SubscriptionTier::Free.can_host());
    assert!(SubscriptionTier::Creator.can_host());
    assert!(SubscriptionTier::Pro.can_host());
    assert!(!SubscriptionTier::Creator.can_use_agents());
    assert!(SubscriptionTier::Pro.can_use_agents());
    assert!(SubscriptionTier::Pro.can_gate_content());
    assert_eq!(SubscriptionTier::Free.max_viewers(), 0);
    assert_eq!(SubscriptionTier::Creator.max_viewers(), 100);
    assert_eq!(SubscriptionTier::Pro.max_viewers(), 0);
    assert_eq!(SubscriptionTier::from_stored(Some("pro")), SubscriptionTier::Pro);
    assert_eq!(SubscriptionTier::from_stored(Some("creator")), SubscriptionTier::Creator);
    assert_eq!(SubscriptionTier::from_stored(Some("gold")), SubscriptionTier::Free);
    assert_eq!(SubscriptionTier::from_stored(None), SubscriptionTier::Free);
}

#[test]
fn gate_decisions() {
    let g = GateResult::for_hosting(SubscriptionTier::Free);
    assert!(!g.allowed);
    assert_eq!(g.reason.as_deref(), Some("hosting requires Creator or Pro subscription"));
    assert!(GateResult::for_hosting(SubscriptionTier::Creator).allowed);
    assert!(GateResult::for_joining(false, false).allowed);
    let j = GateResult::for_joining(true, false);
    assert_eq!(j.reason.as_deref(), Some("purchase required to join this session"));
    assert!(GateResult::for_joining(true, true).allowed);
    let a = GateResult::for_agents(SubscriptionTier::Creator);
    assert_eq!(a.reason.as_deref(), Some("AI agents require Pro subscription"));
    assert!(GateResult::for_agents(SubscriptionTier::Pro).allowed);
    assert!(GateResult::allow(SubscriptionTier::Pro).reason.is_none());
    assert_eq!(GateResult::deny(SubscriptionTier::Free, "no").reason.as_deref(), Some("no"));
    let refusal = gate_refusal(&g).unwrap();
    assert_eq!((refusal.0, refusal.1.error.as_str()), (403, "InsufficientTier"));
    assert!(gate_refusal(&GateResult::allow(SubscriptionTier::Pro)).is_none());
    assert_eq!(not_configured().0, 503);
}

fn minter(key: &str) -> TokenMinter {
    TokenMinter::new(LiveKitConfig::new(key, "secret-value", "wss://lk.example"))
}

#[test]
fn mint_tokens() {
    let m = minter("key");
    let host = m.mint_host("room1", "did:plc:h", Some("Host")).unwrap();
    assert_eq!(host.room_name, "room1");
    assert_eq!(host.identity, "did:plc:h");
    assert_eq!(host.server_url, "wss://lk.example");
    assert_eq!(host.token.split('.').count(), 3);
    let viewer = m.mint_viewer("room1", "did:plc:v", None).unwrap();
    assert!(viewer.expires_at > 0);
    let agent = m.mint_agent("room1", "did:plc:agentwithaverylongidentifier").unwrap();
    assert_eq!(agent.identity, "did:plc:agentwithaverylongidentifier");
}

#[test]
fn mint_refusals() {
    let no_key = minter("");
    match no_key.mint_host("room", "did:plc:x", None) {
        Err(e) => assert_eq!(e.message(), "Internal error: failed to mint livekit token: Invalid API Key or Secret Key"),
        Ok(_) => panic!("empty key must be refused"),
    }
    let m = minter("key");
    match m.mint_viewer("", "did:plc:x", None) {
        Err(e) => assert_eq!(
            e.message(),
            "Internal error: failed to mint livekit token: invalid claims: token grants room_join but doesn't have an identity or room"
        ),
        Ok(_) => panic!("empty room must be refused"),
    }
    let d = ParticipantGrants::default();
    assert_eq!(d.ttl_seconds, 3600);
    assert!(d.can_publish && d.can_subscribe && d.can_publish_data);
    assert!(m.mint(d).is_err());
}

#[test]
fn token_request_defaults() {
    let req = TokenMintRequest {
        room_name: "r".to_string(),
        identity: None,
        can_publish: Some(false),
        can_subscribe: None,
        can_publish_data: None,
        ttl_seconds: None,
    };
    let g = grants_for(&req, "did:plc:me");
    assert_eq!(g.identity, "did:plc:me");
    assert!(!g.can_publish);
    assert!(g.can_subscribe);
    assert_eq!(g.ttl_seconds, 3600);
    let ok = mint_for(&minter("key"), &req, "did:plc:me").unwrap();
    assert_eq!(ok.identity, "did:plc:me");
    let err = mint_for(&minter(""), &req, "did:plc:me").err().unwrap();
    assert_eq!((err.0, err.1.error.as_str()), (500, "TokenMintFailed"));
    let from_env = LiveKitConfig::from_vars(Some("k".into()), None, Some("u".into()));
    assert_eq!(from_env.err().unwrap().message(), "Internal error: LIVEKIT_API_SECRET not set");
}

#[test]
fn room_defaults() {
    let p = CreateRoomParams::default();
    assert_eq!(p.empty_timeout_secs, 300);
    assert_eq!(p.max_participants, 0);
    assert!(!p.gated);
    let mut q = CreateRoomParams::default();
    q.host_did = "did:plc:h".to_string();
    q.gated = true;
    let meta = q.meta();
    assert_eq!(meta.host_did, "did:plc:h");
    assert!(meta.gated);
}

fn offer(room: &str, sdp: &str) -> SdpOfferRequest {
    SdpOfferRequest { room_name: room.to_string(), sdp_offer: sdp.to_string() }
}

#[test]
fn offer_validation() {
    assert!(validate_offer(&offer("room", "v=0\r\n")).is_ok());
    assert_eq!(validate_offer(&offer("", "v=0")).err().unwrap().message, "roomName is required");
    let long = "x".repeat(129);
    assert_eq!(validate_offer(&offer(&long, "v=0")).err().unwrap().message, "roomName exceeds 128 characters");
    assert!(validate_offer(&offer(&"x".repeat(128), "v=0")).is_ok());
    // 64 two-byte characters are 128 bytes; 65 are too many
    assert!(validate_offer(&offer(&"é".repeat(64), "v=0")).is_ok());
    assert!(validate_offer(&offer(&"é".repeat(65), "v=0")).is_err());
    assert_eq!(validate_offer(&offer("r", "")).err().unwrap().message, "sdpOffer is required");
    let bad = validate_offer(&offer("r", "v=1")).err().unwrap();
    assert_eq!(bad.message, "invalid SDP offer: must start with v=0");
    assert_eq!(bad.error, "InvalidRequest");
}

#[test]
fn proxy_answer_text() {
    let a = build_proxy_answer("sess-1", "recvonly");
    assert_eq!(
        a,
        "v=0\r\no=- sess-1 1 IN IP4 0.0.0.0\r\ns=-\r\nt=0 0\r\na=group:BUNDLE 0\r\nm=video 9 UDP/TLS/RTP/SAVPF 96\r\nc=IN IP4 0.0.0.0\r\na=setup:active\r\na=mid:0\r\na=recvonly\r\n"
    );
}

#[test]
fn session_table_lifecycle() {
    let mut t = SessionTable::new();
    let s = t.create("id1".to_string(), "did:plc:h", "room", SessionType::Whip, "v=0", 1_000);
    assert_eq!(s.id, "id1");
    assert!(s.sdp_answer.is_none());
    assert_eq!(t.len(), 1);
    assert!(t.set_answer("id1", "answer", 2_000));
    assert!(!t.set_answer("missing", "answer", 2_000));
    let got = t.get("id1").unwrap();
    assert_eq!(got.sdp_answer.as_deref(), Some("answer"));
    assert_eq!(got.last_activity_ms, 2_000);
    t.create("id2".to_string(), "did:plc:h", "room", SessionType::Whep, "v=0", 3_000);
    // replacing an id keeps one session under it
    t.create("id2".to_string(), "did:plc:x", "room", SessionType::Whep, "v=0", 4_000);
    assert_eq!(t.len(), 2);
    assert_eq!(t.get("id2").unwrap().host_did, "did:plc:x");
    // an hour after id1's last activity it expires; id2 is younger
    let removed = t.cleanup_expired(2_000 + 3_600_000);
    assert_eq!(removed, 1);
    assert!(t.get("id1").is_none());
    assert!(t.get("id2").is_some());
    assert_eq!(t.cleanup_expired(2_000 + 3_599_999 + 2_000), 0);
    let r = t.remove("id2").unwrap();
    assert_eq!(r.id, "id2");
    assert!(t.remove("id2").is_none());
    assert_eq!(t.len(), 0);
}

#[test]
fn signed_tokens_expire_after_their_lifetime() {
    let minter = TokenMinter::new(LiveKitConfig::new("key", "secret-value", "wss://lk.example"));
    let mut grants = ParticipantGrants::default();
    grants.room_name = "room-1".to_string();
    grants.identity = "did:plc:host".to_string();
    grants.ttl_seconds = 7200;
    let t = minter
        .token_from_signature(grants, Ok("header.payload.sig".to_string()), 1_700_000_000)
        .expect("a signed token is minted");
    assert_eq!(t.token, "header.payload.sig");
    assert_eq!(t.expires_at, 1_700_007_200);
    assert_eq!(t.server_url, "wss://lk.example");
    assert_eq!(t.room_name, "room-1");
    assert_eq!(t.identity, "did:plc:host");
}

#[test]
fn refused_signatures_become_internal_errors() {
    let minter = TokenMinter::new(LiveKitConfig::new("key", "secret-value", "wss://lk.example"));
    let err = minter
        .token_from_signature(ParticipantGrants::default(), Err("bad".to_string()), 0)
        .expect_err("a refusal is an error");
    assert_eq!(err.message(), "Internal error: failed to mint livekit token: bad");
}

fn claims_of(token: &str) -> serde_json::Value {
    let payload = token.split('.').nth(1).expect("a JWT has a payload");
    let bytes = base64::engine::general_purpose::URL_SAFE_NO_PAD.decode(payload).expect("base64url");
    serde_json::from_slice(&bytes).expect("JSON claims")
}

#[test]
fn minted_tokens_carry_the_rights_of_their_role() {
    let m = TokenMinter::new(LiveKitConfig::new("key", "secret-value", "wss://lk.example"));
    let host = claims_of(&m.mint_host("room1", "did:plc:h", Some("Host")).unwrap().token);
    assert_eq!(host["sub"], "did:plc:h");
    assert_eq!(host["name"], "Host");
    assert_eq!(host["video"]["room"], "room1");
    assert_eq!(host["video"]["roomJoin"], true);
    assert_eq!(host["video"]["roomAdmin"], true);
    assert_eq!(host["video"]["canPublish"], true);

    let viewer = claims_of(&m.mint_viewer("room1", "did:plc:v", None).unwrap().token);
    assert_eq!(viewer["name"], "did:plc:v");
    assert!(viewer["video"].get("roomAdmin").is_none());
    assert_eq!(viewer["video"]["canPublish"], false);
    assert_eq!(viewer["video"]["canSubscribe"], true);
    assert_eq!(viewer["video"]["canPublishData"], false);

    let agent = claims_of(&m.mint_agent("room1", "did:plc:abcdefghijklmnop").unwrap().token);
    assert_eq!(agent["name"], "agent:did:plc:abcdefgh");
    assert_eq!(agent["video"]["canPublish"], false);
    assert_eq!(agent["video"]["canPublishData"], true);
    assert_eq!(agent["video"]["canSubscribe"], true);
}

#[test]
fn requested_rights_are_minted() {
    let m = TokenMinter::new(LiveKitConfig::new("key", "secret-value", "wss://lk.example"));
    let req = TokenMintRequest {
        room_name: "r".to_string(),
        identity: None,
        can_publish: Some(false),
        can_subscribe: None,
        can_publish_data: None,
        ttl_seconds: None,
    };
    let resp = mint_for(&m, &req, "did:plc:viewer").expect("minted");
    assert_eq!(resp.identity, "did:plc:viewer");
    let c = claims_of(&resp.token);
    assert_eq!(c["video"]["canPublish"], false);
    assert_eq!(c["video"]["canSubscribe"], true);
    assert_eq!(c["video"]["canPublishData"], true);
    let c = c.as_object().unwrap();
    let lifetime = c["exp"].as_i64().unwrap() - c["nbf"].as_i64().unwrap();
    assert!((3599..=3601).contains(&lifetime));
}

#[test]
fn lifetimes_past_the_clock_are_refused() {
    let (status, body) = ttl_out_of_range();
    assert_eq!(status, 400);
    assert_eq!(body.error, "InvalidRequest");
    assert_eq!(body.message, "ttl_seconds out of range");
}
