use base64::Engine;
use rsky_appview::auth::{bearer_token, check_expiry, token_payload, viewer_from_claims, Claims};
use rsky_appview::firehose::{after_connection, after_read, before_read, connection_url, cursor_key, cursor_to_save, jobs_for_ops, subscribe_url_with_cursor, job_for_op, resume_cursor, ConnectionResult, ReadOutcome, Reconnect, RepoOp, StreamAction, IDLE_TIMEOUT_MS};
use rsky_appview::indexer::{delete_record, extract_blob_cid, extract_did_from_at_uri, index_record, DeleteAction, IndexAction};
use rsky_appview::json::JsonValue;
use rsky_appview::label_cache::LabelCache;
use rsky_appview::labels::{filter_labels, Label, ViewerPrefs};
use rsky_appview::queue::{cursor_bytes, cursor_from_bytes, job_key, IndexOperation};
use rsky_appview::appview::error::AppViewError;

fn s(x: &str) -> JsonValue {
    JsonValue::Str(x.to_string())
}

fn obj(members: Vec<(&str, JsonValue)>) -> JsonValue {
    JsonValue::Object(members.into_iter().map(|(k, v)| (k.to_string(), v)).collect())
}

#[test]
fn payload_of_token() {
    // "eyJzdWIiOiJ4In0" is base64url for {"sub":"x"}
    let p = token_payload("hdr.eyJzdWIiOiJ4In0.sig").unwrap();
    assert_eq!(p, b"{\"sub\":\"x\"}".to_vec());
    match token_payload("onlyone") {
        Err(AppViewError::Auth(m)) => assert_eq!(m, "malformed JWT: expected 3 segments"),
        _ => panic!(),
    }
    match token_payload("a.b") {
        Err(AppViewError::Auth(m)) => assert_eq!(m, "malformed JWT: expected 3 segments"),
        _ => panic!(),
    }
    match token_payload("a.!!.c") {
        Err(AppViewError::Auth(m)) => assert_eq!(m, "malformed JWT: invalid base64url payload"),
        _ => panic!(),
    }
    // a fourth segment stays with the signature
    assert!(token_payload("a.eyJzdWIiOiJ4In0.b.c").is_ok());
}

#[test]
fn expiry_and_bearer() {
    let c = Claims { sub: "did:plc:a".to_string(), iat: 1, exp: 100, scope: String::new() };
    match check_expiry(c, 101) {
        Err(AppViewError::Auth(m)) => assert_eq!(m, "token expired"),
        _ => panic!(),
    }
    let c = Claims { sub: "did:plc:a".to_string(), iat: 1, exp: 100, scope: String::new() };
    assert_eq!(check_expiry(c, 100).unwrap().sub, "did:plc:a");
    assert_eq!(bearer_token(Some("Bearer abc.def")).as_deref(), Some("abc.def"));
    assert!(bearer_token(Some("Basic abc123")).is_none());
    assert!(bearer_token(None).is_none());
    let c = Claims { sub: "did:plc:z".to_string(), iat: 0, exp: 0, scope: String::new() };
    let v = viewer_from_claims(&c, "t".to_string());
    assert_eq!(v.did.as_str(), "did:plc:z");
}

#[test]
fn index_post_with_reply() {
    let rec = obj(vec![
        ("text", s("hello")),
        ("createdAt", s("2024-01-01T00:00:00.000Z")),
        ("reply", obj(vec![
            ("root", obj(vec![("uri", s("at://did:plc:root/app.bsky.feed.post/1"))])),
            ("parent", obj(vec![("uri", s("at://did:plc:parent/app.bsky.feed.post/2"))])),
        ])),
    ]);
    let a = index_record("at://did:plc:me/app.bsky.feed.post/3", "cid3", "did:plc:me", Some(&rec), "NOW");
    match a {
        IndexAction::Post(w) => {
            assert_eq!(w.uri, "at://did:plc:me/app.bsky.feed.post/3");
            assert_eq!(w.text, "hello");
            assert_eq!(w.created_at, "2024-01-01T00:00:00.000Z");
            assert_eq!(w.indexed_at, "NOW");
            assert_eq!(w.reply_root.as_deref(), Some("at://did:plc:root/app.bsky.feed.post/1"));
            let n = w.notification.unwrap();
            assert_eq!(n.did, "did:plc:parent");
            assert_eq!(n.reason, "reply");
            assert_eq!(n.record_cid, "cid3");
        }
        _ => panic!("expected a post"),
    }
    // replying to oneself notifies nobody; missing fields take defaults
    let own = obj(vec![("reply", obj(vec![("parent", obj(vec![("uri", s("at://did:plc:me/app.bsky.feed.post/1"))]))]))]);
    match index_record("at://did:plc:me/app.bsky.feed.post/4", "c", "did:plc:me", Some(&own), "NOW") {
        IndexAction::Post(w) => {
            assert!(w.notification.is_none());
            assert_eq!(w.text, "");
            assert_eq!(w.created_at, "NOW");
        }
        _ => panic!(),
    }
    assert!(matches!(index_record("at://did:plc:me/app.bsky.feed.post/4", "c", "did:plc:me", None, "NOW"), IndexAction::Skip));
}

#[test]
fn index_likes_follows_blocks_profiles() {
    let like = obj(vec![("subject", obj(vec![("uri", s("at://did:plc:you/app.bsky.feed.post/1")), ("cid", s("pc"))]))]);
    match index_record("at://did:plc:me/app.bsky.feed.like/9", "c", "did:plc:me", Some(&like), "NOW") {
        IndexAction::Like(w) => {
            assert_eq!(w.subject_cid, "pc");
            let n = w.notification.unwrap();
            assert_eq!((n.did.as_str(), n.reason.as_str(), n.record_cid.as_str()), ("did:plc:you", "like", "pc"));
        }
        _ => panic!(),
    }
    let empty = obj(vec![]);
    assert!(matches!(index_record("at://did:plc:me/app.bsky.feed.like/9", "c", "did:plc:me", Some(&empty), "N"), IndexAction::Skip));
    let repost = obj(vec![("subject", obj(vec![("uri", s("at://did:plc:me/app.bsky.feed.post/1"))]))]);
    match index_record("at://did:plc:me/app.bsky.feed.repost/9", "c", "did:plc:me", Some(&repost), "N") {
        IndexAction::Repost(w) => assert!(w.notification.is_none()),
        _ => panic!(),
    }
    let follow = obj(vec![("subject", s("did:plc:you"))]);
    match index_record("at://did:plc:me/app.bsky.graph.follow/9", "c", "did:plc:me", Some(&follow), "N") {
        IndexAction::Follow(w) => {
            assert_eq!(w.subject_did, "did:plc:you");
            assert_eq!(w.notification.reason, "follow");
            assert_eq!(w.notification.record_cid, "");
        }
        _ => panic!(),
    }
    match index_record("at://did:plc:me/app.bsky.graph.block/9", "c", "did:plc:me", Some(&follow), "N") {
        IndexAction::Block(w) => assert_eq!(w.subject_did, "did:plc:you"),
        _ => panic!(),
    }
    let profile = obj(vec![
        ("displayName", s("Me")),
        ("avatar", obj(vec![("ref", obj(vec![("$link", s("bafyavatar"))]))])),
        ("banner", s("bafybanner")),
    ]);
    match index_record("at://did:plc:me/app.bsky.actor.profile/self", "c", "did:plc:me", Some(&profile), "N") {
        IndexAction::Profile(w) => {
            assert_eq!(w.display_name.as_deref(), Some("Me"));
            assert_eq!(w.avatar_cid.as_deref(), Some("bafyavatar"));
            assert_eq!(w.banner_cid.as_deref(), Some("bafybanner"));
            assert!(w.description.is_none());
        }
        _ => panic!(),
    }
    assert!(matches!(index_record("at://did:plc:me/app.bsky.actor.profile/self", "c", "did:plc:me", None, "N"), IndexAction::EnsureActor(_)));
    assert!(matches!(index_record("at://did:plc:me/app.other/1", "c", "did:plc:me", Some(&profile), "N"), IndexAction::Skip));
    assert!(matches!(index_record("at://did:plc:me", "c", "did:plc:me", Some(&profile), "N"), IndexAction::Skip));
    assert_eq!(extract_blob_cid(&profile, "missing"), None);
}

#[test]
fn deletions() {
    match delete_record("at://did:plc:me/app.bsky.feed.post/1", "did:plc:me") {
        DeleteAction::Post { uri, creator } => {
            assert_eq!(uri, "at://did:plc:me/app.bsky.feed.post/1");
            assert_eq!(creator, "did:plc:me");
        }
        _ => panic!(),
    }
    match delete_record("at://did:plc:me/app.bsky.graph.block/3kb", "did:plc:me") {
        DeleteAction::Block { creator, subject_did } => {
            assert_eq!(creator, "did:plc:me");
            assert_eq!(subject_did, "3kb");
        }
        _ => panic!(),
    }
    assert!(matches!(delete_record("at://did:plc:me/app.bsky.feed.like/1", "x"), DeleteAction::Like { .. }));
    assert!(matches!(delete_record("at://did:plc:me/app.bsky.actor.profile/self", "x"), DeleteAction::Skip));
    assert!(matches!(delete_record("bad", "x"), DeleteAction::Skip));
    assert_eq!(extract_did_from_at_uri("at://did:plc:q/a/b"), "did:plc:q");
    assert_eq!(extract_did_from_at_uri("did:plc:q"), "did:plc:q");
}

fn label(val: &str) -> Label {
    Label { src: "did:plc:l".into(), uri: "at://x".into(), cid: None, val: val.into(), neg: false, cts: "t".into() }
}

#[test]
fn label_filtering() {
    let labels = vec![label("spam"), label("nsfw"), label("ok")];
    assert_eq!(filter_labels(&labels, None).len(), 3);
    let prefs = ViewerPrefs { hidden_labels: vec!["nsfw".to_string(), "gore".to_string()] };
    let kept: Vec<String> = filter_labels(&labels, Some(&prefs)).into_iter().map(|l| l.val).collect();
    assert_eq!(kept, vec!["spam".to_string(), "ok".to_string()]);
}

#[test]
fn cursors_and_keys() {
    for c in [0i64, 1, -1, 123456789, i64::MAX, i64::MIN] {
        let b = cursor_bytes(c);
        assert_eq!(b, c.to_le_bytes());
        assert_eq!(cursor_from_bytes(&b).unwrap(), c);
    }
    match cursor_from_bytes(&[1, 2, 3]) {
        Err(AppViewError::Storage(m)) => assert_eq!(m, "invalid cursor format"),
        _ => panic!(),
    }
    assert_eq!(job_key(1700000000123456789, "did:plc:a"), "1700000000123456789:did:plc:a");
    assert_eq!(job_key(-5, "r"), "-5:r");
    assert_eq!(job_key(0, "r"), "0:r");
}

#[test]
fn firehose_urls_and_backoff() {
    assert_eq!(connection_url("wss://bsky.network"), "wss://bsky.network/xrpc/com.atproto.sync.subscribeRepos");
    assert_eq!(connection_url("http://localhost:2470/"), "ws://localhost:2470/xrpc/com.atproto.sync.subscribeRepos");
    assert_eq!(connection_url("relay.example"), "wss://relay.example/xrpc/com.atproto.sync.subscribeRepos");
    assert_eq!(connection_url("wss://r.example/xrpc/com.atproto.sync.subscribeRepos"), "wss://r.example/xrpc/com.atproto.sync.subscribeRepos");
    assert_eq!(resume_cursor(Some(5)), Some(5));
    assert_eq!(resume_cursor(Some(0)), None);
    assert_eq!(resume_cursor(None), None);
    let (r, b) = after_connection(ConnectionResult::Timeout, 1);
    assert!(matches!(r, Reconnect::RetryAfter(1)));
    assert_eq!(b, 2);
    assert_eq!(after_connection(ConnectionResult::Timeout, 200).1, 300);
    assert_eq!(after_connection(ConnectionResult::Timeout, 300).1, 300);
    assert!(matches!(after_connection(ConnectionResult::FutureCursor, 64), (Reconnect::ResetCursor, 1)));
    assert!(matches!(after_connection(ConnectionResult::Success, 8), (Reconnect::Stop, 8)));
}

fn op(action: &str, cid: Option<&str>) -> RepoOp {
    RepoOp { action: action.into(), path: "app.bsky.feed.post/3k".into(), cid: cid.map(String::from), record_json: Some("{}".into()) }
}

#[test]
fn commit_operations() {
    let j = job_for_op("did:plc:r", "ccid", "rev1", &op("create", Some("bafy"))).unwrap();
    match &j.operation {
        IndexOperation::Create { uri, cid } => {
            assert_eq!(uri, "at://did:plc:r/app.bsky.feed.post/3k");
            assert_eq!(cid, "bafy");
        }
        _ => panic!(),
    }
    assert_eq!(j.record_json.as_deref(), Some("{}"));
    assert!(matches!(job_for_op("r", "c", "v", &op("update", Some("b"))).unwrap().operation, IndexOperation::Update { .. }));
    assert!(job_for_op("r", "c", "v", &op("create", None)).is_none());
    let d = job_for_op("r", "c", "v", &op("delete", None)).unwrap();
    assert!(matches!(d.operation, IndexOperation::Delete { .. }));
    assert!(d.record_json.is_none());
    assert!(job_for_op("r", "c", "v", &op("rename", Some("b"))).is_none());
}

#[test]
fn stream_loop_ends_on_shutdown_or_idleness() {
    let e = before_read(true, 0, 42).expect("shutdown ends the loop");
    assert_eq!(e.save_cursor, Some(42));
    assert_eq!(e.result, ConnectionResult::Success);
    let e = before_read(false, IDLE_TIMEOUT_MS + 1, 0).expect("idleness ends the loop");
    assert_eq!(e.save_cursor, None);
    assert_eq!(e.result, ConnectionResult::Timeout);
    assert!(before_read(false, IDLE_TIMEOUT_MS, 7).is_none());
}

#[test]
fn stream_reads_decide_the_next_move() {
    assert!(matches!(after_read(ReadOutcome::Binary, 5), StreamAction::Process));
    assert!(matches!(after_read(ReadOutcome::Other, 5), StreamAction::Continue { heard: true }));
    assert!(matches!(after_read(ReadOutcome::Quiet, 5), StreamAction::Continue { heard: false }));
    match after_read(ReadOutcome::Failed, 5) {
        StreamAction::End(e) => {
            assert_eq!(e.save_cursor, Some(5));
            assert_eq!(e.result, ConnectionResult::Timeout);
        }
        other => panic!("unexpected: {other:?}"),
    }
    match after_read(ReadOutcome::Closed, 5) {
        StreamAction::End(e) => assert_eq!(e.save_cursor, None),
        other => panic!("unexpected: {other:?}"),
    }
}

#[test]
fn cursor_saver_writes_only_new_positive_cursors() {
    assert_eq!(cursor_to_save(10, 0), Some(10));
    assert_eq!(cursor_to_save(10, 10), None);
    assert_eq!(cursor_to_save(0, 3), None);
}

#[test]
fn dialled_url_carries_the_resumed_cursor() {
    assert_eq!(
        subscribe_url_with_cursor("bsky.network", Some(42)).unwrap(),
        "wss://bsky.network/xrpc/com.atproto.sync.subscribeRepos?cursor=42"
    );
    assert_eq!(
        subscribe_url_with_cursor("http://localhost:2470/", None).unwrap(),
        "ws://localhost:2470/xrpc/com.atproto.sync.subscribeRepos"
    );
    assert_eq!(
        subscribe_url_with_cursor("bsky.network", Some(0)).unwrap(),
        "wss://bsky.network/xrpc/com.atproto.sync.subscribeRepos"
    );
    assert_eq!(
        subscribe_url_with_cursor("bsky.network", Some(-3)).unwrap(),
        "wss://bsky.network/xrpc/com.atproto.sync.subscribeRepos"
    );
    // the parser normalises the host
    assert_eq!(
        subscribe_url_with_cursor("wss://Relay.Example", Some(7)).unwrap(),
        "wss://relay.example/xrpc/com.atproto.sync.subscribeRepos?cursor=7"
    );
    assert!(matches!(subscribe_url_with_cursor("[::1", Some(1)), Err(AppViewError::Internal(_))));
    assert_eq!(cursor_key("bsky.network"), "firehose:bsky.network");
}

#[test]
fn each_operation_of_a_commit_gets_its_job_in_order() {
    let ops = vec![op("create", Some("bafy1")), op("create", None), op("delete", None), op("merge", Some("x"))];
    let jobs = jobs_for_ops("did:plc:r", "bafyc", "rev1", &ops);
    assert_eq!(jobs.len(), 4);
    match &jobs[0] {
        Some(j) => assert!(matches!(&j.operation, IndexOperation::Create { cid, .. } if cid == "bafy1")),
        None => panic!("create with a cid makes a job"),
    }
    assert!(jobs[1].is_none());
    assert!(matches!(jobs[2].as_ref().map(|j| &j.operation), Some(IndexOperation::Delete { .. })));
    assert!(jobs[3].is_none());
}

fn subject_label(uri: &str, val: &str) -> Label {
    Label { src: "did:plc:mod".into(), uri: uri.into(), cid: None, val: val.into(), neg: false, cts: "2024-01-01T00:00:00Z".into() }
}

#[test]
fn label_cache_reads_back_what_was_filled_until_invalidated() {
    let mut cache = LabelCache::new();
    assert!(cache.get("at://a").is_none());
    cache.fill("at://a", &[subject_label("at://a", "spam"), subject_label("at://a", "nsfw")]);
    cache.fill("at://b", &[subject_label("at://b", "gore")]);
    let a = cache.get("at://a").expect("filled");
    assert_eq!(a.len(), 2);
    assert_eq!(a[0].val, "spam");
    assert_eq!(a[1].val, "nsfw");
    cache.fill("at://a", &[]);
    assert_eq!(cache.get("at://a").expect("refilled").len(), 0);
    cache.invalidate("at://a");
    assert!(cache.get("at://a").is_none());
    assert_eq!(cache.get("at://b").expect("kept")[0].val, "gore");
}

fn unix_now() -> i64 {
    std::time::SystemTime::now().duration_since(std::time::UNIX_EPOCH).unwrap().as_secs() as i64
}

fn make_jwt(header_alg: &str, sub: &str, exp_offset: i64) -> String {
    let now = unix_now();
    let header = format!("{{\"alg\":\"{header_alg}\",\"typ\":\"JWT\"}}");
    let payload = format!("{{\"sub\":\"{sub}\",\"iat\":{now},\"exp\":{}}}", now + exp_offset);
    let engine = base64::engine::general_purpose::URL_SAFE_NO_PAD;
    let h = engine.encode(header.as_bytes());
    let p = engine.encode(payload.as_bytes());
    format!("{h}.{p}.fakesig")
}

/// The library's payload decoding and expiry check around the JSON parse
/// that the server makes.
fn decode_token(token: &str) -> Result<Claims, AppViewError> {
    let payload = token_payload(token)?;
    let v: serde_json::Value = serde_json::from_slice(&payload)
        .map_err(|e| AppViewError::Auth(format!("malformed JWT payload: {e}")))?;
    let claims = Claims {
        sub: v["sub"].as_str().unwrap_or_default().to_string(),
        iat: v["iat"].as_i64().unwrap_or_default(),
        exp: v["exp"].as_i64().unwrap_or_default(),
        scope: v["scope"].as_str().unwrap_or_default().to_string(),
    };
    check_expiry(claims, unix_now())
}

#[test]
fn accepts_es256k_token() {
    let token = make_jwt("ES256K", "did:plc:abc123", 3600);
    let claims = decode_token(&token).expect("should accept ES256K token");
    assert_eq!(claims.sub, "did:plc:abc123");
}

#[test]
fn accepts_hs256_token() {
    let token = make_jwt("HS256", "did:plc:abc123", 3600);
    let claims = decode_token(&token).expect("should accept HS256 token");
    assert_eq!(claims.sub, "did:plc:abc123");
}

#[test]
fn rejects_expired_token() {
    let token = make_jwt("ES256K", "did:plc:abc123", -100);
    let result = decode_token(&token);
    assert!(result.is_err());
    assert!(result.unwrap_err().message().contains("expired"));
}

#[test]
fn rejects_malformed_token() {
    let result = decode_token("not.a.real.token");
    assert!(result.is_err());
}

#[test]
fn rejects_one_segment_token() {
    let result = decode_token("onlyone");
    assert!(result.is_err());
}

#[test]
fn header_and_signature_do_not_matter() {
    let t1 = make_jwt("ES256K", "did:plc:abc123", 3600);
    let payload = t1.split('.').nth(1).unwrap();
    let t2 = format!("eyJhbGciOiJIUzI1NiJ9.{payload}.other-signature");
    assert_eq!(token_payload(&t1).unwrap(), token_payload(&t2).unwrap());
    assert_eq!(decode_token(&t1).unwrap().sub, decode_token(&t2).unwrap().sub);
}

#[test]
fn label_reads_fill_the_cache_only_when_they_succeed() {
    let mut cache = LabelCache::new();
    let failed = cache.record_load("at://a", Err(AppViewError::Storage("failed to load labels: down".to_string())));
    assert!(matches!(failed, Err(AppViewError::Storage(_))));
    assert!(cache.get("at://a").is_none());
    let loaded = cache.record_load("at://a", Ok(vec![subject_label("at://a", "spam")])).expect("loaded");
    assert_eq!(loaded[0].val, "spam");
    assert_eq!(cache.get("at://a").expect("cached")[0].val, "spam");
    cache.invalidate("at://a");
    assert!(cache.get("at://a").is_none());
}
