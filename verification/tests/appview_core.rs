use rsky_appview::appview::config::{startup_relay_hosts, AppConfig};
use rsky_appview::appview::error::{subscribe_feed_unavailable, AppViewError};
use rsky_appview::appview::types::{AtUri, Cid, Cursor, Did};

#[test]
fn at_uri_parts() {
    let u = AtUri::new("at://did:plc:abc/app.bsky.feed.post/3k2a");
    assert_eq!(u.did(), "did:plc:abc");
    assert_eq!(u.collection(), "app.bsky.feed.post");
    assert_eq!(u.rkey(), "3k2a");
    assert_eq!(u.as_str(), "at://did:plc:abc/app.bsky.feed.post/3k2a");
}

#[test]
fn at_uri_missing_parts() {
    let only_did = AtUri::new("at://did:plc:abc");
    assert_eq!(only_did.did(), "did:plc:abc");
    assert_eq!(only_did.collection(), "");
    assert_eq!(only_did.rkey(), "");
    let no_rkey = AtUri::new("at://did:plc:abc/app.bsky.feed.like");
    assert_eq!(no_rkey.collection(), "app.bsky.feed.like");
    assert_eq!(no_rkey.rkey(), "");
}

#[test]
fn at_uri_without_scheme_and_long_rkey() {
    let u = AtUri::new("did:web:x.com/coll/a/b");
    assert_eq!(u.did(), "did:web:x.com");
    assert_eq!(u.collection(), "coll");
    assert_eq!(u.rkey(), "a/b");
    let s = AtUri::from_string("at://d/c/r".to_string());
    assert_eq!(s.rkey(), "r");
}

#[test]
fn law_at_uri_parts_on_values() {
    let did = "did:plc:zz";
    let coll = "app.bsky.graph.follow";
    let rkey = "k/with/slash";
    let u = AtUri::new(&format!("at://{did}/{coll}/{rkey}"));
    assert_eq!(u.did(), did);
    assert_eq!(u.collection(), coll);
    assert_eq!(u.rkey(), rkey);
}

#[test]
fn identifier_newtypes() {
    assert_eq!(Did::new("did:plc:1").as_str(), "did:plc:1");
    assert_eq!(Cid::new("bafy").as_str(), "bafy");
    assert_eq!(Cursor::new("c1").as_str(), "c1");
}

#[test]
fn error_responses() {
    let e = AppViewError::InvalidRequest("bad".to_string());
    let x = e.to_xrpc();
    assert_eq!((x.status, x.error.as_str(), x.message.as_str()), (400, "InvalidRequest", "bad"));
    let x = AppViewError::AuthMissing.to_xrpc();
    assert_eq!((x.status, x.error.as_str(), x.message.as_str()), (401, "AuthMissing", "Missing authorization header"));
    let x = AppViewError::Auth("expired".to_string()).to_xrpc();
    assert_eq!((x.status, x.error.as_str()), (401, "AuthenticationRequired"));
    assert_eq!(AppViewError::Forbidden.status_code(), 403);
    assert_eq!(AppViewError::NotFound.to_xrpc().message, "Not found");
    assert_eq!(AppViewError::RateLimited.status_code(), 429);
    let x = AppViewError::Database("secret".to_string()).to_xrpc();
    assert_eq!((x.status, x.error.as_str(), x.message.as_str()), (500, "InternalServerError", "Internal server error"));
    let x = AppViewError::Identity("plc down".to_string()).to_xrpc();
    assert_eq!((x.status, x.error.as_str(), x.message.as_str()), (502, "UpstreamError", "Failed to resolve identity: plc down"));
    assert_eq!(AppViewError::UpstreamError("u".to_string()).status_code(), 502);
    assert_eq!(AppViewError::Storage("s".to_string()).error_name(), "InternalServerError");
    assert_eq!(AppViewError::Internal("i".to_string()).response_message(), "Internal server error");
    assert_eq!(AppViewError::AuthRequired.to_xrpc().message, "Authentication required");
}

#[test]
fn error_display_text() {
    assert_eq!(AppViewError::InvalidRequest("x".to_string()).message(), "InvalidRequest: x");
    assert_eq!(AppViewError::Auth("token expired".to_string()).message(), "Auth error: token expired");
    assert_eq!(AppViewError::Database("d".to_string()).message(), "Database error: d");
    assert_eq!(AppViewError::NotFound.message(), "NotFound");
    assert_eq!(AppViewError::Internal("boom".to_string()).message(), "Internal error: boom");
}

fn cfg(relays: Option<&str>, port: Option<&str>) -> AppConfig {
    AppConfig::from_vars(None, None, None, relays.map(String::from), port.map(String::from), None, None, None, None)
}

#[test]
fn config_defaults() {
    let c = cfg(None, None);
    assert_eq!(c.database_url, "postgres://localhost/appview");
    assert_eq!(c.service_did, "did:web:appview.know-me.tools");
    assert_eq!(c.service_hostname, "appview.know-me.tools");
    assert_eq!(c.relay_hosts, vec!["wss://bsky.network".to_string()]);
    assert_eq!(c.metrics_port, 9091);
    assert_eq!(c.livekit_url, "wss://livekit.know-me.tools");
    assert_eq!(c.livekit_api_key, "");
    assert_eq!(c.livekit_api_secret, "");
    assert_eq!(c.rust_log, "info");
}

#[test]
fn config_relay_list_and_port() {
    let c = cfg(Some("wss://a.example, wss://b.example,,"), Some("8080"));
    assert_eq!(c.relay_hosts, vec!["wss://a.example".to_string(), "wss://b.example".to_string()]);
    assert_eq!(c.metrics_port, 8080);
    assert_eq!(cfg(None, Some("+7")).metrics_port, 7);
    assert_eq!(cfg(None, Some("65535")).metrics_port, 65535);
    assert_eq!(cfg(None, Some("65536")).metrics_port, 9091);
    assert_eq!(cfg(None, Some(" 80")).metrics_port, 9091);
    assert_eq!(cfg(None, Some("")).metrics_port, 9091);
    assert_eq!(cfg(None, Some("8o")).metrics_port, 9091);
    let spaces = cfg(Some(" , x "), None);
    assert_eq!(spaces.relay_hosts, vec!["".to_string(), "x".to_string()]);
    let given = AppConfig::from_vars(
        Some("postgres://db/x".into()), Some("did:web:s".into()), Some("s".into()), None, None,
        Some("wss://lk".into()), Some("k".into()), Some("sec".into()), Some("debug".into()),
    );
    assert_eq!(given.database_url, "postgres://db/x");
    assert_eq!(given.livekit_api_secret, "sec");
    assert_eq!(given.rust_log, "debug");
}

#[test]
fn startup_relays_trim_and_drop_blank_pieces() {
    let hosts = startup_relay_hosts(Some(" wss://a.example , ,wss://b.example,".to_string()));
    assert_eq!(hosts, vec!["wss://a.example".to_string(), "wss://b.example".to_string()]);
}

#[test]
fn startup_relays_default_to_bsky_network() {
    assert_eq!(startup_relay_hosts(None), vec!["wss://bsky.network".to_string()]);
}

#[test]
fn feed_subscription_is_not_implemented_yet() {
    let x = subscribe_feed_unavailable();
    assert_eq!(x.status, 501);
    assert_eq!(x.error, "NotImplemented");
    assert_eq!(x.message, "tools.knowme.feed.subscribeFeed is not yet implemented");
}
