use rsky_appview::identity::capability::{resolution_from_fetch, DidCapability, DidError, DidResolution, Fetched, ResolutionMetadata};
use rsky_appview::identity::common::{decode_uri_component, encode_uri_component};
use rsky_appview::identity::composite::{hit_to_resolution, parse_method, permitted_method, BuiltinResolver, CompositeDidResolver, ResolveStep};
use rsky_appview::identity::document::{DidDocument, Service, VerificationMethod, VerificationMethodRef};
use rsky_appview::identity::key::DidKeyResolver;
use rsky_appview::identity::peer::DidPeerResolver;
use rsky_appview::identity::plc::DidPlcResolver;
use rsky_appview::identity::profile::AtprotoAccountDidProfile;
use rsky_appview::identity::web::DidWebResolver;
use std::time::Duration;

fn empty_doc(id: &str) -> DidDocument {
    DidDocument {
        context: None,
        id: id.to_string(),
        also_known_as: None,
        verification_method: None,
        authentication: None,
        assertion_method: None,
        capability_invocation: None,
        capability_delegation: None,
        service: None,
    }
}

fn account_doc() -> DidDocument {
    let mut d = empty_doc("did:plc:abc");
    d.service = Some(vec![Service {
        id: "#atproto_pds".to_string(),
        type_: "AtprotoPersonalDataServer".to_string(),
        service_endpoint: "https://pds.example".to_string(),
    }]);
    d.verification_method = Some(vec![VerificationMethod {
        id: "did:plc:abc#atproto".to_string(),
        type_: "Multikey".to_string(),
        controller: "did:plc:abc".to_string(),
        public_key_multibase: Some("zQ3sh".to_string()),
        public_key_jwk: None,
    }]);
    d.also_known_as = Some(vec!["at://alice.example".to_string()]);
    d
}

fn resolution(method: &str, doc: DidDocument, duration_ms: u64, cached: bool) -> DidResolution {
    DidResolution {
        did: doc.id.clone(),
        document: doc,
        metadata: ResolutionMetadata { duration_ms, method: method.to_string(), cached, http_status: None },
    }
}

fn violation(r: Result<(), DidError>) -> String {
    match r {
        Err(DidError::ProfileConstraintViolated(m)) => m,
        _ => panic!("expected a profile violation"),
    }
}

#[test]
fn permitted_methods_per_tier() {
    assert_eq!(DidCapability::AccountIdentity.permitted_methods(), vec!["plc", "web"]);
    assert_eq!(DidCapability::OrgIdentity.permitted_methods(), vec!["web"]);
    assert_eq!(DidCapability::AgentIdentity.permitted_methods(), vec!["key", "plc"]);
    assert_eq!(DidCapability::SessionIdentity.permitted_methods(), vec!["key", "peer"]);
    assert_eq!(DidCapability::CredentialIssuer.permitted_methods(), vec!["web", "plc"]);
    assert!(!DidCapability::AccountIdentity.permits("key"));
    assert!(DidCapability::SessionIdentity.permits("peer"));
}

#[test]
fn profile_accepts_complete_account() {
    let r = resolution("plc", account_doc(), 12, false);
    assert!(AtprotoAccountDidProfile::validate(&r, &DidCapability::AccountIdentity).is_ok());
    let cached = resolution("plc", account_doc(), 0, true);
    assert!(AtprotoAccountDidProfile::validate_account_identity(&cached).is_ok());
}

#[test]
fn profile_reports_first_violation() {
    let r = resolution("plc", account_doc(), 0, false);
    assert_eq!(violation(AtprotoAccountDidProfile::validate_account_identity(&r)),
        "resolution duration unknown (not cached and duration is 0)");
    let mut d = account_doc();
    d.service = Some(vec![]);
    assert_eq!(violation(AtprotoAccountDidProfile::validate_account_identity(&resolution("plc", d, 5, false))),
        "document must include a service of type AtprotoPersonalDataServer");
    let mut d = account_doc();
    d.verification_method = Some(vec![]);
    assert_eq!(violation(AtprotoAccountDidProfile::validate_account_identity(&resolution("plc", d, 5, false))),
        "document must include at least one verificationMethod");
    let mut d = account_doc();
    d.verification_method.as_mut().unwrap()[0].public_key_multibase = None;
    assert_eq!(violation(AtprotoAccountDidProfile::validate_account_identity(&resolution("plc", d, 5, false))),
        "at least one verificationMethod must carry a public key");
    let mut d = account_doc();
    d.also_known_as = Some(vec!["mailto:x".to_string()]);
    assert_eq!(violation(AtprotoAccountDidProfile::validate_account_identity(&resolution("plc", d, 5, false))),
        "document must have an alsoKnownAs entry for the account handle");
    let mut d = account_doc();
    d.also_known_as = Some(vec!["https://alice.example".to_string()]);
    assert!(AtprotoAccountDidProfile::validate_account_identity(&resolution("plc", d, 5, false)).is_ok());
}

#[test]
fn profile_refuses_unpermitted_method() {
    let r = resolution("key", account_doc(), 5, false);
    match AtprotoAccountDidProfile::validate(&r, &DidCapability::AccountIdentity) {
        Err(DidError::MethodNotPermitted(m, c)) => {
            assert_eq!(m, "key");
            assert_eq!(c, DidCapability::AccountIdentity);
        }
        _ => panic!("expected MethodNotPermitted"),
    }
    // other tiers skip the account profile
    let bare = resolution("key", empty_doc("did:key:z"), 0, false);
    assert!(AtprotoAccountDidProfile::validate(&bare, &DidCapability::AgentIdentity).is_ok());
    let msg = DidError::MethodNotPermitted("key".to_string(), DidCapability::OrgIdentity).message();
    assert_eq!(msg, "DID method 'key' is not permitted for capability OrgIdentity");
}

#[test]
fn peer_nuance0_document() {
    let doc = DidPeerResolver::synthesise_nuance0("did:peer:0z6Mkabc").unwrap();
    assert_eq!(doc.id, "did:peer:0z6Mkabc");
    let vm = &doc.verification_method.as_ref().unwrap()[0];
    assert_eq!(vm.id, "did:peer:0z6Mkabc#key-1");
    assert_eq!(vm.type_, "Multikey");
    assert_eq!(vm.public_key_multibase.as_deref(), Some("z6Mkabc"));
    match &doc.authentication.as_ref().unwrap()[0] {
        VerificationMethodRef::Reference(r) => assert_eq!(r, "did:peer:0z6Mkabc#key-1"),
        _ => panic!("expected a reference"),
    }
    assert_eq!(doc.context.as_ref().unwrap().len(), 2);
    assert!(doc.service.is_none());
}

fn malformed(r: Result<DidDocument, DidError>) -> String {
    match r {
        Err(DidError::MalformedDocument(m)) => m,
        _ => panic!("expected MalformedDocument"),
    }
}

#[test]
fn peer_refusals() {
    assert_eq!(malformed(DidPeerResolver::synthesise_nuance0("did:key:zabc")), "not a did:peer DID: did:key:zabc");
    assert_eq!(malformed(DidPeerResolver::synthesise_nuance0("did:peer:2abc")),
        "did:peer nuance '2' is not supported; only nuance 0 is implemented");
    assert_eq!(malformed(DidPeerResolver::synthesise_nuance0("did:peer:")),
        "did:peer nuance '?' is not supported; only nuance 0 is implemented");
    assert_eq!(malformed(DidPeerResolver::synthesise_nuance0("did:peer:0")), "did:peer:0 has no key material");
    let p = DidPeerResolver::new();
    assert_eq!(p.method(), "peer");
    let res = p.resolve("did:peer:0zK").unwrap();
    assert_eq!(res.metadata.method, "peer");
    assert!(!res.metadata.cached);
    assert!(p.validate_for_capability(&res, &DidCapability::AccountIdentity).is_err());
    assert!(p.validate_for_capability(&res, &DidCapability::SessionIdentity).is_ok());
}

#[test]
fn key_document_and_refusals() {
    let did = "did:key:zQ3shqwJEJyMBsBXCWyCBpUBMqxcon9oHB7mCvx4sSpMdLJwc";
    let doc = DidKeyResolver::synthesise_document(did).unwrap();
    let vm = &doc.verification_method.as_ref().unwrap()[0];
    assert_eq!(vm.id, format!("{did}#zQ3shqwJEJyMBsBXCWyCBpUBMqxcon9oHB7mCvx4sSpMdLJwc"));
    assert_eq!(vm.public_key_multibase.as_deref(), Some("zQ3shqwJEJyMBsBXCWyCBpUBMqxcon9oHB7mCvx4sSpMdLJwc"));
    let p256 = "did:key:zDnaembgSGUhZULN2Caob4HLJPaxBh92N7rtH21TErzqf8HQo";
    assert!(DidKeyResolver::synthesise_document(p256).is_ok());
    assert_eq!(malformed(DidKeyResolver::synthesise_document("did:plc:x")),
        "did:key parse error: Incorrect prefix for did:key: did:plc:x");
    assert_eq!(malformed(DidKeyResolver::synthesise_document("did:key:Qabc")),
        "did:key parse error: Incorrect prefix for multikey: Qabc");
    let k = DidKeyResolver::new();
    assert_eq!(k.method(), "key");
    let res = k.resolve(did).unwrap();
    assert!(k.validate_for_capability(&res, &DidCapability::OrgIdentity).is_err());
    assert!(k.validate_for_capability(&res, &DidCapability::AgentIdentity).is_ok());
}

#[test]
fn method_parsing() {
    assert_eq!(parse_method("did:plc:abc").unwrap(), "plc");
    assert_eq!(parse_method("did:web:a:b").unwrap(), "web");
    assert!(parse_method("did:plc").is_err());
    assert!(parse_method("xyz:plc:abc").is_err());
    match parse_method("nope") {
        Err(DidError::MalformedDocument(m)) => assert_eq!(m, "not a valid DID: nope"),
        _ => panic!(),
    }
    assert_eq!(permitted_method("did:web:x.com", &DidCapability::OrgIdentity).unwrap(), "web");
    assert!(matches!(permitted_method("did:plc:x", &DidCapability::OrgIdentity), Err(DidError::MethodNotPermitted(_, _))));
    let hit = hit_to_resolution("did:plc:q", "plc", empty_doc("did:plc:q"));
    assert!(hit.metadata.cached);
    assert_eq!(hit.metadata.duration_ms, 0);
}

#[test]
fn uri_components() {
    assert_eq!(encode_uri_component("did:plc:abc"), "did%3Aplc%3Aabc");
    assert_eq!(encode_uri_component("a b/é~*'()!"), "a%20b%2F%C3%A9~*'()!");
    assert_eq!(decode_uri_component("did%3Aplc%3aabc").unwrap(), "did:plc:abc");
    assert_eq!(decode_uri_component("100%").unwrap(), "100%");
    assert_eq!(decode_uri_component("%C3%A9").unwrap(), "é");
    assert!(decode_uri_component("%FF").is_none());
}

#[test]
fn plc_and_web_locations() {
    let plc = DidPlcResolver::new("https://plc.directory".to_string(), Duration::from_secs(5));
    assert_eq!(plc.document_url("did:plc:abc"), "https://plc.directory/did%3Aplc%3Aabc");
    assert_eq!(plc.method(), "plc");
    assert_eq!(DidWebResolver::document_path("did:web:example.com").unwrap(), "example.com/.well-known/did.json");
    assert_eq!(DidWebResolver::document_path("did:web:localhost%3A8080").unwrap(), "localhost:8080/.well-known/did.json");
    assert!(DidWebResolver::document_path("did:web:example.com:user").is_err());
    assert_eq!(DidWebResolver::scheme_for_host(Some("localhost")), "http");
    assert_eq!(DidWebResolver::scheme_for_host(Some("example.com")), "https");
    assert_eq!(DidWebResolver::scheme_for_host(None), "https");
    assert_eq!(DidWebResolver::new(Duration::from_secs(1)).method(), "web");
}

#[test]
fn timeout_message_names_the_milliseconds() {
    let e = DidError::Timeout(5000, "did:plc:abc".to_string());
    assert_eq!(e.message(), "DID resolution timed out after 5000ms: did:plc:abc");
}

#[test]
fn fetched_documents_become_fresh_resolutions() {
    let r = resolution_from_fetch("did:plc:abc", "plc", Fetched::Document(empty_doc("did:plc:abc")), 42)
        .expect("a document resolves");
    assert_eq!(r.did, "did:plc:abc");
    assert_eq!(r.document.id, "did:plc:abc");
    assert_eq!(r.metadata.duration_ms, 42);
    assert_eq!(r.metadata.method, "plc");
    assert!(!r.metadata.cached);
    assert!(r.metadata.http_status.is_none());
}

#[test]
fn missing_and_malformed_fetches_are_errors() {
    match resolution_from_fetch("did:web:x.test", "web", Fetched::Missing, 1) {
        Err(DidError::NotFound(d)) => assert_eq!(d, "did:web:x.test"),
        other => panic!("unexpected: {other:?}"),
    }
    match resolution_from_fetch("did:web:x.test", "web", Fetched::Malformed("bad".to_string()), 1) {
        Err(DidError::MalformedDocument(m)) => assert_eq!(m, "bad"),
        other => panic!("unexpected: {other:?}"),
    }
}

#[test]
fn composite_fetches_plc_and_web_documents() {
    let c = CompositeDidResolver::with_all_methods("https://plc.directory".to_string(), 5000);
    match c.begin("did:plc:abc123", None) {
        ResolveStep::Fetch { method, url } => {
            assert_eq!(method, "plc");
            assert_eq!(url, "https://plc.directory/did%3Aplc%3Aabc123");
        }
        other => panic!("unexpected: {other:?}"),
    }
    match c.begin("did:web:example.com", None) {
        ResolveStep::Fetch { method, url } => {
            assert_eq!(method, "web");
            assert_eq!(url, "https://example.com/.well-known/did.json");
        }
        other => panic!("unexpected: {other:?}"),
    }
    match c.begin("did:web:localhost%3A8080", None) {
        ResolveStep::Fetch { url, .. } => assert_eq!(url, "http://localhost:8080/.well-known/did.json"),
        other => panic!("unexpected: {other:?}"),
    }
}

#[test]
fn composite_answers_cache_hits_and_refuses_unknown_methods() {
    let c = CompositeDidResolver::with_all_methods("https://plc.directory".to_string(), 5000);
    match c.begin("did:plc:abc", Some(empty_doc("did:plc:abc"))) {
        ResolveStep::Done(Ok(r)) => {
            assert!(r.metadata.cached);
            assert_eq!(r.metadata.duration_ms, 0);
            assert_eq!(r.metadata.method, "plc");
        }
        other => panic!("unexpected: {other:?}"),
    }
    match c.begin("did:ion:xyz", None) {
        ResolveStep::Done(Err(DidError::UnsupportedMethod(m))) => assert_eq!(m, "ion"),
        other => panic!("unexpected: {other:?}"),
    }
    match c.begin("not-a-did", None) {
        ResolveStep::Done(Err(DidError::MalformedDocument(m))) => assert_eq!(m, "not a valid DID: not-a-did"),
        other => panic!("unexpected: {other:?}"),
    }
    let empty = CompositeDidResolver::new(5000);
    match empty.begin("did:plc:abc", None) {
        ResolveStep::Done(Err(DidError::UnsupportedMethod(m))) => assert_eq!(m, "plc"),
        other => panic!("unexpected: {other:?}"),
    }
}

#[test]
fn composite_derives_key_documents_and_refuses_them_for_accounts() {
    let mut c = CompositeDidResolver::new(1000);
    c.register(BuiltinResolver::Key(DidKeyResolver::new()));
    let did = "did:key:zQ3shqwJEJyMBsBXCWyCBpUBMqxcon9oHB7mCvx4sSpMdLJwc";
    match c.begin(did, None) {
        ResolveStep::Done(Ok(r)) => assert_eq!(r.metadata.method, "key"),
        other => panic!("unexpected: {other:?}"),
    }
    match c.begin_for_capability(did, &DidCapability::AccountIdentity, None) {
        ResolveStep::Done(Err(DidError::MethodNotPermitted(m, cap))) => {
            assert_eq!(m, "key");
            assert_eq!(cap, DidCapability::AccountIdentity);
        }
        other => panic!("unexpected: {other:?}"),
    }
}

#[test]
fn composite_finishes_fetches_and_time_outs() {
    let c = CompositeDidResolver::with_all_methods("https://plc.directory".to_string(), 5000);
    let r = c.finish("did:plc:abc", "plc", Fetched::Document(account_doc()), 12).expect("resolves");
    assert_eq!(r.metadata.duration_ms, 12);
    assert!(c.validate("did:plc:abc", &r, &DidCapability::AccountIdentity).is_ok());
    match c.finish("did:plc:abc", "plc", Fetched::Failed("connection refused".to_string()), 3) {
        Err(DidError::NetworkError(m)) => assert_eq!(m, "connection refused"),
        other => panic!("unexpected: {other:?}"),
    }
    match c.timed_out("did:plc:abc") {
        DidError::Timeout(ms, d) => {
            assert_eq!(ms, 5000);
            assert_eq!(d, "did:plc:abc");
        }
        other => panic!("unexpected: {other:?}"),
    }
}

#[test]
fn composite_resolvers_share_the_time_limit() {
    let c = CompositeDidResolver::with_all_methods("https://plc.example".to_string(), 2500);
    let plc = c.plc.as_ref().expect("plc is registered");
    assert_eq!(plc.plc_url, "https://plc.example");
    assert_eq!(plc.timeout, Duration::from_millis(2500));
    assert_eq!(c.web.as_ref().expect("web is registered").timeout, Duration::from_millis(2500));
    assert!(c.key.is_some() && c.peer.is_some());
}

#[test]
fn successful_resolutions_are_marked_for_the_cache() {
    let c = CompositeDidResolver::with_all_methods("https://plc.directory".to_string(), 5000);
    let fetched = c.finish("did:plc:abc", "plc", Fetched::Document(account_doc()), 12);
    let doc = c.to_cache(&fetched).expect("a fetched document is cached");
    assert_eq!(doc.id, "did:plc:abc");
    let key = "did:key:zQ3shqwJEJyMBsBXCWyCBpUBMqxcon9oHB7mCvx4sSpMdLJwc";
    match c.begin(key, None) {
        ResolveStep::Done(r) => {
            let doc = c.to_cache(&r).expect("a derived key document is cached");
            assert_eq!(doc.id, key);
        }
        other => panic!("unexpected: {other:?}"),
    }
    match c.begin("did:plc:abc", Some(account_doc())) {
        ResolveStep::Done(r) => {
            assert!(r.as_ref().unwrap().metadata.cached);
            assert!(c.to_cache(&r).is_none());
        }
        other => panic!("unexpected: {other:?}"),
    }
    let failed = c.finish("did:plc:abc", "plc", Fetched::Missing, 1);
    assert!(c.to_cache(&failed).is_none());
}

#[test]
fn the_composite_layer_times_fresh_resolutions_only() {
    let c = CompositeDidResolver::with_all_methods("https://plc.directory".to_string(), 5000);
    let key = "did:key:zQ3shqwJEJyMBsBXCWyCBpUBMqxcon9oHB7mCvx4sSpMdLJwc";
    match c.begin(key, None) {
        ResolveStep::Done(r) => {
            let t = c.timed(r, 42).expect("resolves");
            assert_eq!(t.metadata.duration_ms, 42);
            assert_eq!(t.metadata.method, "key");
            assert!(!t.metadata.cached);
        }
        other => panic!("unexpected: {other:?}"),
    }
    match c.begin("did:plc:abc", Some(account_doc())) {
        ResolveStep::Done(r) => {
            let t = c.timed(r, 42).expect("cache hit");
            assert_eq!(t.metadata.duration_ms, 0);
            assert!(t.metadata.cached);
        }
        other => panic!("unexpected: {other:?}"),
    }
    let missing = c.finish("did:plc:abc", "plc", Fetched::Missing, 1);
    assert!(matches!(c.timed(missing, 42), Err(DidError::NotFound(_))));
}

#[test]
fn did_web_parts_are_decoded_before_a_path_is_refused() {
    match DidWebResolver::document_path("did:web:example.com%FF:user") {
        Err(DidError::NetworkError(m)) => assert!(m.starts_with("poorly formatted did:web identifier: ")),
        other => panic!("unexpected: {other:?}"),
    }
    match DidWebResolver::document_path("did:web:example.com:user") {
        Err(DidError::NetworkError(m)) => assert_eq!(m, "unsupported did:web path: did:web:example.com:user"),
        other => panic!("unexpected: {other:?}"),
    }
}
