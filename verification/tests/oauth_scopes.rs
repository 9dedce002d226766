use rsky_appview::scopes::known::{ATPROTO, TRANSITION_CHAT_BSKY, TRANSITION_GENERIC};
use rsky_appview::scopes::{scope_permits_xrpc, OAuthScope, ScopeError, ScopeSet};

#[test]
fn parses_single_scope() {
    let sc = OAuthScope::from_str("atproto").unwrap();
    assert!(sc.is_atproto());
}

#[test]
fn rejects_empty_scope() {
    assert!(OAuthScope::from_str("").is_err());
}

#[test]
fn rejects_whitespace_scope() {
    assert!(OAuthScope::from_str("a b").is_err());
}

#[test]
fn scope_set_deduplicates() {
    let set = ScopeSet::parse("atproto atproto com.atproto.repo.createRecord").unwrap();
    assert_eq!(set.len(), 2);
}

#[test]
fn scope_set_roundtrips() {
    let s = "atproto transition:generic";
    let set = ScopeSet::parse(s).unwrap();
    let back = set.to_scope_string();
    assert_eq!(back, "atproto transition:generic");
}

#[test]
fn scope_permits_xrpc_via_atproto() {
    let granted = ScopeSet::parse("atproto").unwrap();
    assert!(scope_permits_xrpc(&granted, "com.atproto.repo.createRecord"));
}

#[test]
fn scope_permits_xrpc_via_nsid() {
    let granted = ScopeSet::parse("com.atproto.repo.createRecord").unwrap();
    assert!(scope_permits_xrpc(&granted, "com.atproto.repo.createRecord"));
    assert!(!scope_permits_xrpc(&granted, "com.atproto.repo.deleteRecord"));
}

#[test]
fn subset_check() {
    let full = ScopeSet::parse("atproto transition:generic").unwrap();
    let sub = ScopeSet::parse("atproto").unwrap();
    assert!(sub.is_subset_of(&full));
    assert!(!full.is_subset_of(&sub));
}

#[test]
fn from_str_reports_which_error() {
    assert!(matches!(OAuthScope::from_str(""), Err(ScopeError::Empty)));
    match OAuthScope::from_str("a\tb") {
        Err(ScopeError::ContainsWhitespace(t)) => assert_eq!(t, "a\tb"),
        _ => panic!("expected ContainsWhitespace"),
    }
    match OAuthScope::from_str("x\u{3000}y") {
        Err(ScopeError::ContainsWhitespace(_)) => {}
        _ => panic!("ideographic space is white space"),
    }
}

#[test]
fn error_messages() {
    assert_eq!(ScopeError::Empty.message(), "scope token must not be empty");
    assert_eq!(
        ScopeError::ContainsWhitespace("a b".to_string()).message(),
        "scope token must not contain whitespace: \"a b\""
    );
    assert_eq!(ScopeError::Invalid("q".to_string()).message(), "invalid scope: q");
}

#[test]
fn transition_scopes() {
    let t = OAuthScope::from_str(TRANSITION_GENERIC).unwrap();
    assert!(t.is_transition());
    assert!(!t.is_atproto());
    let c = OAuthScope::from_str(TRANSITION_CHAT_BSKY).unwrap();
    assert!(c.is_transition());
    let a = OAuthScope::from_str(ATPROTO).unwrap();
    assert!(!a.is_transition());
    assert_eq!(a.as_str(), "atproto");
}

#[test]
fn parse_splits_on_any_white_space_and_sorts() {
    let set = ScopeSet::parse("  zeta\talpha\n\nbeta  alpha ").unwrap();
    assert_eq!(set.len(), 3);
    assert_eq!(set.to_scope_string(), "alpha beta zeta");
    let names: Vec<&str> = set.iter().iter().map(|s| s.as_str()).collect();
    assert_eq!(names, vec!["alpha", "beta", "zeta"]);
}

#[test]
fn parse_empty_gives_empty_set() {
    let set = ScopeSet::parse("   ").unwrap();
    assert!(set.is_empty());
    assert_eq!(set.to_scope_string(), "");
    assert!(ScopeSet::new().is_empty());
}

#[test]
fn insert_reports_novelty() {
    let mut set = ScopeSet::new();
    assert!(set.insert(OAuthScope::from_str("b").unwrap()));
    assert!(set.insert(OAuthScope::from_str("a").unwrap()));
    assert!(!set.insert(OAuthScope::from_str("b").unwrap()));
    assert_eq!(set.len(), 2);
    assert!(set.contains(&OAuthScope::from_str("a").unwrap()));
    assert!(!set.contains(&OAuthScope::from_str("c").unwrap()));
    assert!(set.contains_str("b"));
    assert_eq!(set.to_scope_string(), "a b");
}

#[test]
fn roundtrip_law_on_values() {
    let set = ScopeSet::parse("c b a b").unwrap();
    let again = ScopeSet::parse(&set.to_scope_string()).unwrap();
    assert_eq!(again.to_scope_string(), set.to_scope_string());
    assert_eq!(again.len(), 3);
}

#[test]
fn permits_grows_with_grants() {
    let small = ScopeSet::parse("com.example.a").unwrap();
    let big = ScopeSet::parse("com.example.a com.example.b").unwrap();
    assert!(small.is_subset_of(&big));
    assert!(scope_permits_xrpc(&small, "com.example.a"));
    assert!(scope_permits_xrpc(&big, "com.example.a"));
    assert!(!scope_permits_xrpc(&small, "com.example.b"));
    assert!(scope_permits_xrpc(&big, "com.example.b"));
}

#[test]
fn insertion_grows_the_set_once_per_scope() {
    let mut set = ScopeSet::new();
    assert_eq!(set.len(), 0);
    assert!(set.insert(OAuthScope::from_str("atproto").unwrap()));
    assert_eq!(set.len(), 1);
    assert!(!set.insert(OAuthScope::from_str("atproto").unwrap()));
    assert_eq!(set.len(), 1);
    assert!(set.insert(OAuthScope::from_str("transition:generic").unwrap()));
    assert_eq!(set.len(), 2);
}

#[test]
fn subset_is_a_partial_order_that_bounds_size() {
    let a = ScopeSet::parse("atproto").unwrap();
    let b = ScopeSet::parse("atproto transition:generic").unwrap();
    let c = ScopeSet::parse("transition:chat.bsky atproto transition:generic").unwrap();
    assert!(a.is_subset_of(&a));
    assert!(ScopeSet::new().is_subset_of(&a));
    assert!(a.is_subset_of(&b) && b.is_subset_of(&c) && a.is_subset_of(&c));
    assert!(!b.is_subset_of(&a));
    assert!(a.len() <= b.len() && b.len() <= c.len());
    let b2 = ScopeSet::parse("transition:generic atproto").unwrap();
    assert!(b.is_subset_of(&b2) && b2.is_subset_of(&b));
    assert_eq!(b.to_scope_string(), b2.to_scope_string());
}

#[test]
fn whitespace_errors_quote_the_token_as_debug_does() {
    for token in ["a\tb", "a\nb", "x \"y\" z", "back\\slash ", "nul\0 ", "bell\u{7} ", "del\u{7f} ", "esc\u{1b} ", "caf\u{e9} ", "nb\u{a0}sp", "zw\u{200b} ", "e\u{301} ", "\u{301}x ", "it's "] {
        assert_eq!(
            ScopeError::ContainsWhitespace(token.to_string()).message(),
            format!("scope token must not contain whitespace: {:?}", token)
        );
    }
    assert_eq!(
        ScopeError::ContainsWhitespace("a\tb".to_string()).message(),
        "scope token must not contain whitespace: \"a\\tb\""
    );
}
