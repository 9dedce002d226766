//! The composite resolver: it dispatches a DID to the resolver registered
//! for its method. Its decisions are made here: which method a DID names,
//! whether a tier permits it, what a cache hit resolves to, what to fetch,
//! and what a fetch or a time-out comes to. Fetching, timing and caching are
//! the caller's.

use vstd::prelude::*;
use crate::identity::capability::{
    law_ephemeral_methods_never_account, permitted_methods_of, resolution_from_fetch, DidCapability,
    DidError, DidResolution, Fetched,
    ResolutionMetadata,
};
use crate::identity::document::DidDocument;
use crate::identity::key::{key_resolution_ok, DidKeyResolver};
use crate::identity::peer::{peer_resolution_ok, DidPeerResolver};
use crate::identity::plc::DidPlcResolver;
use crate::identity::profile::profile_validation_ok;
use crate::identity::web::{web_document_url, DidWebResolver};
use vstd::string::StringSliceAdditionalSpecFns;
use crate::identity::common::uri_encoded;
use crate::text::{chars_of, find_char, first_index_of, is_first_index, str_eq, to_string};

verus! {

broadcast use vstd::string::group_string_axioms;

/// The method of `did` (`did:<method>:<id>`), or `None` when `did` has fewer
/// than three `:`-separated parts or does not begin with `did`.
pub open spec fn did_method_of(did: Seq<char>) -> Option<Seq<char>> {
    let i = first_index_of(did, ':');
    if i == did.len() {
        None
    } else {
        let rest = did.skip(i + 1);
        let j = first_index_of(rest, ':');
        if j == rest.len() || did.take(i) != "did"@ {
            None
        } else {
            Some(rest.take(j))
        }
    }
}

/// Parses the method out of `did:<method>:<id>`.
pub fn parse_method(did: &str) -> (r: Result<&str, DidError>)
    ensures
        r matches Ok(m) ==> did_method_of(did@) == Some(m@),
        r is Ok <==> did_method_of(did@) is Some,
        r matches Err(e) ==> e matches DidError::MalformedDocument(t) && t@ == "not a valid DID: "@
            + did@,
{
    let cs = chars_of(did);
    let i = find_char(&cs, ':');
    if i < cs.len() {
        let rest = did.substring_char(i + 1, cs.len());
        let rs = chars_of(rest);
        let j = find_char(&rs, ':');
        let head = did.substring_char(0, i);
        if j < rs.len() && str_eq(head, "did") {
            return Ok(rest.substring_char(0, j));
        }
    }
    let mut m = to_string("not a valid DID: ");
    m.append(did);
    Err(DidError::MalformedDocument(m))
}

/// Checks, before anything is resolved, that `did` names a method that
/// `capability` permits; returns that method.
pub fn permitted_method<'a>(did: &'a str, capability: &DidCapability) -> (r: Result<&'a str, DidError>)
    ensures
        r matches Ok(m) ==> did_method_of(did@) == Some(m@) && permitted_methods_of(
            *capability,
        ).contains(m@),
        r is Ok <==> (did_method_of(did@) matches Some(m) && permitted_methods_of(
            *capability,
        ).contains(m)),
        r matches Err(DidError::MethodNotPermitted(m, c)) ==> did_method_of(did@) == Some(m@)
            && c == *capability,
        r matches Err(DidError::MalformedDocument(_)) <==> did_method_of(did@) is None,
        r matches Err(DidError::MalformedDocument(t)) ==> t@ == "not a valid DID: "@ + did@,
        r is Err ==> (r matches Err(DidError::MethodNotPermitted(_, _)) || r matches Err(
            DidError::MalformedDocument(_),
        )),
{
    let method = parse_method(did)?;
    if !capability.permits(method) {
        return Err(DidError::MethodNotPermitted(to_string(method), *capability));
    }
    Ok(method)
}

/// The resolution a cache hit stands for: zero duration, marked cached.
pub fn hit_to_resolution(did: &str, method: &str, doc: DidDocument) -> (r: DidResolution)
    ensures
        r.did@ == did@,
        r.document == doc,
        r.metadata.duration_ms == 0,
        r.metadata.method@ == method@,
        r.metadata.cached,
        r.metadata.http_status is None,
{
    DidResolution {
        did: to_string(did),
        document: doc,
        metadata: ResolutionMetadata {
            duration_ms: 0,
            method: to_string(method),
            cached: true,
            http_status: None,
        },
    }
}

/// The four built-in method names differ from each other.
proof fn lemma_method_names_distinct()
    ensures
        "key"@ != "peer"@,
        "key"@ != "plc"@,
        "key"@ != "web"@,
        "peer"@ != "plc"@,
        "peer"@ != "web"@,
        "plc"@ != "web"@,
{
    reveal_strlit("key");
    reveal_strlit("peer");
    reveal_strlit("plc");
    reveal_strlit("web");
    assert("key"@.len() != "peer"@.len());
    assert("key"@[0] != "plc"@[0]);
    assert("key"@[0] != "web"@[0]);
    assert("peer"@.len() != "plc"@.len());
    assert("peer"@.len() != "web"@.len());
    assert("plc"@[0] != "web"@[0]);
}

/// The `Duration` of `ms` milliseconds.
pub uninterp spec fn duration_of_millis(ms: u64) -> std::time::Duration;

/// `Duration::from_millis`; its result is tied to `duration_of_millis`.
#[verifier::external_body]
fn millis_duration(ms: u64) -> (r: std::time::Duration)
    ensures
        r == duration_of_millis(ms),
{
    std::time::Duration::from_millis(ms)
}

/// A resolver for one of the built-in methods, as it is registered.
#[derive(Debug)]
pub enum BuiltinResolver {
    Plc(DidPlcResolver),
    Web(DidWebResolver),
    Key(DidKeyResolver),
    Peer(DidPeerResolver),
}

/// The method a built-in resolver handles.
pub open spec fn builtin_method(r: BuiltinResolver) -> Seq<char> {
    match r {
        BuiltinResolver::Plc(_) => "plc"@,
        BuiltinResolver::Web(_) => "web"@,
        BuiltinResolver::Key(_) => "key"@,
        BuiltinResolver::Peer(_) => "peer"@,
    }
}

/// Dispatches DID resolution to the resolver registered for the DID's
/// method; at most one resolver per method.
#[derive(Debug)]
pub struct CompositeDidResolver {
    pub plc: Option<DidPlcResolver>,
    pub web: Option<DidWebResolver>,
    pub key: Option<DidKeyResolver>,
    pub peer: Option<DidPeerResolver>,
    /// Maximum resolution time enforced at this layer (milliseconds).
    pub timeout_ms: u64,
}

/// The next move of a resolution.
#[derive(Debug)]
pub enum ResolveStep {
    /// The resolution is over.
    Done(Result<DidResolution, DidError>),
    /// Fetch the document at `url` within the time limit, then hand what
    /// came back to `finish` with `method`.
    Fetch { method: String, url: String },
}

impl CompositeDidResolver {
    /// Whether a resolver is registered for method `m`.
    pub open spec fn registered(&self, m: Seq<char>) -> bool {
        ||| m == "plc"@ && self.plc is Some
        ||| m == "web"@ && self.web is Some
        ||| m == "key"@ && self.key is Some
        ||| m == "peer"@ && self.peer is Some
    }

    /// A resolver with no method registered.
    pub fn new(timeout_ms: u64) -> (r: CompositeDidResolver)
        ensures
            r.timeout_ms == timeout_ms,
            forall|m: Seq<char>| !r.registered(m),
    {
        CompositeDidResolver { plc: None, web: None, key: None, peer: None, timeout_ms }
    }

    /// Registers `resolver` for the method it handles, replacing any
    /// resolver registered for that method.
    pub fn register(&mut self, resolver: BuiltinResolver)
        ensures
            final(self).timeout_ms == old(self).timeout_ms,
            forall|m: Seq<char>| #[trigger] final(self).registered(m) <==> (old(self).registered(m)
                || m == builtin_method(resolver)),
            resolver matches BuiltinResolver::Plc(p) ==> final(self).plc == Some(p)
                && final(self).web == old(self).web,
            resolver matches BuiltinResolver::Web(w) ==> final(self).web == Some(w)
                && final(self).plc == old(self).plc,
            resolver is Key || resolver is Peer ==> final(self).plc == old(self).plc
                && final(self).web == old(self).web,
    {
        match resolver {
            BuiltinResolver::Plc(p) => self.plc = Some(p),
            BuiltinResolver::Web(w) => self.web = Some(w),
            BuiltinResolver::Key(k) => self.key = Some(k),
            BuiltinResolver::Peer(p) => self.peer = Some(p),
        }
    }

    /// A resolver with all four built-in methods registered: `did:plc`
    /// against `plc_url`, `did:web`, `did:key` and `did:peer`; the network
    /// resolvers time out after `timeout_ms`.
    pub fn with_all_methods(plc_url: String, timeout_ms: u64) -> (r: CompositeDidResolver)
        ensures
            r.timeout_ms == timeout_ms,
            r.registered("plc"@) && r.registered("web"@) && r.registered("key"@)
                && r.registered("peer"@),
            r.plc matches Some(p) && p.plc_url@ == plc_url@ && p.timeout == duration_of_millis(
                timeout_ms,
            ),
            r.web matches Some(w) && w.timeout == duration_of_millis(timeout_ms),
    {
        let timeout = millis_duration(timeout_ms);
        let mut resolver = Self::new(timeout_ms);
        resolver.register(BuiltinResolver::Plc(DidPlcResolver::new(plc_url, timeout)));
        resolver.register(BuiltinResolver::Web(DidWebResolver::new(timeout)));
        resolver.register(BuiltinResolver::Key(DidKeyResolver::new()));
        resolver.register(BuiltinResolver::Peer(DidPeerResolver::new()));
        resolver
    }

    /// `r` is the first step of resolving `did` with `cached` as the cache's
    /// unexpired document for it (see `begin`).
    pub open spec fn begin_step_ok(&self, did: &str, cached: Option<DidDocument>, r: ResolveStep) -> bool {
        &&& did_method_of(did@) is None ==> (r matches ResolveStep::Done(Err(
            DidError::MalformedDocument(t),
        )) && t@ == "not a valid DID: "@ + did@)
        &&& did_method_of(did@) matches Some(m) ==> match cached {
            Some(doc) => r matches ResolveStep::Done(Ok(res)) && res.did@ == did@
                && res.document == doc && res.metadata.duration_ms == 0
                && res.metadata.method@ == m && res.metadata.cached
                && res.metadata.http_status is None,
            None => if !self.registered(m) {
                r matches ResolveStep::Done(Err(DidError::UnsupportedMethod(t))) && t@ == m
            } else if m == "key"@ {
                r matches ResolveStep::Done(k) && key_resolution_ok(did@, k)
            } else if m == "peer"@ {
                r matches ResolveStep::Done(k) && peer_resolution_ok(did@, k)
            } else if m == "plc"@ {
                r matches ResolveStep::Fetch { method, url } && method@ == "plc"@ && url@
                    == self.plc->Some_0.plc_url@ + "/"@ + uri_encoded(did.spec_bytes())
            } else {
                match web_document_url(did@) {
                    Ok(u) => r matches ResolveStep::Fetch { method, url } && method@ == "web"@
                        && url@ == u,
                    Err(_) => r matches ResolveStep::Done(Err(DidError::NetworkError(_))),
                }
            },
        }
    }

    /// The first step of resolving `did`, given the cache's unexpired
    /// document for it, if any. A DID that is not one is refused; a cached
    /// document answers at once; a method with no resolver is unsupported;
    /// `did:key` and `did:peer` are derived here; `did:plc` and `did:web`
    /// are to be fetched.
    pub fn begin(&self, did: &str, cached: Option<DidDocument>) -> (r: ResolveStep)
        ensures
            self.begin_step_ok(did, cached, r),
    {
        proof {
            lemma_method_names_distinct();
        }
        let method = match parse_method(did) {
            Ok(m) => m,
            Err(e) => return ResolveStep::Done(Err(e)),
        };
        if let Some(doc) = cached {
            return ResolveStep::Done(Ok(hit_to_resolution(did, method, doc)));
        }
        if str_eq(method, "key") {
            match &self.key {
                Some(k) => return ResolveStep::Done(k.resolve(did)),
                None => {},
            }
        } else if str_eq(method, "peer") {
            match &self.peer {
                Some(p) => return ResolveStep::Done(p.resolve(did)),
                None => {},
            }
        } else if str_eq(method, "plc") {
            match &self.plc {
                Some(p) => return ResolveStep::Fetch {
                    method: to_string("plc"),
                    url: p.document_url(did),
                },
                None => {},
            }
        } else if str_eq(method, "web") {
            if self.web.is_some() {
                proof {
                    assert(did@.contains(':')) by {
                        let t = did@;
                        assert(exists|i: int| is_first_index(t, ':', i));
                        let i = choose|i: int| is_first_index(t, ':', i);
                        assert(t[i] == ':');
                    }
                }
                return match DidWebResolver::document_url(did) {
                    Ok(url) => ResolveStep::Fetch { method: to_string("web"), url },
                    Err(e) => ResolveStep::Done(Err(e)),
                };
            }
        }
        ResolveStep::Done(Err(DidError::UnsupportedMethod(to_string(method))))
    }

    /// `r` is the first step of resolving `did` for `capability` (see
    /// `begin_for_capability`).
    pub open spec fn capability_step_ok(
        &self,
        did: &str,
        capability: DidCapability,
        cached: Option<DidDocument>,
        r: ResolveStep,
    ) -> bool {
        &&& did_method_of(did@) is None ==> (r matches ResolveStep::Done(Err(
            DidError::MalformedDocument(t),
        )) && t@ == "not a valid DID: "@ + did@)
        &&& did_method_of(did@) matches Some(m) ==> if permitted_methods_of(capability).contains(m) {
            self.begin_step_ok(did, cached, r)
        } else {
            r matches ResolveStep::Done(Err(DidError::MethodNotPermitted(t, c))) && t@ == m && c
                == capability
        }
    }

    /// The first step of resolving `did` for `capability`: its method must
    /// be permitted for the tier before anything is resolved.
    pub fn begin_for_capability(
        &self,
        did: &str,
        capability: &DidCapability,
        cached: Option<DidDocument>,
    ) -> (r: ResolveStep)
        ensures
            self.capability_step_ok(did, *capability, cached, r),
    {
        match permitted_method(did, capability) {
            Ok(_) => self.begin(did, cached),
            Err(e) => ResolveStep::Done(Err(e)),
        }
    }

    /// What a fetch for `did` by `method` came to, the whole resolution
    /// having taken `duration_ms`.
    pub fn finish(&self, did: &str, method: &str, fetched: Fetched, duration_ms: u64) -> (r: Result<
        DidResolution,
        DidError,
    >)
        ensures
            fetched is Missing <==> (r matches Err(DidError::NotFound(d)) && d@ == did@),
            fetched matches Fetched::Malformed(m) ==> (r matches Err(DidError::MalformedDocument(t))
                && t@ == m@),
            fetched matches Fetched::Failed(m) ==> (r matches Err(DidError::NetworkError(t)) && t@
                == m@),
            fetched matches Fetched::Document(doc) ==> (r matches Ok(res) && res.did@ == did@
                && res.document == doc && res.metadata.duration_ms == duration_ms
                && res.metadata.method@ == method@ && !res.metadata.cached
                && res.metadata.http_status is None),
    {
        resolution_from_fetch(did, method, fetched, duration_ms)
    }

    /// A finished resolution timed by this layer: a success that was not
    /// served from the cache takes `duration_ms`; anything else is kept.
    pub fn timed(&self, r: Result<DidResolution, DidError>, duration_ms: u64) -> (out: Result<
        DidResolution,
        DidError,
    >)
        ensures
            match r {
                Ok(res) => if !res.metadata.cached {
                    out matches Ok(o) && o.did == res.did && o.document == res.document
                        && o.metadata.duration_ms == duration_ms && o.metadata.method
                        == res.metadata.method && !o.metadata.cached && o.metadata.http_status
                        == res.metadata.http_status
                } else {
                    out == r
                },
                Err(_) => out == r,
            },
    {
        match r {
            Ok(mut res) => {
                if !res.metadata.cached {
                    res.metadata.duration_ms = duration_ms;
                }
                Ok(res)
            },
            Err(e) => Err(e),
        }
    }

    /// The document a finished resolution leaves in the cache: that of a
    /// success that was not itself served from the cache; none otherwise.
    pub fn to_cache<'a>(&self, r: &'a Result<DidResolution, DidError>) -> (c: Option<&'a DidDocument>)
        ensures
            c == (match r {
                Ok(res) => if !res.metadata.cached { Some(&res.document) } else { None },
                Err(_) => None,
            }),
    {
        match r {
            Ok(res) => if !res.metadata.cached {
                Some(&res.document)
            } else {
                None
            },
            Err(_) => None,
        }
    }

    /// The error of a resolution of `did` that outlived the time limit.
    pub fn timed_out(&self, did: &str) -> (r: DidError)
        ensures
            r matches DidError::Timeout(ms, d) && ms == self.timeout_ms && d@ == did@,
    {
        DidError::Timeout(self.timeout_ms, to_string(did))
    }

    /// Validates a resolution of `did` for `capability` with the resolver
    /// registered for the DID's method: `did:key` and `did:peer` refuse the
    /// identity tiers, the others apply the ATProto profile rules.
    pub fn validate(&self, did: &str, resolution: &DidResolution, capability: &DidCapability) -> (r:
        Result<(), DidError>)
        ensures
            did_method_of(did@) is None ==> r matches Err(DidError::MalformedDocument(_)),
            did_method_of(did@) matches Some(m) ==> if !self.registered(m) {
                r matches Err(DidError::UnsupportedMethod(t)) && t@ == m
            } else if m == "key"@ || m == "peer"@ {
                &&& (r is Ok) <==> !(*capability == DidCapability::AccountIdentity || *capability
                    == DidCapability::OrgIdentity)
                &&& r matches Err(e) ==> e matches DidError::MethodNotPermitted(t, c) && t@ == m
                    && c == *capability
            } else {
                profile_validation_ok(*resolution, *capability, r)
            },
    {
        proof {
            lemma_method_names_distinct();
        }
        let method = parse_method(did)?;
        if str_eq(method, "key") {
            if let Some(k) = &self.key {
                return k.validate_for_capability(resolution, capability);
            }
        } else if str_eq(method, "peer") {
            if let Some(p) = &self.peer {
                return p.validate_for_capability(resolution, capability);
            }
        } else if str_eq(method, "plc") {
            if let Some(p) = &self.plc {
                return p.validate_for_capability(resolution, capability);
            }
        } else if str_eq(method, "web") {
            if let Some(w) = &self.web {
                return w.validate_for_capability(resolution, capability);
            }
        }
        Err(DidError::UnsupportedMethod(to_string(method)))
    }
}

/// A `did:key` or `did:peer` is refused for an account or organisation
/// identity before anything is resolved, fetched or read from the cache.
pub proof fn law_identity_tiers_refuse_ephemeral_dids(
    resolver: CompositeDidResolver,
    did: &str,
    capability: DidCapability,
    cached: Option<DidDocument>,
    r: ResolveStep,
)
    requires
        capability == DidCapability::AccountIdentity || capability == DidCapability::OrgIdentity,
        did_method_of(did@) == Some("key"@) || did_method_of(did@) == Some("peer"@),
        resolver.capability_step_ok(did, capability, cached, r),
    ensures
        r matches ResolveStep::Done(Err(DidError::MethodNotPermitted(m, c))) && c == capability
            && did_method_of(did@) == Some(m@),
{
    law_ephemeral_methods_never_account(capability);
}

} // verus!
