//! Capability tiers, resolution results and the DID error type.

use vstd::prelude::*;
use crate::identity::document::DidDocument;
use crate::text::{digits_of, push_digits, str_eq, to_string};

verus! {

broadcast use vstd::string::group_string_axioms;

/// Capability tier that a DID is being validated for.
///
/// Only `AccountIdentity` and `OrgIdentity` are valid for PDS account creation.
/// `AgentIdentity` is permitted for A2A/UAR agent DIDs but not as PDS account identity.
/// `SessionIdentity` and `CredentialIssuer` are reserved for future use.
#[derive(Clone, Copy, Debug, PartialEq, Eq, Structural)]
pub enum DidCapability {
    /// Full AT Protocol account identity: must be did:plc or did:web.
    AccountIdentity,
    /// Organizational identity for app-view services: did:web only.
    OrgIdentity,
    /// Agent identity for A2A/UAR flows: did:key or did:plc.
    AgentIdentity,
    /// Ephemeral session identity: did:key or did:peer.
    SessionIdentity,
    /// Verifiable credential issuer: did:web or did:plc.
    CredentialIssuer,
}

/// The DID methods permitted for a capability tier, in order.
pub open spec fn permitted_methods_of(c: DidCapability) -> Seq<Seq<char>> {
    match c {
        DidCapability::AccountIdentity => seq!["plc"@, "web"@],
        DidCapability::OrgIdentity => seq!["web"@],
        DidCapability::AgentIdentity => seq!["key"@, "plc"@],
        DidCapability::SessionIdentity => seq!["key"@, "peer"@],
        DidCapability::CredentialIssuer => seq!["web"@, "plc"@],
    }
}

/// The tier's name, as its debug form prints it.
pub open spec fn capability_name_of(c: DidCapability) -> Seq<char> {
    match c {
        DidCapability::AccountIdentity => "AccountIdentity"@,
        DidCapability::OrgIdentity => "OrgIdentity"@,
        DidCapability::AgentIdentity => "AgentIdentity"@,
        DidCapability::SessionIdentity => "SessionIdentity"@,
        DidCapability::CredentialIssuer => "CredentialIssuer"@,
    }
}

impl DidCapability {
    /// Returns which DID methods are permitted for this capability tier.
    pub fn permitted_methods(&self) -> (r: Vec<&'static str>)
        ensures
            r@.map_values(|m: &str| m@) == permitted_methods_of(*self),
    {
        let mut v: Vec<&'static str> = Vec::new();
        match self {
            DidCapability::AccountIdentity => {
                v.push("plc");
                v.push("web");
            },
            DidCapability::OrgIdentity => {
                v.push("web");
            },
            DidCapability::AgentIdentity => {
                v.push("key");
                v.push("plc");
            },
            DidCapability::SessionIdentity => {
                v.push("key");
                v.push("peer");
            },
            DidCapability::CredentialIssuer => {
                v.push("web");
                v.push("plc");
            },
        }
        assert(v@.map_values(|m: &str| m@) =~= permitted_methods_of(*self));
        v
    }

    /// Whether `method` is one of the permitted methods.
    pub fn permits(&self, method: &str) -> (r: bool)
        ensures
            r == permitted_methods_of(*self).contains(method@),
    {
        let ms = self.permitted_methods();
        let ghost pm = permitted_methods_of(*self);
        let mut i: usize = 0;
        while i < ms.len()
            invariant
                i <= ms@.len(),
                ms@.map_values(|m: &str| m@) == pm,
                pm == permitted_methods_of(*self),
                pm.len() == ms@.len(),
                forall|j: int| 0 <= j < i ==> pm[j] != method@,
            decreases ms@.len() - i,
        {
            if str_eq(ms[i], method) {
                assert(ms@.map_values(|m: &str| m@)[i as int] == ms@[i as int]@);
                assert(pm[i as int] == method@);
                assert(pm.contains(method@));
                return true;
            }
            i = i + 1;
        }
        false
    }

    /// The tier's name.
    pub fn name(&self) -> (r: &'static str)
        ensures
            r@ == capability_name_of(*self),
    {
        match self {
            DidCapability::AccountIdentity => "AccountIdentity",
            DidCapability::OrgIdentity => "OrgIdentity",
            DidCapability::AgentIdentity => "AgentIdentity",
            DidCapability::SessionIdentity => "SessionIdentity",
            DidCapability::CredentialIssuer => "CredentialIssuer",
        }
    }
}

/// Typed error for DID resolution and profile validation.
#[derive(Debug)]
pub enum DidError {
    MethodNotPermitted(String, DidCapability),
    NotFound(String),
    Timeout(u64, String),
    MalformedDocument(String),
    ProfileConstraintViolated(String),
    UnsupportedMethod(String),
    NetworkError(String),
}

/// `prefix`, then `rest`.
fn concat(prefix: &str, rest: &str) -> (r: String)
    ensures
        r@ == prefix@ + rest@,
{
    let mut s = to_string(prefix);
    s.append(rest);
    s
}

impl DidError {
    /// The error's display text.
    pub fn message(&self) -> (r: String)
        ensures
            self matches DidError::MethodNotPermitted(m, c) ==> r@ == "DID method '"@ + m@
                + "' is not permitted for capability "@ + capability_name_of(*c),
            self matches DidError::NotFound(d) ==> r@ == "DID not found: "@ + d@,
            self matches DidError::MalformedDocument(m) ==> r@ == "DID document is malformed: "@
                + m@,
            self matches DidError::ProfileConstraintViolated(m) ==> r@
                == "ATProto profile constraint violated: "@ + m@,
            self matches DidError::UnsupportedMethod(m) ==> r@ == "Unsupported DID method: "@
                + m@,
            self matches DidError::NetworkError(m) ==> r@ == "DID resolution network error: "@
                + m@,
            self matches DidError::Timeout(ms, d) ==> r@ == "DID resolution timed out after "@
                + digits_of(*ms as nat) + "ms: "@ + d@,
    {
        match self {
            DidError::MethodNotPermitted(m, c) => {
                let mut s = concat("DID method '", m.as_str());
                s.append("' is not permitted for capability ");
                s.append(c.name());
                s
            },
            DidError::NotFound(d) => concat("DID not found: ", d.as_str()),
            DidError::Timeout(ms, d) => {
                let mut s = to_string("DID resolution timed out after ");
                push_digits(&mut s, *ms);
                s.append("ms: ");
                s.append(d.as_str());
                s
            },
            DidError::MalformedDocument(m) => concat("DID document is malformed: ", m.as_str()),
            DidError::ProfileConstraintViolated(m) => concat(
                "ATProto profile constraint violated: ",
                m.as_str(),
            ),
            DidError::UnsupportedMethod(m) => concat("Unsupported DID method: ", m.as_str()),
            DidError::NetworkError(m) => concat("DID resolution network error: ", m.as_str()),
        }
    }
}

/// Metadata about a DID resolution attempt.
#[derive(Debug)]
pub struct ResolutionMetadata {
    /// Wall-clock milliseconds elapsed during resolution.
    pub duration_ms: u64,
    /// The DID method that handled resolution.
    pub method: String,
    /// Whether the result was served from cache.
    pub cached: bool,
    /// HTTP status code if the resolver made a network request.
    pub http_status: Option<u16>,
}

/// Full result of a DID resolution, including the document and metadata.
#[derive(Debug)]
pub struct DidResolution {
    pub did: String,
    pub document: DidDocument,
    pub metadata: ResolutionMetadata,
}


/// What fetching a document gave: the document, a body that is not a DID
/// document (with the parser's message), nothing at the URL, or a failed
/// request (with its message).
#[derive(Debug)]
pub enum Fetched {
    Document(DidDocument),
    Malformed(String),
    Missing,
    Failed(String),
}

/// The outcome of resolving `did` by `method` from what the fetch gave:
/// nothing found is `NotFound`, a bad body `MalformedDocument`, a failed
/// request `NetworkError`, and a document a fresh, uncached resolution that
/// took `duration_ms`.
pub fn resolution_from_fetch(did: &str, method: &str, fetched: Fetched, duration_ms: u64) -> (r: Result<
    DidResolution,
    DidError,
>)
    ensures
        fetched is Missing <==> (r matches Err(DidError::NotFound(d)) && d@ == did@),
        fetched matches Fetched::Malformed(m) ==> (r matches Err(DidError::MalformedDocument(t))
            && t@ == m@),
        fetched matches Fetched::Failed(m) ==> (r matches Err(DidError::NetworkError(t)) && t@
            == m@),
        fetched matches Fetched::Document(doc) ==> (r matches Ok(res) && res.did@ == did@
            && res.document == doc && res.metadata.duration_ms == duration_ms
            && res.metadata.method@ == method@ && !res.metadata.cached
            && res.metadata.http_status is None),
{
    match fetched {
        Fetched::Missing => Err(DidError::NotFound(to_string(did))),
        Fetched::Malformed(m) => Err(DidError::MalformedDocument(m)),
        Fetched::Failed(m) => Err(DidError::NetworkError(m)),
        Fetched::Document(document) => Ok(DidResolution {
            did: to_string(did),
            document,
            metadata: ResolutionMetadata {
                duration_ms,
                method: to_string(method),
                cached: false,
                http_status: None,
            },
        }),
    }
}

/// `did:key` and `did:peer` are never permitted as an account or an
/// organisation identity.
pub proof fn law_ephemeral_methods_never_account(c: DidCapability)
    requires
        c == DidCapability::AccountIdentity || c == DidCapability::OrgIdentity,
    ensures
        !permitted_methods_of(c).contains("key"@),
        !permitted_methods_of(c).contains("peer"@),
{
    reveal_strlit("key");
    reveal_strlit("peer");
    reveal_strlit("plc");
    reveal_strlit("web");
    let p = permitted_methods_of(c);
    assert forall|i: int| 0 <= i < p.len() implies p[i] != "key"@ && p[i] != "peer"@ by {
        assert(p[i] == "plc"@ || p[i] == "web"@);
        assert("plc"@[0] != "key"@[0]);
        assert("web"@[0] != "key"@[0]);
        assert("plc"@[1] != "peer"@[1]);
        assert("web"@[0] != "peer"@[0]);
    }
}

} // verus!
