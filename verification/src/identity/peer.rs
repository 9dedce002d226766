//! `did:peer` nuance 0: single-key ephemeral DIDs.

use vstd::prelude::*;
use crate::clock::{elapsed_ms, instant_now};
use crate::identity::capability::{DidCapability, DidError, DidResolution, ResolutionMetadata};
use crate::identity::document::{is_single_key_document, single_key_document, DidDocument};
use crate::text::{chars_of, has_prefix, string_from_chars, str_starts_with, to_string};

verus! {

broadcast use vstd::string::group_string_axioms;

/// The message of the error for a did:peer with nuance `ident` (the text
/// after `did:peer:`) other than 0.
pub open spec fn unsupported_nuance_message(ident: Seq<char>) -> Seq<char> {
    "did:peer nuance '"@ + (if ident.len() > 0 { seq![ident[0]] } else { seq!['?'] })
        + "' is not supported; only nuance 0 is implemented"@
}

/// What `synthesise_nuance0` answers for `did`: `Ok(key)` with the
/// multibase key it carries, or `Err(message)` of the `MalformedDocument`
/// error that refuses it.
pub open spec fn nuance0_outcome(did: Seq<char>) -> Result<Seq<char>, Seq<char>> {
    if !has_prefix(did, "did:peer:"@) {
        Err("not a did:peer DID: "@ + did)
    } else {
        let ident = did.skip(9);
        if ident.len() == 0 || ident[0] != '0' {
            Err(unsupported_nuance_message(ident))
        } else if ident.len() == 1 {
            Err("did:peer:0 has no key material"@)
        } else {
            Ok(ident.skip(1))
        }
    }
}

/// `r` is a resolution of the `did:peer` `did`: it succeeds exactly for
/// nuance 0 with key material, with the document derived from the key, and
/// fails with the `MalformedDocument` that `nuance0_outcome` names otherwise.
pub open spec fn peer_resolution_ok(did: Seq<char>, r: Result<DidResolution, DidError>) -> bool {
    &&& (r is Ok) <==> nuance0_outcome(did) is Ok
    &&& r matches Ok(res) ==> res.did@ == did && is_single_key_document(
        res.document,
        did,
        did + "#key-1"@,
        nuance0_outcome(did)->Ok_0,
    ) && res.metadata.method@ == "peer"@ && !res.metadata.cached && res.metadata.http_status is None
    &&& r matches Err(e) ==> e matches DidError::MalformedDocument(m) && nuance0_outcome(did)
        == Err::<Seq<char>, Seq<char>>(m@)
}

/// Resolver for `did:peer` nuance 0 (`did:peer:0<multibase-encoded-key>`).
///
/// Nuances 1, 2 and 4 need out-of-band exchange and are refused. No network
/// call is made: the document is derived from the key. `did:peer` is never
/// permitted as `AccountIdentity` or `OrgIdentity`.
#[derive(Debug)]
pub struct DidPeerResolver;

impl DidPeerResolver {
    pub fn new() -> (r: DidPeerResolver) {
        DidPeerResolver
    }

    /// The method this resolver handles.
    pub fn method(&self) -> (r: &'static str)
        ensures
            r@ == "peer"@,
    {
        "peer"
    }

    /// Derives the document of a nuance-0 `did:peer`.
    pub fn synthesise_nuance0(did: &str) -> (r: Result<DidDocument, DidError>)
        ensures
            nuance0_outcome(did@) is Ok <==> r is Ok,
            r matches Ok(doc) ==> is_single_key_document(
                doc,
                did@,
                did@ + "#key-1"@,
                nuance0_outcome(did@)->Ok_0,
            ),
            r matches Err(e) ==> e matches DidError::MalformedDocument(m) && nuance0_outcome(
                did@,
            ) == Err::<Seq<char>, Seq<char>>(m@),
    {
        proof {
            reveal_strlit("did:peer:");
        }
        if !str_starts_with(did, "did:peer:") {
            let mut m = to_string("not a did:peer DID: ");
            m.append(did);
            return Err(DidError::MalformedDocument(m));
        }
        let cs = chars_of(did);
        let ident_s = did.substring_char(9, cs.len());
        let ident = chars_of(ident_s);
        let ghost id = did@.skip(9);
        assert(ident@ == id);
        if ident.len() == 0 || ident[0] != '0' {
            let mut m = to_string("did:peer nuance '");
            let first: char = if ident.len() > 0 { ident[0] } else { '?' };
            let mut fv: Vec<char> = Vec::new();
            fv.push(first);
            let fs = string_from_chars(&fv);
            m.append(fs.as_str());
            m.append("' is not supported; only nuance 0 is implemented");
            assert(fv@ =~= (if id.len() > 0 { seq![id[0]] } else { seq!['?'] }));
            return Err(DidError::MalformedDocument(m));
        }
        if ident.len() == 1 {
            return Err(DidError::MalformedDocument(to_string("did:peer:0 has no key material")));
        }
        let key = ident_s.substring_char(1, ident.len());
        assert(key@ =~= id.skip(1));
        let mut vm_id = to_string(did);
        vm_id.append("#key-1");
        Ok(single_key_document(did, vm_id, key))
    }

    /// Resolves a nuance-0 `did:peer` to its derived document.
    pub fn resolve(&self, did: &str) -> (r: Result<DidResolution, DidError>)
        ensures
            peer_resolution_ok(did@, r),
    {
        let start = instant_now();
        let document = Self::synthesise_nuance0(did)?;
        Ok(DidResolution {
            did: to_string(did),
            document,
            metadata: ResolutionMetadata {
                duration_ms: elapsed_ms(&start),
                method: to_string("peer"),
                cached: false,
                http_status: None,
            },
        })
    }

    /// `did:peer` is refused as an account or organisation identity.
    pub fn validate_for_capability(&self, _resolution: &DidResolution, capability: &DidCapability) -> (r: Result<(), DidError>)
        ensures
            r is Ok <==> !(*capability == DidCapability::AccountIdentity || *capability
                == DidCapability::OrgIdentity),
            r matches Err(e) ==> e matches DidError::MethodNotPermitted(m, c) && m@ == "peer"@ && c
                == *capability,
    {
        match capability {
            DidCapability::AccountIdentity | DidCapability::OrgIdentity => Err(
                DidError::MethodNotPermitted(to_string("peer"), *capability),
            ),
            _ => Ok(()),
        }
    }
}

} // verus!
