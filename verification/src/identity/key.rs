//! `did:key`: the document is derived entirely from the encoded public key.

use vstd::prelude::*;
use crate::clock::{elapsed_ms, instant_now};
use crate::identity::capability::{DidCapability, DidError, DidResolution, ResolutionMetadata};
use crate::identity::document::{is_single_key_document, single_key_document, DidDocument};
use crate::text::{chars_of, has_prefix, to_string};

verus! {

broadcast use vstd::string::group_string_axioms;

/// The error text of `rsky_crypto::did::parse_did_key` on `did`, or `None`
/// when the key parses.
pub uninterp spec fn did_key_parse_error(did: Seq<char>) -> Option<Seq<char>>;

/// Calls `rsky_crypto::did::parse_did_key` and keeps its error's text.
/// The contract ties the result to `did_key_parse_error`, and states the two
/// prefix checks that the crate's source makes before decoding: `did:key:`
/// first, then the base58btc marker `z`.
#[verifier::external_body]
fn parse_did_key_error(did: &str) -> (r: Option<String>)
    ensures
        r is None <==> did_key_parse_error(did@) is None,
        r matches Some(m) ==> did_key_parse_error(did@) == Some(m@),
        !has_prefix(did@, "did:key:"@) ==> r is Some && r->Some_0@ == "Incorrect prefix for did:key: "@
            + did@,
        has_prefix(did@, "did:key:"@) && !has_prefix(did@.skip(8), "z"@) ==> r is Some
            && r->Some_0@ == "Incorrect prefix for multikey: "@ + did@.skip(8),
{
    match rsky_crypto::did::parse_did_key(&did.to_string()) {
        Ok(_) => None,
        Err(e) => Some(e.to_string()),
    }
}

/// `r` is a resolution of the `did:key` `did`: it succeeds exactly when the
/// key parses, with the document derived from the key, and fails with
/// `MalformedDocument` otherwise.
pub open spec fn key_resolution_ok(did: Seq<char>, r: Result<DidResolution, DidError>) -> bool {
    &&& (r is Ok) <==> did_key_parse_error(did) is None
    &&& r matches Ok(res) ==> res.did@ == did && is_single_key_document(
        res.document,
        did,
        did + "#"@ + did.skip(8),
        did.skip(8),
    ) && res.metadata.method@ == "key"@ && !res.metadata.cached && res.metadata.http_status is None
    &&& r matches Err(e) ==> e is MalformedDocument
}

/// Resolver for `did:key`, following the did:key specification.
///
/// No network call is made. `did:key` is never permitted as
/// `AccountIdentity` or `OrgIdentity`: it is ephemeral by design.
#[derive(Debug)]
pub struct DidKeyResolver;

impl DidKeyResolver {
    pub fn new() -> (r: DidKeyResolver) {
        DidKeyResolver
    }

    /// The method this resolver handles.
    pub fn method(&self) -> (r: &'static str)
        ensures
            r@ == "key"@,
    {
        "key"
    }

    /// Derives the document of a `did:key` once its key parses: one
    /// `Multikey` method `<did>#<multikey>` carrying the multikey.
    pub fn synthesise_document(did: &str) -> (r: Result<DidDocument, DidError>)
        ensures
            r is Ok <==> did_key_parse_error(did@) is None,
            r matches Ok(doc) ==> has_prefix(did@, "did:key:"@) && is_single_key_document(
                doc,
                did@,
                did@ + "#"@ + did@.skip(8),
                did@.skip(8),
            ),
            r matches Err(e) ==> e matches DidError::MalformedDocument(m) && did_key_parse_error(
                did@,
            ) matches Some(pe) && m@ == "did:key parse error: "@ + pe,
    {
        proof {
            reveal_strlit("did:key:");
            reveal_strlit("z");
        }
        match parse_did_key_error(did) {
            Some(e) => {
                let mut m = to_string("did:key parse error: ");
                m.append(e.as_str());
                return Err(DidError::MalformedDocument(m));
            },
            None => {},
        }
        let n = chars_of(did).len();
        let key = did.substring_char(8, n);
        let mut vm_id = to_string(did);
        vm_id.append("#");
        vm_id.append(key);
        Ok(single_key_document(did, vm_id, key))
    }

    /// Resolves a `did:key` to its derived document.
    pub fn resolve(&self, did: &str) -> (r: Result<DidResolution, DidError>)
        ensures
            key_resolution_ok(did@, r),
    {
        let start = instant_now();
        let document = Self::synthesise_document(did)?;
        Ok(DidResolution {
            did: to_string(did),
            document,
            metadata: ResolutionMetadata {
                duration_ms: elapsed_ms(&start),
                method: to_string("key"),
                cached: false,
                http_status: None,
            },
        })
    }

    /// `did:key` is refused as an account or organisation identity.
    pub fn validate_for_capability(&self, _resolution: &DidResolution, capability: &DidCapability) -> (r: Result<(), DidError>)
        ensures
            r is Ok <==> !(*capability == DidCapability::AccountIdentity || *capability
                == DidCapability::OrgIdentity),
            r matches Err(e) ==> e matches DidError::MethodNotPermitted(m, c) && m@ == "key"@ && c
                == *capability,
    {
        match capability {
            DidCapability::AccountIdentity | DidCapability::OrgIdentity => Err(
                DidError::MethodNotPermitted(to_string("key"), *capability),
            ),
            _ => Ok(()),
        }
    }
}

} // verus!
