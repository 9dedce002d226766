//! The parts of a DID document that resolution and validation read.

use vstd::prelude::*;

verus! {

/// A verification method of a DID document.
#[derive(Clone, Debug)]
pub struct VerificationMethod {
    pub id: String,
    /// The method's `type`.
    pub type_: String,
    pub controller: String,
    pub public_key_multibase: Option<String>,
    /// The `publicKeyJwk` member, as JSON text.
    pub public_key_jwk: Option<String>,
}

/// A verification relationship entry: a reference by id, or an embedded method.
#[derive(Clone, Debug)]
pub enum VerificationMethodRef {
    Reference(String),
    Embedded(VerificationMethod),
}

/// A service entry of a DID document.
#[derive(Clone, Debug)]
pub struct Service {
    pub id: String,
    /// The service's `type`.
    pub type_: String,
    pub service_endpoint: String,
}

/// A DID document.
#[derive(Clone, Debug)]
pub struct DidDocument {
    /// The `@context` entries.
    pub context: Option<Vec<String>>,
    pub id: String,
    pub also_known_as: Option<Vec<String>>,
    pub verification_method: Option<Vec<VerificationMethod>>,
    pub authentication: Option<Vec<VerificationMethodRef>>,
    pub assertion_method: Option<Vec<VerificationMethodRef>>,
    pub capability_invocation: Option<Vec<VerificationMethodRef>>,
    pub capability_delegation: Option<Vec<VerificationMethodRef>>,
    pub service: Option<Vec<Service>>,
}

/// `refs` is exactly one reference to `vm_id`.
pub open spec fn is_single_reference(refs: Option<Vec<VerificationMethodRef>>, vm_id: Seq<char>) -> bool {
    &&& refs is Some
    &&& refs.unwrap()@.len() == 1
    &&& refs.unwrap()@[0] matches VerificationMethodRef::Reference(r) && r@ == vm_id
}

/// The document that a single-key DID (`did:key`, `did:peer:0`) stands for:
/// one `Multikey` method `vm_id` controlled by `did` with multibase key
/// `key`, referenced from every verification relationship, with the DID core
/// and multikey contexts and no services or aliases.
pub open spec fn is_single_key_document(
    doc: DidDocument,
    did: Seq<char>,
    vm_id: Seq<char>,
    key: Seq<char>,
) -> bool {
    &&& doc.context is Some
    &&& doc.context.unwrap()@.len() == 2
    &&& doc.context.unwrap()@[0]@ == "https://www.w3.org/ns/did/v1"@
    &&& doc.context.unwrap()@[1]@ == "https://w3id.org/security/multikey/v1"@
    &&& doc.id@ == did
    &&& doc.also_known_as is None
    &&& doc.verification_method is Some
    &&& doc.verification_method.unwrap()@.len() == 1
    &&& doc.verification_method.unwrap()@[0].id@ == vm_id
    &&& doc.verification_method.unwrap()@[0].type_@ == "Multikey"@
    &&& doc.verification_method.unwrap()@[0].controller@ == did
    &&& doc.verification_method.unwrap()@[0].public_key_multibase matches Some(k) && k@ == key
    &&& doc.verification_method.unwrap()@[0].public_key_jwk is None
    &&& is_single_reference(doc.authentication, vm_id)
    &&& is_single_reference(doc.assertion_method, vm_id)
    &&& is_single_reference(doc.capability_invocation, vm_id)
    &&& is_single_reference(doc.capability_delegation, vm_id)
    &&& doc.service is None
}

/// Exactly one reference to `vm_id`.
fn single_reference(vm_id: &String) -> (r: Option<Vec<VerificationMethodRef>>)
    ensures
        is_single_reference(r, vm_id@),
{
    let mut v: Vec<VerificationMethodRef> = Vec::new();
    v.push(VerificationMethodRef::Reference(vm_id.clone()));
    Some(v)
}

/// Builds the single-key document described by `is_single_key_document`.
pub fn single_key_document(did: &str, vm_id: String, key: &str) -> (r: DidDocument)
    ensures
        is_single_key_document(r, did@, vm_id@, key@),
{
    let mut context: Vec<String> = Vec::new();
    context.push("https://www.w3.org/ns/did/v1".to_owned());
    context.push("https://w3id.org/security/multikey/v1".to_owned());
    let vm = VerificationMethod {
        id: vm_id.clone(),
        type_: "Multikey".to_owned(),
        controller: did.to_owned(),
        public_key_multibase: Some(key.to_owned()),
        public_key_jwk: None,
    };
    let mut vms: Vec<VerificationMethod> = Vec::new();
    vms.push(vm);
    DidDocument {
        context: Some(context),
        id: did.to_owned(),
        also_known_as: None,
        verification_method: Some(vms),
        authentication: single_reference(&vm_id),
        assertion_method: single_reference(&vm_id),
        capability_invocation: single_reference(&vm_id),
        capability_delegation: single_reference(&vm_id),
        service: None,
    }
}

} // verus!
