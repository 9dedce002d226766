//! The AT Protocol account profile: constraints beyond bare DID Core validity
//! that keep identities interoperable within the federation.

use vstd::prelude::*;
use crate::identity::capability::{permitted_methods_of, DidCapability, DidError, DidResolution};
use crate::identity::document::{DidDocument, Service, VerificationMethod};
use crate::text::{has_prefix, str_eq, str_starts_with, to_string};

verus! {

broadcast use vstd::string::group_string_axioms;

/// Some service has type `AtprotoPersonalDataServer`.
pub open spec fn has_pds_service(doc: DidDocument) -> bool {
    doc.service matches Some(v) && exists|i: int|
        0 <= i < v@.len() && (#[trigger] v@[i]).type_@ == "AtprotoPersonalDataServer"@
}

/// The document lists at least one verification method.
pub open spec fn has_verification_method(doc: DidDocument) -> bool {
    doc.verification_method matches Some(v) && v@.len() > 0
}

/// Some verification method carries a public key.
pub open spec fn has_public_key(doc: DidDocument) -> bool {
    doc.verification_method matches Some(v) && exists|i: int|
        0 <= i < v@.len() && ((#[trigger] v@[i]).public_key_multibase is Some
            || v@[i].public_key_jwk is Some)
}

/// `a` is a handle URI: it starts with `at://` or `https://`.
pub open spec fn is_handle_uri(a: Seq<char>) -> bool {
    has_prefix(a, "at://"@) || has_prefix(a, "https://"@)
}

/// Some `alsoKnownAs` entry is a handle URI.
pub open spec fn has_handle_alias(doc: DidDocument) -> bool {
    doc.also_known_as matches Some(v) && exists|i: int|
        0 <= i < v@.len() && is_handle_uri((#[trigger] v@[i])@)
}

/// The first account-profile constraint that `r` breaks, as the message of
/// the error that reports it; `None` when it meets them all.
pub open spec fn account_profile_violation(r: DidResolution) -> Option<Seq<char>> {
    let doc = r.document;
    if r.metadata.duration_ms == 0 && !r.metadata.cached {
        Some("resolution duration unknown (not cached and duration is 0)"@)
    } else if !has_pds_service(doc) {
        Some("document must include a service of type AtprotoPersonalDataServer"@)
    } else if !has_verification_method(doc) {
        Some("document must include at least one verificationMethod"@)
    } else if !has_public_key(doc) {
        Some("at least one verificationMethod must carry a public key"@)
    } else if !has_handle_alias(doc) {
        Some("document must have an alsoKnownAs entry for the account handle"@)
    } else {
        None
    }
}

/// The outcome of validating `r` for `c`: a method the tier does not permit
/// is refused first; an account identity must then meet the account profile.
pub open spec fn profile_outcome_ok(r: DidResolution, c: DidCapability) -> bool {
    permitted_methods_of(c).contains(r.metadata.method@) && (c == DidCapability::AccountIdentity
        ==> account_profile_violation(r) is None)
}

fn any_pds_service(v: &Vec<Service>) -> (r: bool)
    ensures
        r == exists|i: int|
            0 <= i < v@.len() && (#[trigger] v@[i]).type_@ == "AtprotoPersonalDataServer"@,
{
    let mut i: usize = 0;
    while i < v.len()
        invariant
            i <= v@.len(),
            forall|j: int| 0 <= j < i ==> (#[trigger] v@[j]).type_@ != "AtprotoPersonalDataServer"@,
        decreases v@.len() - i,
    {
        if str_eq(v[i].type_.as_str(), "AtprotoPersonalDataServer") {
            assert(v@[i as int].type_@ == "AtprotoPersonalDataServer"@);
            return true;
        }
        i = i + 1;
    }
    false
}

fn any_public_key(v: &Vec<VerificationMethod>) -> (r: bool)
    ensures
        r == exists|i: int|
            0 <= i < v@.len() && ((#[trigger] v@[i]).public_key_multibase is Some
                || v@[i].public_key_jwk is Some),
{
    let mut i: usize = 0;
    while i < v.len()
        invariant
            i <= v@.len(),
            forall|j: int|
                0 <= j < i ==> (#[trigger] v@[j]).public_key_multibase is None
                    && v@[j].public_key_jwk is None,
        decreases v@.len() - i,
    {
        if v[i].public_key_multibase.is_some() || v[i].public_key_jwk.is_some() {
            assert(v@[i as int].public_key_multibase is Some || v@[i as int].public_key_jwk is Some);
            return true;
        }
        i = i + 1;
    }
    false
}

fn any_handle_uri(v: &Vec<String>) -> (r: bool)
    ensures
        r == exists|i: int| 0 <= i < v@.len() && is_handle_uri((#[trigger] v@[i])@),
{
    let mut i: usize = 0;
    while i < v.len()
        invariant
            i <= v@.len(),
            forall|j: int| 0 <= j < i ==> !is_handle_uri((#[trigger] v@[j])@),
        decreases v@.len() - i,
    {
        if str_starts_with(v[i].as_str(), "at://") || str_starts_with(v[i].as_str(), "https://") {
            assert(is_handle_uri(v@[i as int]@));
            return true;
        }
        i = i + 1;
    }
    false
}

/// The `ProfileConstraintViolated` error with message `m`.
fn violated(m: &str) -> (r: DidError)
    ensures
        r matches DidError::ProfileConstraintViolated(t) && t@ == m@,
{
    DidError::ProfileConstraintViolated(to_string(m))
}

/// `r` is the profile validator's answer for `res` under `c`: the method
/// must be permitted for `c`, and an account identity must meet the account
/// profile; the first broken rule is reported.
pub open spec fn profile_validation_ok(res: DidResolution, c: DidCapability, r: Result<(), DidError>) -> bool {
    &&& (r is Ok) <==> profile_outcome_ok(res, c)
    &&& r matches Err(DidError::MethodNotPermitted(m, c2)) ==> m@ == res.metadata.method@ && c2 == c
    &&& (r matches Err(DidError::MethodNotPermitted(_, _))) <==> !permitted_methods_of(c).contains(
        res.metadata.method@,
    )
    &&& r matches Err(DidError::ProfileConstraintViolated(m)) ==> c == DidCapability::AccountIdentity
        && account_profile_violation(res) == Some(m@)
    &&& r is Err ==> (r matches Err(DidError::MethodNotPermitted(_, _)) || r matches Err(
        DidError::ProfileConstraintViolated(_),
    ))
}

/// ATProto DID profile validator.
#[derive(Debug)]
pub struct AtprotoAccountDidProfile;

impl AtprotoAccountDidProfile {
    /// Validates a `DidResolution` against the requirements for `capability`.
    pub fn validate(resolution: &DidResolution, capability: &DidCapability) -> (r: Result<(), DidError>)
        ensures
            profile_validation_ok(*resolution, *capability, r),
    {
        let method = &resolution.metadata.method;
        if !capability.permits(method.as_str()) {
            return Err(DidError::MethodNotPermitted(method.clone(), *capability));
        }
        if *capability == DidCapability::AccountIdentity {
            Self::validate_account_identity(resolution)?;
        }
        Ok(())
    }

    /// Checks the account-profile constraints, reporting the first one broken.
    pub fn validate_account_identity(resolution: &DidResolution) -> (r: Result<(), DidError>)
        ensures
            r is Ok <==> account_profile_violation(*resolution) is None,
            r matches Err(e) ==> e matches DidError::ProfileConstraintViolated(m)
                && account_profile_violation(*resolution) == Some(m@),
    {
        let doc = &resolution.document;
        if resolution.metadata.duration_ms == 0 && !resolution.metadata.cached {
            return Err(violated("resolution duration unknown (not cached and duration is 0)"));
        }
        let has_pds = match &doc.service {
            Some(v) => any_pds_service(v),
            None => false,
        };
        if !has_pds {
            return Err(violated("document must include a service of type AtprotoPersonalDataServer"));
        }
        let no_vm = match &doc.verification_method {
            Some(v) => v.len() == 0,
            None => true,
        };
        if no_vm {
            return Err(violated("document must include at least one verificationMethod"));
        }
        let has_key = match &doc.verification_method {
            Some(v) => any_public_key(v),
            None => false,
        };
        if !has_key {
            return Err(violated("at least one verificationMethod must carry a public key"));
        }
        let has_aka = match &doc.also_known_as {
            Some(v) => any_handle_uri(v),
            None => false,
        };
        if !has_aka {
            return Err(violated("document must have an alsoKnownAs entry for the account handle"));
        }
        Ok(())
    }
}

} // verus!
