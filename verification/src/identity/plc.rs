//! `did:plc`: documents are fetched from a PLC directory.

use vstd::prelude::*;
use vstd::string::StringSliceAdditionalSpecFns;
use crate::identity::capability::{DidCapability, DidError, DidResolution};
use crate::identity::common::{encode_uri_component, uri_encoded};
use crate::identity::profile::{profile_validation_ok, AtprotoAccountDidProfile};
use crate::text::to_string;

verus! {

broadcast use vstd::string::group_string_axioms;

/// Resolver for `did:plc` against a PLC directory.
#[derive(Debug)]
pub struct DidPlcResolver {
    /// The directory's base URL.
    pub plc_url: String,
    /// How long a directory request may take.
    pub timeout: std::time::Duration,
}

impl DidPlcResolver {
    pub fn new(plc_url: String, timeout: std::time::Duration) -> (r: DidPlcResolver)
        ensures
            r.plc_url@ == plc_url@,
            r.timeout == timeout,
    {
        DidPlcResolver { plc_url, timeout }
    }

    /// The method this resolver handles.
    pub fn method(&self) -> (r: &'static str)
        ensures
            r@ == "plc"@,
    {
        "plc"
    }

    /// Validates a resolution with the ATProto profile rules.
    pub fn validate_for_capability(&self, resolution: &DidResolution, capability: &DidCapability) -> (r: Result<(), DidError>)
        ensures
            profile_validation_ok(*resolution, *capability, r),
    {
        AtprotoAccountDidProfile::validate(resolution, capability)
    }

    /// The directory URL of `did`'s document: the base URL, `/`, and the
    /// DID as an encoded URI component.
    pub fn document_url(&self, did: &str) -> (r: String)
        ensures
            r@ == self.plc_url@ + "/"@ + uri_encoded(did.spec_bytes()),
    {
        let mut u = self.plc_url.clone();
        u.append("/");
        let enc = encode_uri_component(did);
        u.append(enc.as_str());
        u
    }
}

} // verus!
