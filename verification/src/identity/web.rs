//! `did:web`: documents are served at `https://<domain>/.well-known/did.json`.

use vstd::prelude::*;
use vstd::string::StringSliceAdditionalSpecFns;
use vstd::utf8::{decode_utf8, valid_utf8};
use crate::identity::capability::{DidCapability, DidError, DidResolution};
use crate::identity::profile::{profile_validation_ok, AtprotoAccountDidProfile};
use crate::identity::common::{decode_uri_component, percent_decoded};
use crate::text::{chars_of, find_char, first_index_of, opt_view, str_eq, to_string};

verus! {

broadcast use vstd::string::group_string_axioms;

/// The path under which a `did:web` document is served.
pub const DOC_PATH: &'static str = "/.well-known/did.json";

/// The identifier of a `did:web`: everything after its second `:`, or
/// nothing when it has only one.
pub open spec fn web_identifier(did: Seq<char>) -> Seq<char> {
    let i = first_index_of(did, ':');
    let rest = did.skip(i + 1);
    let j = first_index_of(rest, ':');
    if j == rest.len() {
        Seq::empty()
    } else {
        rest.skip(j + 1)
    }
}

/// The characters that the percent-encoded text `s` decodes to, when its
/// bytes form UTF-8.
pub open spec fn decoded_component(s: Seq<char>) -> Option<Seq<char>> {
    let b = percent_decoded(vstd::utf8::encode_utf8(s));
    if valid_utf8(b) {
        Some(decode_utf8(b))
    } else {
        None
    }
}

/// The host-and-path that a `did:web` is fetched from, or `None` when its
/// identifier names a sub-path (holds a `:`) or does not decode.
pub open spec fn web_document_path(did: Seq<char>) -> Option<Seq<char>> {
    let id = web_identifier(did);
    if id.contains(':') {
        None
    } else {
        match decoded_component(id) {
            Some(d) => Some(d + "/.well-known/did.json"@),
            None => None,
        }
    }
}

/// The host that the `url` crate parses out of `url` (`None` for a URL
/// without one), or the parser's message when it refuses the text.
pub uninterp spec fn url_host_of(url: Seq<char>) -> Result<Option<Seq<char>>, Seq<char>>;

/// Parses `url` with `url::Url::parse` and takes its `host_str`; keeps the
/// parser's message when it refuses the text. The result is tied to
/// `url_host_of`; nothing more is claimed of the parser.
#[verifier::external_body]
fn parse_url_host(url: &str) -> (r: Result<Option<String>, String>)
    ensures
        r matches Ok(h) ==> url_host_of(url@) is Ok && url_host_of(url@)->Ok_0 == opt_view(h),
        r matches Err(m) ==> url_host_of(url@) is Err && url_host_of(url@)->Err_0 == m@,
{
    match url::Url::parse(url) {
        Ok(u) => Ok(u.host_str().map(String::from)),
        Err(e) => Err(e.to_string()),
    }
}

/// The scheme a document is fetched with from `host`: plain `http` for
/// `localhost`, `https` otherwise.
pub open spec fn scheme_of_host(host: Option<Seq<char>>) -> Seq<char> {
    if host == Some("localhost"@) {
        "http"@
    } else {
        "https"@
    }
}

/// The URL the document of a `did:web` is fetched from, or the message of
/// the network error that refuses it.
pub open spec fn web_document_url(did: Seq<char>) -> Result<Seq<char>, Seq<char>> {
    match web_document_path(did) {
        None => Err(Seq::empty()),
        Some(p) => match url_host_of("https://"@ + p) {
            Err(m) => Err(m),
            Ok(h) => Ok(scheme_of_host(h) + "://"@ + p),
        },
    }
}

/// Resolver for `did:web`.
#[derive(Debug)]
pub struct DidWebResolver {
    /// How long a document request may take.
    pub timeout: std::time::Duration,
}

impl DidWebResolver {
    pub fn new(timeout: std::time::Duration) -> (r: DidWebResolver)
        ensures
            r.timeout == timeout,
    {
        DidWebResolver { timeout }
    }

    /// The method this resolver handles.
    pub fn method(&self) -> (r: &'static str)
        ensures
            r@ == "web"@,
    {
        "web"
    }

    /// Validates a resolution with the ATProto profile rules.
    pub fn validate_for_capability(&self, resolution: &DidResolution, capability: &DidCapability) -> (r: Result<(), DidError>)
        ensures
            profile_validation_ok(*resolution, *capability, r),
    {
        AtprotoAccountDidProfile::validate(resolution, capability)
    }

    /// The host and path to fetch the document of `did` from (the URL is
    /// `https://` followed by it). Errors are reported as the network errors
    /// that resolution turns them into.
    pub fn document_path(did: &str) -> (r: Result<String, DidError>)
        requires
            did@.contains(':'),
        ensures
            r matches Ok(p) ==> web_document_path(did@) == Some(p@),
            r is Ok <==> web_document_path(did@) is Some,
            r matches Err(e) ==> e is NetworkError,
    {
        let cs = chars_of(did);
        let n = cs.len();
        let i = find_char(&cs, ':');
        assert(i < n);
        let rest = did.substring_char(i + 1, n);
        let rs = chars_of(rest);
        let j = find_char(&rs, ':');
        let id: &str = if j == rs.len() {
            proof {
                reveal_strlit("");
            }
            ""
        } else {
            rest.substring_char(j + 1, rs.len())
        };
        assert(id@ == web_identifier(did@));
        let ids = chars_of(id);
        let k = find_char(&ids, ':');
        if k < ids.len() {
            assert(id@.contains(':')) by {
                assert(id@[k as int] == ':');
            }
            // Every part is decoded before the path is refused, so a bad
            // encoding is reported first.
            if decode_uri_component(id).is_none() {
                let mut m = to_string("poorly formatted did:web identifier: ");
                m.append(did);
                return Err(DidError::NetworkError(m));
            }
            let mut m = to_string("unsupported did:web path: ");
            m.append(did);
            return Err(DidError::NetworkError(m));
        }
        assert(!id@.contains(':'));
        match decode_uri_component(id) {
            Some(d) => {
                let mut p = d;
                p.append(DOC_PATH);
                Ok(p)
            },
            None => {
                let mut m = to_string("poorly formatted did:web identifier: ");
                m.append(did);
                Err(DidError::NetworkError(m))
            },
        }
    }

    /// The URL to fetch the document of `did` from: `https://` and its
    /// document path, or `http://` when the path's host is `localhost`.
    pub fn document_url(did: &str) -> (r: Result<String, DidError>)
        requires
            did@.contains(':'),
        ensures
            r is Ok <==> web_document_url(did@) is Ok,
            r matches Ok(u) ==> web_document_url(did@) == Ok::<Seq<char>, Seq<char>>(u@),
            r matches Err(e) ==> e is NetworkError,
            web_document_path(did@) is Some ==> (r matches Err(DidError::NetworkError(m))
                ==> web_document_url(did@) == Err::<Seq<char>, Seq<char>>(m@)),
    {
        let path = Self::document_path(did)?;
        let mut probe = to_string("https://");
        probe.append(path.as_str());
        match parse_url_host(probe.as_str()) {
            Err(m) => Err(DidError::NetworkError(m)),
            Ok(host) => {
                let scheme = match &host {
                    Some(h) => Self::scheme_for_host(Some(h.as_str())),
                    None => Self::scheme_for_host(None),
                };
                let mut u = to_string(scheme);
                u.append("://");
                u.append(path.as_str());
                Ok(u)
            },
        }
    }

    /// The scheme to fetch from a host with: plain `http` for `localhost`.
    pub fn scheme_for_host(host: Option<&str>) -> (r: &'static str)
        ensures
            r@ == (if host matches Some(h) && h@ == "localhost"@ {
                "http"@
            } else {
                "https"@
            }),
    {
        match host {
            Some(h) => {
                if str_eq(h, "localhost") {
                    "http"
                } else {
                    "https"
                }
            },
            None => "https",
        }
    }
}

} // verus!
