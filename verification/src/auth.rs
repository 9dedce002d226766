//! Bearer-token authentication. Tokens are JWTs whose signatures are not
//! checked here: AT Protocol AppViews trust PDS-issued tokens by DID key
//! resolution rather than shared secrets. The payload is decoded and its
//! expiry enforced.

use vstd::prelude::*;
use crate::appview::error::AppViewError;
use crate::appview::types::Did;
use crate::text::{chars_of, find_char, first_index_of, has_prefix, lemma_first_index, str_starts_with, to_string};

verus! {

broadcast use vstd::string::group_string_axioms;

/// The claims of an access token.
#[derive(Debug)]
pub struct Claims {
    pub sub: String,
    pub iat: i64,
    pub exp: i64,
    /// The granted scope; empty when the token has none.
    pub scope: String,
}

/// An authenticated viewer.
#[derive(Debug)]
pub struct Viewer {
    pub did: Did,
    pub token: String,
}

/// A viewer when the request carried a valid token.
#[derive(Debug)]
pub struct OptionalViewer(pub Option<Viewer>);

/// What the base64url (no padding) decoding of `s` gives, or `None` when
/// `s` is not such an encoding.
pub uninterp spec fn base64url_nopad_decoded(s: Seq<char>) -> Option<Seq<u8>>;

/// Decodes with the base64 crate's `URL_SAFE_NO_PAD` engine.
#[verifier::external_body]
fn base64url_decode(s: &str) -> (r: Option<Vec<u8>>)
    ensures
        r is None <==> base64url_nopad_decoded(s@) is None,
        r matches Some(b) ==> base64url_nopad_decoded(s@) == Some(b@),
{
    base64::Engine::decode(&base64::engine::general_purpose::URL_SAFE_NO_PAD, s).ok()
}

/// The payload segment of a token with at least two `.`: the text between
/// the first and the second `.`; `None` for fewer.
pub open spec fn jwt_payload_segment(token: Seq<char>) -> Option<Seq<char>> {
    let i = first_index_of(token, '.');
    if i >= token.len() {
        None
    } else {
        let rest = token.skip(i + 1);
        let j = first_index_of(rest, '.');
        if j >= rest.len() {
            None
        } else {
            Some(rest.take(j))
        }
    }
}

/// The decoded payload bytes of a JWT (splitting as `splitn(3, '.')`).
pub fn token_payload(token: &str) -> (r: Result<Vec<u8>, AppViewError>)
    ensures
        jwt_payload_segment(token@) is None ==> (r matches Err(AppViewError::Auth(m)) && m@
            == "malformed JWT: expected 3 segments"@),
        jwt_payload_segment(token@) matches Some(p) ==> match base64url_nopad_decoded(p) {
            Some(b) => r matches Ok(v) && v@ == b,
            None => r matches Err(AppViewError::Auth(m)) && m@
                == "malformed JWT: invalid base64url payload"@,
        },
{
    let cs = chars_of(token);
    let n = cs.len();
    let i = find_char(&cs, '.');
    if i < n {
        let rest = token.substring_char(i + 1, n);
        let rs = chars_of(rest);
        let j = find_char(&rs, '.');
        if j < rs.len() {
            let seg = rest.substring_char(0, j);
            return match base64url_decode(seg) {
                Some(b) => Ok(b),
                None => Err(AppViewError::Auth(to_string("malformed JWT: invalid base64url payload"))),
            };
        }
    }
    Err(AppViewError::Auth(to_string("malformed JWT: expected 3 segments")))
}

/// Refuses claims that expired before `now` (Unix seconds).
pub fn check_expiry(claims: Claims, now: i64) -> (r: Result<Claims, AppViewError>)
    ensures
        claims.exp < now ==> (r matches Err(AppViewError::Auth(m)) && m@ == "token expired"@),
        claims.exp >= now ==> (r matches Ok(c) && c.sub@ == claims.sub@ && c.iat == claims.iat
            && c.exp == claims.exp && c.scope@ == claims.scope@),
{
    if claims.exp < now {
        return Err(AppViewError::Auth(to_string("token expired")));
    }
    Ok(claims)
}

/// The token of an `Authorization` header value of the form `Bearer <token>`.
pub fn bearer_token(header: Option<&str>) -> (r: Option<String>)
    ensures
        match header {
            Some(h) => if has_prefix(h@, "Bearer "@) {
                r matches Some(t) && t@ == h@.skip(7)
            } else {
                r is None
            },
            None => r is None,
        },
{
    proof {
        reveal_strlit("Bearer ");
    }
    match header {
        Some(h) => {
            if str_starts_with(h, "Bearer ") {
                let n = chars_of(h).len();
                Some(to_string(h.substring_char(7, n)))
            } else {
                None
            }
        },
        None => None,
    }
}

/// The viewer that valid claims authenticate, with the token they came in.
pub fn viewer_from_claims(claims: &Claims, token: String) -> (r: Viewer)
    ensures
        r.did@ == claims.sub@,
        r.token@ == token@,
{
    Viewer { did: Did::new(claims.sub.as_str()), token }
}

/// A token's payload is all that decoding reads of it: whatever header and
/// signature (and so whatever algorithm) surround a payload segment, the
/// segment `token_payload` decodes is that payload.
pub proof fn law_payload_alone_is_read(header: Seq<char>, payload: Seq<char>, signature: Seq<char>)
    requires
        !header.contains('.'),
        !payload.contains('.'),
    ensures
        jwt_payload_segment(header + "."@ + payload + "."@ + signature) == Some(payload),
{
    reveal_strlit(".");
    let t = header + "."@ + payload + "."@ + signature;
    assert forall|j: int| 0 <= j < header.len() implies t[j] != '.' by {
        assert(t[j] == header[j]);
        if header[j] == '.' {
            assert(header.contains('.'));
        }
    }
    assert(t[header.len() as int] == '.');
    lemma_first_index(t, '.', header.len() as int);
    let rest = t.skip(header.len() as int + 1);
    assert(rest =~= payload + "."@ + signature);
    assert forall|j: int| 0 <= j < payload.len() implies rest[j] != '.' by {
        assert(rest[j] == payload[j]);
        if payload[j] == '.' {
            assert(payload.contains('.'));
        }
    }
    assert(rest[payload.len() as int] == '.');
    lemma_first_index(rest, '.', payload.len() as int);
    assert(rest.take(payload.len() as int) =~= payload);
}

} // verus!
