//! Validating SDP offers and building the proxy's SDP answer.

use vstd::prelude::*;
use vstd::string::StringSliceAdditionalSpecFns;
use crate::text::{has_prefix, str_starts_with, to_string};

verus! {

broadcast use vstd::string::group_string_axioms;

/// A WHIP/WHEP request: the room and the client's SDP offer.
#[derive(Debug)]
pub struct SdpOfferRequest {
    pub room_name: String,
    pub sdp_offer: String,
}

/// The answer to a WHIP/WHEP request.
#[derive(Debug)]
pub struct SdpAnswerResponse {
    pub session_id: String,
    pub sdp_answer: String,
    pub room_name: String,
}

/// An error body: its XRPC error name and message.
#[derive(Debug)]
pub struct ErrorResponse {
    pub error: String,
    pub message: String,
}

impl ErrorResponse {
    /// An `InvalidRequest` error (answered with status 400).
    pub fn invalid_request(msg: &str) -> (r: ErrorResponse)
        ensures
            r.error@ == "InvalidRequest"@,
            r.message@ == msg@,
    {
        ErrorResponse { error: to_string("InvalidRequest"), message: to_string(msg) }
    }

    /// An `InternalServerError` error (answered with status 500).
    pub fn internal(msg: &str) -> (r: ErrorResponse)
        ensures
            r.error@ == "InternalServerError"@,
            r.message@ == msg@,
    {
        ErrorResponse { error: to_string("InternalServerError"), message: to_string(msg) }
    }
}

/// The first problem of an offer, as the message it is refused with; `None`
/// for an acceptable offer. The room name's limit counts UTF-8 bytes.
pub open spec fn offer_problem(room_name: Seq<char>, sdp_offer: Seq<char>) -> Option<Seq<char>> {
    if room_name.len() == 0 {
        Some("roomName is required"@)
    } else if vstd::utf8::encode_utf8(room_name).len() > 128 {
        Some("roomName exceeds 128 characters"@)
    } else if sdp_offer.len() == 0 {
        Some("sdpOffer is required"@)
    } else if !has_prefix(sdp_offer, "v=0"@) {
        Some("invalid SDP offer: must start with v=0"@)
    } else {
        None
    }
}

/// Checks an offer; refusals are `InvalidRequest` errors.
pub fn validate_offer(req: &SdpOfferRequest) -> (r: Result<(), ErrorResponse>)
    ensures
        r is Ok <==> offer_problem(req.room_name@, req.sdp_offer@) is None,
        r matches Err(e) ==> e.error@ == "InvalidRequest"@ && offer_problem(
            req.room_name@,
            req.sdp_offer@,
        ) == Some(e.message@),
{
    if req.room_name.as_str().as_bytes().len() == 0 {
        proof {
            assert(req.room_name@.len() == 0) by {
                if req.room_name@.len() > 0 {
                    vstd::utf8::encode_utf8_first_scalar(req.room_name@);
                }
            }
        }
        return Err(ErrorResponse::invalid_request("roomName is required"));
    }
    proof {
        if req.room_name@.len() == 0 {
            assert(vstd::utf8::encode_utf8(req.room_name@) =~= Seq::<u8>::empty());
        }
    }
    if req.room_name.as_str().as_bytes().len() > 128 {
        return Err(ErrorResponse::invalid_request("roomName exceeds 128 characters"));
    }
    if req.sdp_offer.as_str().as_bytes().len() == 0 {
        proof {
            assert(req.sdp_offer@.len() == 0) by {
                if req.sdp_offer@.len() > 0 {
                    vstd::utf8::encode_utf8_first_scalar(req.sdp_offer@);
                }
            }
        }
        return Err(ErrorResponse::invalid_request("sdpOffer is required"));
    }
    proof {
        if req.sdp_offer@.len() == 0 {
            assert(vstd::utf8::encode_utf8(req.sdp_offer@) =~= Seq::<u8>::empty());
        }
    }
    if !str_starts_with(req.sdp_offer.as_str(), "v=0") {
        return Err(ErrorResponse::invalid_request("invalid SDP offer: must start with v=0"));
    }
    Ok(())
}

/// The SDP answer the proxy gives for a session, with the media direction
/// (`sendrecv` for WHIP, `recvonly` for WHEP).
pub open spec fn proxy_answer(session_id: Seq<char>, direction: Seq<char>) -> Seq<char> {
    "v=0\r\no=- "@ + session_id + " 1 IN IP4 0.0.0.0\r\ns=-\r\nt=0 0\r\na=group:BUNDLE 0\r\nm=video 9 UDP/TLS/RTP/SAVPF 96\r\nc=IN IP4 0.0.0.0\r\na=setup:active\r\na=mid:0\r\na="@
        + direction + "\r\n"@
}

/// Builds the proxy's SDP answer.
pub fn build_proxy_answer(session_id: &str, direction: &str) -> (r: String)
    ensures
        r@ == proxy_answer(session_id@, direction@),
{
    let mut s = to_string("v=0\r\no=- ");
    s.append(session_id);
    s.append(
        " 1 IN IP4 0.0.0.0\r\ns=-\r\nt=0 0\r\na=group:BUNDLE 0\r\nm=video 9 UDP/TLS/RTP/SAVPF 96\r\nc=IN IP4 0.0.0.0\r\na=setup:active\r\na=mid:0\r\na=",
    );
    s.append(direction);
    s.append("\r\n");
    s
}

} // verus!
