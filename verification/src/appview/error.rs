//! The service error type and its XRPC error body.

use vstd::prelude::*;
use crate::text::to_string;

verus! {

broadcast use vstd::string::group_string_axioms;

/// Errors the AppView reports to its clients.
#[derive(Debug)]
pub enum AppViewError {
    InvalidRequest(String),
    AuthRequired,
    AuthMissing,
    Auth(String),
    Forbidden,
    NotFound,
    RateLimited,
    UpstreamError(String),
    Database(String),
    Storage(String),
    Identity(String),
    Internal(String),
}

/// The HTTP status, XRPC error name and message of an error response.
#[derive(Debug)]
pub struct XrpcError {
    pub status: u16,
    pub error: String,
    pub message: String,
}

/// The answer of the feed-subscription route, which is not built yet: 501
/// `NotImplemented`.
pub fn subscribe_feed_unavailable() -> (r: XrpcError)
    ensures
        r.status == 501,
        r.error@ == "NotImplemented"@,
        r.message@ == "tools.knowme.feed.subscribeFeed is not yet implemented"@,
{
    XrpcError {
        status: 501,
        error: to_string("NotImplemented"),
        message: to_string("tools.knowme.feed.subscribeFeed is not yet implemented"),
    }
}

/// The HTTP status an error is answered with.
pub open spec fn status_of(e: AppViewError) -> u16 {
    match e {
        AppViewError::InvalidRequest(_) => 400,
        AppViewError::AuthRequired => 401,
        AppViewError::AuthMissing => 401,
        AppViewError::Auth(_) => 401,
        AppViewError::Forbidden => 403,
        AppViewError::NotFound => 404,
        AppViewError::RateLimited => 429,
        AppViewError::UpstreamError(_) => 502,
        AppViewError::Database(_) => 500,
        AppViewError::Storage(_) => 500,
        AppViewError::Identity(_) => 502,
        AppViewError::Internal(_) => 500,
    }
}

/// Each error is answered with the HTTP status of its kind: 400 for a bad
/// request, 401 for missing or failed authentication, 403 for a forbidden
/// one, 404 for something not found, 429 for too many requests, 502 when an
/// upstream service or identity resolution failed, and 500 for the
/// server's own faults; the client's faults are exactly the 4xx answers.
pub proof fn law_status_follows_error_kind(e: AppViewError)
    ensures
        e is NotFound ==> status_of(e) == 404,
        e is InvalidRequest ==> status_of(e) == 400,
        (e is AuthRequired || e is AuthMissing || e is Auth) ==> status_of(e) == 401,
        e is Forbidden ==> status_of(e) == 403,
        e is RateLimited ==> status_of(e) == 429,
        (e is UpstreamError || e is Identity) ==> status_of(e) == 502,
        (e is Database || e is Storage || e is Internal) ==> status_of(e) == 500,
        (400 <= status_of(e) < 500) <==> (e is InvalidRequest || e is AuthRequired || e is AuthMissing
            || e is Auth || e is Forbidden || e is NotFound || e is RateLimited),
{
}

/// The XRPC error name of an error response.
pub open spec fn error_name_of(e: AppViewError) -> Seq<char> {
    match e {
        AppViewError::InvalidRequest(_) => "InvalidRequest"@,
        AppViewError::AuthRequired => "AuthRequired"@,
        AppViewError::AuthMissing => "AuthMissing"@,
        AppViewError::Auth(_) => "AuthenticationRequired"@,
        AppViewError::Forbidden => "Forbidden"@,
        AppViewError::NotFound => "NotFound"@,
        AppViewError::RateLimited => "RateLimited"@,
        AppViewError::UpstreamError(_) => "UpstreamError"@,
        AppViewError::Database(_) => "InternalServerError"@,
        AppViewError::Storage(_) => "InternalServerError"@,
        AppViewError::Identity(_) => "UpstreamError"@,
        AppViewError::Internal(_) => "InternalServerError"@,
    }
}

/// The message of an error response: the detail for client-facing errors, a
/// fixed text for server-side ones, whose detail stays in the logs.
pub open spec fn response_message_of(e: AppViewError) -> Seq<char> {
    match e {
        AppViewError::InvalidRequest(m) => m@,
        AppViewError::AuthRequired => "Authentication required"@,
        AppViewError::AuthMissing => "Missing authorization header"@,
        AppViewError::Auth(m) => m@,
        AppViewError::Forbidden => "Forbidden"@,
        AppViewError::NotFound => "Not found"@,
        AppViewError::RateLimited => "Rate limit exceeded"@,
        AppViewError::UpstreamError(m) => m@,
        AppViewError::Database(_) => "Internal server error"@,
        AppViewError::Storage(_) => "Internal server error"@,
        AppViewError::Identity(m) => "Failed to resolve identity: "@ + m@,
        AppViewError::Internal(_) => "Internal server error"@,
    }
}

/// The error's display text.
pub open spec fn display_of(e: AppViewError) -> Seq<char> {
    match e {
        AppViewError::InvalidRequest(m) => "InvalidRequest: "@ + m@,
        AppViewError::AuthRequired => "AuthRequired"@,
        AppViewError::AuthMissing => "AuthMissing"@,
        AppViewError::Auth(m) => "Auth error: "@ + m@,
        AppViewError::Forbidden => "Forbidden"@,
        AppViewError::NotFound => "NotFound"@,
        AppViewError::RateLimited => "RateLimited"@,
        AppViewError::UpstreamError(m) => "UpstreamError: "@ + m@,
        AppViewError::Database(m) => "Database error: "@ + m@,
        AppViewError::Storage(m) => "Storage error: "@ + m@,
        AppViewError::Identity(m) => "Identity error: "@ + m@,
        AppViewError::Internal(m) => "Internal error: "@ + m@,
    }
}

/// `prefix` followed by `rest`.
fn concat(prefix: &str, rest: &str) -> (r: String)
    ensures
        r@ == prefix@ + rest@,
{
    let mut s = to_string(prefix);
    s.append(rest);
    s
}

impl AppViewError {
    /// The HTTP status this error is answered with.
    pub fn status_code(&self) -> (r: u16)
        ensures
            r == status_of(*self),
    {
        match self {
            AppViewError::InvalidRequest(_) => 400,
            AppViewError::AuthRequired | AppViewError::AuthMissing | AppViewError::Auth(_) => 401,
            AppViewError::Forbidden => 403,
            AppViewError::NotFound => 404,
            AppViewError::RateLimited => 429,
            AppViewError::UpstreamError(_) | AppViewError::Identity(_) => 502,
            AppViewError::Database(_) | AppViewError::Storage(_) | AppViewError::Internal(_) => 500,
        }
    }

    /// The XRPC error name of the response.
    pub fn error_name(&self) -> (r: &'static str)
        ensures
            r@ == error_name_of(*self),
    {
        match self {
            AppViewError::InvalidRequest(_) => "InvalidRequest",
            AppViewError::AuthRequired => "AuthRequired",
            AppViewError::AuthMissing => "AuthMissing",
            AppViewError::Auth(_) => "AuthenticationRequired",
            AppViewError::Forbidden => "Forbidden",
            AppViewError::NotFound => "NotFound",
            AppViewError::RateLimited => "RateLimited",
            AppViewError::UpstreamError(_) | AppViewError::Identity(_) => "UpstreamError",
            AppViewError::Database(_) | AppViewError::Storage(_) | AppViewError::Internal(_) => {
                "InternalServerError"
            },
        }
    }

    /// The message of the response body.
    pub fn response_message(&self) -> (r: String)
        ensures
            r@ == response_message_of(*self),
    {
        match self {
            AppViewError::InvalidRequest(m) => m.clone(),
            AppViewError::AuthRequired => to_string("Authentication required"),
            AppViewError::AuthMissing => to_string("Missing authorization header"),
            AppViewError::Auth(m) => m.clone(),
            AppViewError::Forbidden => to_string("Forbidden"),
            AppViewError::NotFound => to_string("Not found"),
            AppViewError::RateLimited => to_string("Rate limit exceeded"),
            AppViewError::UpstreamError(m) => m.clone(),
            AppViewError::Identity(m) => concat("Failed to resolve identity: ", m.as_str()),
            AppViewError::Database(_) | AppViewError::Storage(_) | AppViewError::Internal(_) => {
                to_string("Internal server error")
            },
        }
    }

    /// The status, error name and message that the error is answered with.
    pub fn to_xrpc(&self) -> (r: XrpcError)
        ensures
            r.status == status_of(*self),
            r.error@ == error_name_of(*self),
            r.message@ == response_message_of(*self),
    {
        XrpcError {
            status: self.status_code(),
            error: to_string(self.error_name()),
            message: self.response_message(),
        }
    }

    /// The error's display text.
    pub fn message(&self) -> (r: String)
        ensures
            r@ == display_of(*self),
    {
        match self {
            AppViewError::InvalidRequest(m) => concat("InvalidRequest: ", m.as_str()),
            AppViewError::AuthRequired => to_string("AuthRequired"),
            AppViewError::AuthMissing => to_string("AuthMissing"),
            AppViewError::Auth(m) => concat("Auth error: ", m.as_str()),
            AppViewError::Forbidden => to_string("Forbidden"),
            AppViewError::NotFound => to_string("NotFound"),
            AppViewError::RateLimited => to_string("RateLimited"),
            AppViewError::UpstreamError(m) => concat("UpstreamError: ", m.as_str()),
            AppViewError::Database(m) => concat("Database error: ", m.as_str()),
            AppViewError::Storage(m) => concat("Storage error: ", m.as_str()),
            AppViewError::Identity(m) => concat("Identity error: ", m.as_str()),
            AppViewError::Internal(m) => concat("Internal error: ", m.as_str()),
        }
    }
}

/// A server-side failure never shows its detail to the client: its answer
/// is a 5xx status, and only an identity failure carries its detail, behind a
/// fixed prefix.
pub proof fn law_server_errors_hide_detail(e: AppViewError)
    requires
        e is Database || e is Storage || e is Internal,
    ensures
        500 <= status_of(e) < 600,
        response_message_of(e) == "Internal server error"@,
{
}

} // verus!
