//! Error taxonomy for the repository-access layer.
//!
//! Every failure a caller can see is one of these kinds. Two derived
//! predicates drive control flow elsewhere: `is_retryable` (transient
//! transport trouble) and `is_not_found` (a probe's valid negative
//! answer). `classify_status` maps a non-success HTTP response onto the
//! taxonomy.

use vstd::prelude::*;

use crate::strutil::{contains_sub_lower, lower_seq, spec_contains_sub, u64_to_string};

verus! {

/// Classified failure of an operation against the forge or the local
/// environment.
#[derive(Debug)]
pub enum VktError {
    /// Configuration error
    Config(String),
    /// API call error
    Api(String),
    /// Network error
    Network(String),
    /// IO error
    Io(String),
    /// Parameter validation error
    Validation(String),
    /// Authentication failed (401)
    AuthInvalid(String),
    /// Permission denied (403)
    PermissionDenied(String),
    /// Rate limited (403/429 with rate-limit phrasing)
    RateLimited(String),
    /// Resource not found (404)
    ApiNotFound(String),
    /// Resource conflict (409)
    Conflict(String),
}

/// Ghost image of a `VktError`: the same kinds over character sequences,
/// so that specifications can speak of constructed errors.
pub ghost enum VktErrorView {
    Config(Seq<char>),
    Api(Seq<char>),
    Network(Seq<char>),
    Io(Seq<char>),
    Validation(Seq<char>),
    AuthInvalid(Seq<char>),
    PermissionDenied(Seq<char>),
    RateLimited(Seq<char>),
    ApiNotFound(Seq<char>),
    Conflict(Seq<char>),
}

impl View for VktError {
    type V = VktErrorView;

    open spec fn view(&self) -> VktErrorView {
        match self {
            VktError::Config(m) => VktErrorView::Config(m@),
            VktError::Api(m) => VktErrorView::Api(m@),
            VktError::Network(m) => VktErrorView::Network(m@),
            VktError::Io(m) => VktErrorView::Io(m@),
            VktError::Validation(m) => VktErrorView::Validation(m@),
            VktError::AuthInvalid(m) => VktErrorView::AuthInvalid(m@),
            VktError::PermissionDenied(m) => VktErrorView::PermissionDenied(m@),
            VktError::RateLimited(m) => VktErrorView::RateLimited(m@),
            VktError::ApiNotFound(m) => VktErrorView::ApiNotFound(m@),
            VktError::Conflict(m) => VktErrorView::Conflict(m@),
        }
    }
}

impl VktErrorView {
    /// The human-readable line the process prints for this error.
    pub open spec fn spec_message(self) -> Seq<char> {
        match self {
            VktErrorView::Config(m) => "Config error: "@ + m,
            VktErrorView::Api(m) => "API error: "@ + m,
            VktErrorView::Network(m) => "Network error: "@ + m,
            VktErrorView::Io(m) => "IO error: "@ + m,
            VktErrorView::Validation(m) => "Validation error: "@ + m,
            VktErrorView::AuthInvalid(m) => "Authentication failed: "@ + m,
            VktErrorView::PermissionDenied(m) => "Permission denied: "@ + m,
            VktErrorView::RateLimited(m) => "Rate limited: "@ + m,
            VktErrorView::ApiNotFound(m) => "Resource not found: "@ + m,
            VktErrorView::Conflict(m) => "Resource conflict: "@ + m,
        }
    }
}

impl VktError {
    /// Renders the error as the line the process prints.
    pub fn message(&self) -> (r: String)
        ensures
            r@ == self@.spec_message(),
    {
        match self {
            VktError::Config(m) => String::from_str("Config error: ").concat(m.as_str()),
            VktError::Api(m) => String::from_str("API error: ").concat(m.as_str()),
            VktError::Network(m) => String::from_str("Network error: ").concat(m.as_str()),
            VktError::Io(m) => String::from_str("IO error: ").concat(m.as_str()),
            VktError::Validation(m) => String::from_str("Validation error: ").concat(m.as_str()),
            VktError::AuthInvalid(m) => String::from_str("Authentication failed: ").concat(
                m.as_str(),
            ),
            VktError::PermissionDenied(m) => String::from_str("Permission denied: ").concat(
                m.as_str(),
            ),
            VktError::RateLimited(m) => String::from_str("Rate limited: ").concat(m.as_str()),
            VktError::ApiNotFound(m) => String::from_str("Resource not found: ").concat(
                m.as_str(),
            ),
            VktError::Conflict(m) => String::from_str("Resource conflict: ").concat(m.as_str()),
        }
    }

    /// Check if error is retryable (temporary)
    pub fn is_retryable(&self) -> (r: bool)
        ensures
            r == (self is Network || self is RateLimited),
    {
        match self {
            VktError::Network(_) => true,
            VktError::RateLimited(_) => true,
            _ => false,
        }
    }

    /// Check if error is authentication-related
    pub fn is_auth_error(&self) -> (r: bool)
        ensures
            r == (self is AuthInvalid || self is PermissionDenied),
    {
        match self {
            VktError::AuthInvalid(_) => true,
            VktError::PermissionDenied(_) => true,
            _ => false,
        }
    }

    /// Check if error is resource not found
    pub fn is_not_found(&self) -> (r: bool)
        ensures
            r == (self is ApiNotFound),
    {
        match self {
            VktError::ApiNotFound(_) => true,
            _ => false,
        }
    }
}

/// True when an HTTP status code reports success.
pub open spec fn spec_is_success_status(status: u16) -> bool {
    200 <= status < 300
}

/// True when a response body carries rate-limit phrasing.
pub open spec fn spec_rate_limited_body(body: Seq<char>) -> bool {
    spec_contains_sub(lower_seq(body), "rate"@) || spec_contains_sub(lower_seq(body), "limit"@)
}

/// The classified error for a non-success HTTP response with the given
/// status code and body text.
pub open spec fn spec_classify_status(status: u16, body: Seq<char>) -> VktErrorView {
    if status == 401 {
        VktErrorView::AuthInvalid("Authentication failed: "@ + body)
    } else if status == 403 {
        if spec_rate_limited_body(body) {
            VktErrorView::RateLimited("Rate limited: "@ + body)
        } else {
            VktErrorView::PermissionDenied("Permission denied: "@ + body)
        }
    } else if status == 429 && spec_rate_limited_body(body) {
        VktErrorView::RateLimited("Rate limited: "@ + body)
    } else if status == 404 {
        VktErrorView::ApiNotFound("Resource not found: "@ + body)
    } else if status == 409 {
        VktErrorView::Conflict("Resource conflict: "@ + body)
    } else {
        VktErrorView::Api(
            "API error (HTTP "@ + crate::strutil::dec_digits(status as int) + "): "@ + body,
        )
    }
}

/// Maps a non-success HTTP status and its body text onto the taxonomy:
/// 401 is an authentication failure; 403 is rate limiting when the body
/// carries rate-limit phrasing and a permission denial otherwise; a 429
/// with that phrasing is rate limiting too; 404 is not-found, 409 is a
/// conflict, and anything else is a generic remote failure quoting the
/// status code.
pub fn classify_status(status: u16, body: &str) -> (r: VktError)
    requires
        !spec_is_success_status(status),
    ensures
        r@ == spec_classify_status(status, body@),
{
    if status == 401 {
        VktError::AuthInvalid(String::from_str("Authentication failed: ").concat(body))
    } else if status == 403 {
        if contains_sub_lower(body, "rate") || contains_sub_lower(body, "limit") {
            VktError::RateLimited(String::from_str("Rate limited: ").concat(body))
        } else {
            VktError::PermissionDenied(String::from_str("Permission denied: ").concat(body))
        }
    } else if status == 429 && (contains_sub_lower(body, "rate") || contains_sub_lower(
        body,
        "limit",
    )) {
        VktError::RateLimited(String::from_str("Rate limited: ").concat(body))
    } else if status == 404 {
        VktError::ApiNotFound(String::from_str("Resource not found: ").concat(body))
    } else if status == 409 {
        VktError::Conflict(String::from_str("Resource conflict: ").concat(body))
    } else {
        let digits = u64_to_string(status as u64);
        let msg = String::from_str("API error (HTTP ").concat(digits.as_str()).concat(
            "): ",
        ).concat(body);
        VktError::Api(msg)
    }
}

/// The diagnostic snippet kept from a response body: the whole body when
/// it is short, else its first 200 characters and an ellipsis.
pub open spec fn spec_body_snippet(body: Seq<char>) -> Seq<char> {
    if body.len() > 200 {
        body.take(200) + "..."@
    } else {
        body
    }
}

/// Truncates a response body for inclusion in a diagnostic message.
pub fn body_snippet(body: &str) -> (r: String)
    ensures
        r@ == spec_body_snippet(body@),
{
    let len = body.unicode_len();
    if len > 200 {
        let head = body.substring_char(0, 200);
        String::from_str(head).concat("...")
    } else {
        String::from_str(body)
    }
}

/// The error reported when a success response's body cannot be read as
/// the expected JSON shape: never swallowed, always surfaced with a
/// truncated snippet of the offending body.
pub open spec fn spec_parse_failure(detail: Seq<char>, body: Seq<char>) -> VktErrorView {
    VktErrorView::Api(
        "Failed to parse response: "@ + detail + ". Body: "@ + spec_body_snippet(body),
    )
}

/// The structured error for a payload whose required field is absent:
/// it names that field and keeps a truncated snippet of the offending
/// payload for diagnosability.
pub open spec fn spec_missing_field(field: Seq<char>, body: Seq<char>) -> VktErrorView {
    VktErrorView::Api(
        "Response payload missing required field: "@ + field + ". Body: "@ + spec_body_snippet(
            body,
        ),
    )
}

/// Builds the structured error for a payload missing a required field.
pub fn missing_field_error(field: &str, body: &str) -> (r: VktError)
    ensures
        r@ == spec_missing_field(field@, body@),
{
    let snippet = body_snippet(body);
    VktError::Api(
        String::from_str("Response payload missing required field: ").concat(field).concat(
            ". Body: ",
        ).concat(snippet.as_str()),
    )
}

/// Builds the classified error for a payload that could not be parsed.
pub fn parse_failure(detail: &str, body: &str) -> (r: VktError)
    ensures
        r@ == spec_parse_failure(detail@, body@),
{
    let snippet = body_snippet(body);
    VktError::Api(
        String::from_str("Failed to parse response: ").concat(detail).concat(". Body: ").concat(
            snippet.as_str(),
        ),
    )
}

} // verus!
