use vstd::prelude::*;
use vstd::string::*;

use crate::text::{spec_u64_string, u64_to_string};

verus! {

/// Application-wide error taxonomy. Variants that carry a `String` hold a
/// human-readable reason for the client or the log.
#[derive(Debug, Clone, PartialEq, Eq)]
pub enum AppError {
    /// No link exists for the requested code or id.
    LinkNotFound,
    /// The link exists but its expiry has passed.
    LinkExpired,
    /// The submitted target URL could not be parsed.
    InvalidUrl(String),
    /// Too many requests; the payload is the number of seconds to wait.
    RateLimitExceeded(u64),
    /// No free short code was found after the allowed retries.
    ShortCodeExhausted,
    /// The persistence layer failed; the payload describes how.
    Database(String),
    /// QR generation failed; the payload describes how.
    QrGeneration(String),
    /// Any other internal failure.
    Internal(String),
}

/// The HTTP status code that reports each error.
pub open spec fn spec_status(e: AppError) -> u16 {
    match e {
        AppError::LinkNotFound => 404,
        AppError::LinkExpired => 410,
        AppError::InvalidUrl(_) => 400,
        AppError::RateLimitExceeded(_) => 429,
        AppError::ShortCodeExhausted => 503,
        AppError::Database(_) => 500,
        AppError::QrGeneration(_) => 500,
        AppError::Internal(_) => 500,
    }
}

/// The machine-readable label that reports each error.
pub open spec fn spec_label(e: AppError) -> Seq<char> {
    match e {
        AppError::LinkNotFound => "not_found"@,
        AppError::LinkExpired => "link_expired"@,
        AppError::InvalidUrl(_) => "invalid_url"@,
        AppError::RateLimitExceeded(_) => "rate_limit_exceeded"@,
        AppError::ShortCodeExhausted => "short_code_exhausted"@,
        AppError::Database(_) => "internal_error"@,
        AppError::QrGeneration(_) => "qr_error"@,
        AppError::Internal(_) => "internal_error"@,
    }
}

/// The optional human-readable message that accompanies each error: the
/// attached reason for a bad URL or a failed generation, a retry hint for
/// rate limiting, and nothing for the rest.
pub open spec fn spec_client_message(e: AppError) -> Option<Seq<char>> {
    match e {
        AppError::InvalidUrl(m) => Some(m@),
        AppError::QrGeneration(m) => Some(m@),
        AppError::RateLimitExceeded(n) => Some(
            "Retry after "@ + spec_u64_string(n) + " seconds"@,
        ),
        _ => None,
    }
}

impl AppError {
    /// The HTTP status code that reports this error.
    pub fn status_code(&self) -> (r: u16)
        ensures
            r == spec_status(*self),
    {
        match self {
            AppError::LinkNotFound => 404,
            AppError::LinkExpired => 410,
            AppError::InvalidUrl(_) => 400,
            AppError::RateLimitExceeded(_) => 429,
            AppError::ShortCodeExhausted => 503,
            AppError::Database(_) => 500,
            AppError::QrGeneration(_) => 500,
            AppError::Internal(_) => 500,
        }
    }

    /// The machine-readable label that reports this error.
    pub fn error_label(&self) -> (r: String)
        ensures
            r@ == spec_label(*self),
    {
        match self {
            AppError::LinkNotFound => String::from_str("not_found"),
            AppError::LinkExpired => String::from_str("link_expired"),
            AppError::InvalidUrl(_) => String::from_str("invalid_url"),
            AppError::RateLimitExceeded(_) => String::from_str("rate_limit_exceeded"),
            AppError::ShortCodeExhausted => String::from_str("short_code_exhausted"),
            AppError::Database(_) => String::from_str("internal_error"),
            AppError::QrGeneration(_) => String::from_str("qr_error"),
            AppError::Internal(_) => String::from_str("internal_error"),
        }
    }

    /// The optional human-readable message that accompanies this error.
    pub fn client_message(&self) -> (r: Option<String>)
        ensures
            match r {
                Some(m) => spec_client_message(*self) == Some(m@),
                None => spec_client_message(*self) is None,
            },
    {
        match self {
            AppError::InvalidUrl(m) => Some(m.clone()),
            AppError::QrGeneration(m) => Some(m.clone()),
            AppError::RateLimitExceeded(n) => {
                let mut out = String::from_str("Retry after ");
                let digits = u64_to_string(*n);
                out.append(digits.as_str());
                out.append(" seconds");
                Some(out)
            },
            _ => None,
        }
    }
}

} // verus!
