use vstd::prelude::*;
use vstd::string::*;

use crate::error::AppError;
use crate::short_code::ShortCode;
use crate::text::{join_short_url, spec_join_url};

verus! {

/// A shortened link, with times in seconds and the identifier as its
/// 128-bit value.
#[derive(Debug, Clone)]
pub struct Link {
    /// Unique identifier.
    pub id: u128,
    /// The short code used in the URL.
    pub short_code: ShortCode,
    /// The target URL to redirect to, in normalized form.
    pub target_url: String,
    /// When the link was created.
    pub created_at: i64,
    /// Optional expiration time.
    pub expires_at: Option<i64>,
}

/// Whether a link with the given expiry has expired at `now`.
pub open spec fn spec_is_expired(expires_at: Option<i64>, now: i64) -> bool {
    match expires_at {
        Some(e) => now >= e,
        None => false,
    }
}

impl Link {
    /// Check whether this link has expired at `now` (seconds).
    pub fn is_expired(&self, now: i64) -> (r: bool)
        ensures
            r == spec_is_expired(self.expires_at, now),
    {
        match self.expires_at {
            Some(exp) => now >= exp,
            None => false,
        }
    }
}

/// Response data for a link, with every field rendered as the client sees
/// it.
#[derive(Debug, Clone)]
pub struct LinkResponse {
    pub id: u128,
    pub short_code: String,
    pub short_url: String,
    pub target_url: String,
    pub created_at: i64,
    pub expires_at: Option<i64>,
}

impl LinkResponse {
    /// Render a link for the client: the short URL is the base URL without
    /// its trailing slashes, one slash, and the code.
    pub fn from_link(link: &Link, base_url: &str) -> (r: LinkResponse)
        ensures
            r.id == link.id,
            r.short_code@ == link.short_code@,
            r.short_url@ == spec_join_url(base_url@, link.short_code@),
            r.target_url@ == link.target_url@,
            r.created_at == link.created_at,
            r.expires_at == link.expires_at,
    {
        LinkResponse {
            id: link.id,
            short_code: String::from_str(link.short_code.as_str()),
            short_url: join_short_url(base_url, link.short_code.as_str()),
            target_url: link.target_url.clone(),
            created_at: link.created_at,
            expires_at: link.expires_at,
        }
    }
}

/// What URL parsing accepts and produces: `None` for unparseable input,
/// otherwise the parsed URL's normalized serialization. The outcome depends
/// on the input alone.
pub uninterp spec fn parsed_url_of(s: Seq<char>) -> Option<Seq<char>>;

/// Relies on url::Url::parse and Url::as_str: parsing either fails or
/// yields a URL whose normalized serialization is a pure function of the
/// input.
#[verifier::external_body]
pub(crate) fn parse_url_normalized(s: &str) -> (r: Option<String>)
    ensures
        r matches Some(u) ==> parsed_url_of(s@) == Some(u@),
        r is Some <==> parsed_url_of(s@) is Some,
{
    match url::Url::parse(s) {
        Ok(u) => Some(u.as_str().to_owned()),
        Err(_) => None,
    }
}

/// What textual UUID parsing accepts and produces: the 128-bit value, a
/// pure function of the input.
pub uninterp spec fn uuid_of(s: Seq<char>) -> Option<u128>;

/// Relies on uuid::Uuid::parse_str and Uuid::as_u128: a valid textual UUID
/// parses to its 128-bit value.
#[verifier::external_body]
pub(crate) fn parse_uuid(s: &str) -> (r: Option<u128>)
    ensures
        r == uuid_of(s@),
{
    match uuid::Uuid::parse_str(s) {
        Ok(u) => Some(u.as_u128()),
        Err(_) => None,
    }
}

/// What RFC 3339 timestamp parsing accepts and produces: the Unix timestamp
/// in seconds, a pure function of the input.
pub uninterp spec fn rfc3339_secs_of(s: Seq<char>) -> Option<i64>;

/// Relies on chrono::DateTime::parse_from_rfc3339 and DateTime::timestamp:
/// a valid RFC 3339 string parses to its Unix timestamp in seconds.
#[verifier::external_body]
pub(crate) fn parse_rfc3339_secs(s: &str) -> (r: Option<i64>)
    ensures
        r == rfc3339_secs_of(s@),
{
    match chrono::DateTime::parse_from_rfc3339(s) {
        Ok(dt) => Some(dt.timestamp()),
        Err(_) => None,
    }
}

/// Rebuild a link from its stored textual fields. Succeeds exactly when the
/// identifier, the target URL, and each present timestamp parse; a field
/// that does not parse reports an internal error, since the store never
/// legitimately holds one.
pub fn link_from_record(
    id: &str,
    short_code: &str,
    target_url: &str,
    created_at: &str,
    expires_at: Option<&str>,
) -> (r: Result<Link, AppError>)
    ensures
        match r {
            Ok(l) => {
                &&& uuid_of(id@) == Some(l.id)
                &&& l.short_code@ == short_code@
                &&& parsed_url_of(target_url@) == Some(l.target_url@)
                &&& rfc3339_secs_of(created_at@) == Some(l.created_at)
                &&& match (expires_at, l.expires_at) {
                    (Some(s), Some(e)) => rfc3339_secs_of(s@) == Some(e),
                    (None, None) => true,
                    _ => false,
                }
            },
            Err(e) => e matches AppError::Internal(_),
        },
        r is Ok <==> uuid_of(id@) is Some && parsed_url_of(target_url@) is Some && rfc3339_secs_of(
            created_at@,
        ) is Some && (expires_at matches Some(s) ==> rfc3339_secs_of(s@) is Some),
{
    let id_val = match parse_uuid(id) {
        Some(v) => v,
        None => {
            return Err(AppError::Internal(String::from_str("invalid identifier in store")));
        },
    };
    let url_val = match parse_url_normalized(target_url) {
        Some(u) => u,
        None => {
            return Err(AppError::Internal(String::from_str("invalid URL in store")));
        },
    };
    let created_val = match parse_rfc3339_secs(created_at) {
        Some(t) => t,
        None => {
            return Err(AppError::Internal(String::from_str("invalid creation time in store")));
        },
    };
    let expires_val = match expires_at {
        Some(s) => match parse_rfc3339_secs(s) {
            Some(t) => Some(t),
            None => {
                return Err(AppError::Internal(String::from_str("invalid expiry time in store")));
            },
        },
        None => None,
    };
    Ok(
        Link {
            id: id_val,
            short_code: ShortCode::from_existing(String::from_str(short_code)),
            target_url: url_val,
            created_at: created_val,
            expires_at: expires_val,
        },
    )
}

} // verus!
