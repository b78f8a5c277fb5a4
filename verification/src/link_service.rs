use vstd::prelude::*;
use vstd::string::*;

use crate::error::AppError;
use crate::link::{parse_url_normalized, parsed_url_of, spec_is_expired, Link, LinkResponse};
use crate::short_code::ShortCode;
use crate::text::spec_join_url;
use crate::ttl::{spec_expires_at, Ttl};

verus! {

/// How many times link creation retries a colliding short code before it
/// gives up.
pub const MAX_CREATE_RETRIES: usize = 5;

/// Validate a target URL for link creation: the normalized URL on success,
/// `InvalidUrl` with the offending input attached exactly when parsing
/// fails.
pub fn validate_target_url(target_url: &str) -> (r: Result<String, AppError>)
    ensures
        match r {
            Ok(u) => parsed_url_of(target_url@) == Some(u@),
            Err(e) => e matches AppError::InvalidUrl(m) && m@ == "invalid target URL: "@
                + target_url@,
        },
        r is Ok <==> parsed_url_of(target_url@) is Some,
{
    match parse_url_normalized(target_url) {
        Some(u) => Ok(u),
        None => {
            let mut msg = String::from_str("invalid target URL: ");
            msg.append(target_url);
            Err(AppError::InvalidUrl(msg))
        },
    }
}

/// Assemble the link that one creation attempt will store: the validated
/// target, the creation time, and the expiry the time-to-live yields.
/// Fails exactly when the target URL does not parse.
pub fn prepare_link(
    target_url: &str,
    ttl: Option<Ttl>,
    now: i64,
    id: u128,
    short_code: ShortCode,
) -> (r: Result<Link, AppError>)
    requires
        now <= i64::MAX - 31536000,
    ensures
        match r {
            Ok(l) => {
                &&& l.id == id
                &&& l.short_code@ == short_code@
                &&& parsed_url_of(target_url@) == Some(l.target_url@)
                &&& l.created_at == now
                &&& (match ttl {
                    None => l.expires_at is None,
                    Some(t) => (match l.expires_at {
                        Some(e) => Some(e as int),
                        None => None,
                    }) == spec_expires_at(t, now as int),
                })
            },
            Err(e) => e matches AppError::InvalidUrl(m) && m@ == "invalid target URL: "@
                + target_url@,
        },
        r is Ok <==> parsed_url_of(target_url@) is Some,
{
    let url = match validate_target_url(target_url) {
        Ok(u) => u,
        Err(e) => {
            return Err(e);
        },
    };
    let expires_at = match ttl {
        Some(t) => t.expires_at(now),
        None => None,
    };
    Ok(Link { id, short_code, target_url: url, created_at: now, expires_at })
}

/// Decide a redirect from what the store found: no link is `LinkNotFound`,
/// an expired one is `LinkExpired`, a live one is returned as-is.
pub fn resolve_outcome(found: Option<Link>, now: i64) -> (r: Result<Link, AppError>)
    ensures
        match found {
            None => r matches Err(AppError::LinkNotFound),
            Some(l) => {
                if spec_is_expired(l.expires_at, now) {
                    r matches Err(AppError::LinkExpired)
                } else {
                    r matches Ok(rl) && rl == l
                }
            },
        },
{
    match found {
        None => Err(AppError::LinkNotFound),
        Some(l) => {
            if l.is_expired(now) {
                Err(AppError::LinkExpired)
            } else {
                Ok(l)
            }
        },
    }
}

/// Decide the outcome of a deletion: deleting nothing is `LinkNotFound`.
pub fn delete_outcome(deleted: bool) -> (r: Result<(), AppError>)
    ensures
        deleted <==> r is Ok,
        !deleted ==> r matches Err(AppError::LinkNotFound),
{
    if deleted {
        Ok(())
    } else {
        Err(AppError::LinkNotFound)
    }
}

/// Render every stored link for the client, in the stored order, under one
/// base URL.
pub fn links_to_responses(links: &Vec<Link>, base_url: &str) -> (r: Vec<LinkResponse>)
    ensures
        r@.len() == links@.len(),
        forall|i: int|
            0 <= i < links@.len() ==> {
                &&& (#[trigger] r@[i]).id == links@[i].id
                &&& r@[i].short_code@ == links@[i].short_code@
                &&& r@[i].short_url@ == spec_join_url(base_url@, links@[i].short_code@)
                &&& r@[i].target_url@ == links@[i].target_url@
                &&& r@[i].created_at == links@[i].created_at
                &&& r@[i].expires_at == links@[i].expires_at
            },
{
    let mut out: Vec<LinkResponse> = Vec::new();
    let n = links.len();
    let mut i: usize = 0;
    while i < n
        invariant
            i <= n,
            n == links@.len(),
            out@.len() == i,
            forall|j: int|
                0 <= j < i ==> {
                    &&& (#[trigger] out@[j]).id == links@[j].id
                    &&& out@[j].short_code@ == links@[j].short_code@
                    &&& out@[j].short_url@ == spec_join_url(base_url@, links@[j].short_code@)
                    &&& out@[j].target_url@ == links@[j].target_url@
                    &&& out@[j].created_at == links@[j].created_at
                    &&& out@[j].expires_at == links@[j].expires_at
                },
        decreases n - i,
    {
        let resp = LinkResponse::from_link(&links[i], base_url);
        out.push(resp);
        i = i + 1;
    }
    out
}

} // verus!
