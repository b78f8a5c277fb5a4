use vstd::prelude::*;

use crate::link::LinkResponse;
use crate::ttl::Ttl;

verus! {

/// Request body for creating a new link.
#[derive(Debug, Clone)]
pub struct CreateLinkRequest {
    pub url: String,
    pub ttl: Option<Ttl>,
}

/// Request body for generating a QR code from a raw URL.
#[derive(Debug, Clone)]
pub struct CreateQrRequest {
    pub url: String,
}

/// Response body for creating a new link.
#[derive(Debug, Clone)]
pub struct CreateLinkResponse {
    pub link: LinkResponse,
}

} // verus!
