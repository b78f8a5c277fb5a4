use vstd::prelude::*;

pub mod codec;
pub mod config;
pub mod error;
pub mod generator;
pub mod link;
pub mod link_service;
pub mod logo;
pub mod matrix;
pub mod overlay;
pub mod pixels;
pub mod qr_service;
pub mod rasterize;
pub mod rate_limit;
pub mod requests;
pub mod short_code;
pub mod text;
pub mod ttl;

pub use config::{Config, ConfigError};
pub use error::AppError;
pub use generator::{QrGenError, QrGenerator};
pub use link::{Link, LinkResponse};
pub use logo::{LogoError, LogoKind};
pub use matrix::ModuleMatrix;
pub use pixels::PixelImage;
pub use qr_service::QrService;
pub use rate_limit::{RateLimiter, RateWindow};
pub use requests::{CreateLinkRequest, CreateLinkResponse, CreateQrRequest};
pub use short_code::ShortCode;
pub use ttl::Ttl;

verus! {

} // verus!
