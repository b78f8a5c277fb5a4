use vstd::prelude::*;
use vstd::string::*;

use crate::text::{parse_u64, spec_parse_u64};

verus! {

/// Application configuration assembled from raw environment values.
#[derive(Debug, Clone)]
pub struct Config {
    /// Database URL (SQLite path).
    pub database_url: String,
    /// Base URL for generating short links.
    pub base_url: String,
    /// HTTP server host.
    pub host: String,
    /// HTTP server port.
    pub port: u16,
    /// Rate limit per minute per client.
    pub rate_limit_per_minute: u32,
    /// Optional path to a branding logo for QR codes.
    pub qr_branding_logo: Option<String>,
    /// QR code size in pixels.
    pub qr_size: u32,
    /// Cleanup interval in minutes (zero disables the job).
    pub cleanup_interval_minutes: u64,
}

/// Why the configuration was rejected.
#[derive(Debug, Clone, Copy, PartialEq, Eq, Structural)]
pub enum ConfigError {
    /// The port value is not a number within range.
    InvalidPort,
    /// The rate limit value is not a number within range.
    InvalidRateLimit,
    /// The QR size value is not a number within range.
    InvalidQrSize,
    /// The cleanup interval value is not a number.
    InvalidCleanupInterval,
}

/// The raw value when one was given, the default otherwise.
pub open spec fn spec_or_default(v: Option<Seq<char>>, default: Seq<char>) -> Seq<char> {
    match v {
        Some(s) => s,
        None => default,
    }
}

/// What a numeric setting parses to under a default and an upper bound:
/// the default when absent, its decimal value when that fits, nothing
/// otherwise.
pub open spec fn spec_setting(v: Option<Seq<char>>, default: u64, bound: u64) -> Option<u64> {
    match v {
        None => Some(default),
        Some(s) => match spec_parse_u64(s) {
            Some(n) => if n <= bound {
                Some(n)
            } else {
                None
            },
            None => None,
        },
    }
}

/// The spec-level view of an optional owned string.
pub open spec fn opt_view(v: Option<String>) -> Option<Seq<char>> {
    match v {
        Some(s) => Some(s@),
        None => None,
    }
}

/// Parse one numeric setting: the default when absent, the decimal value
/// when it fits the bound.
fn parse_setting(v: &Option<String>, default: u64, bound: u64) -> (r: Option<u64>)
    ensures
        r == spec_setting(
            match v {
                Some(s) => Some(s@),
                None => None,
            },
            default,
            bound,
        ),
        r matches Some(n) ==> n <= bound || (v is None && n == default),
{
    match v {
        None => Some(default),
        Some(s) => match parse_u64(s.as_str()) {
            Some(n) => if n <= bound {
                Some(n)
            } else {
                None
            },
            None => None,
        },
    }
}

impl Config {
    /// Assemble the configuration from raw environment values, applying the
    /// documented default wherever a value is absent. Numeric values must be
    /// decimal numbers within their type's range; the first invalid one, in
    /// the order port, rate limit, QR size, cleanup interval, names the
    /// error.
    pub fn from_parts(
        database_url: Option<String>,
        base_url: Option<String>,
        host: Option<String>,
        port: Option<String>,
        rate_limit_per_minute: Option<String>,
        qr_branding_logo: Option<String>,
        qr_size: Option<String>,
        cleanup_interval_minutes: Option<String>,
    ) -> (r: Result<Config, ConfigError>)
        ensures
            match r {
                Ok(c) => {
                    &&& c.database_url@ == spec_or_default(
                        opt_view(database_url),
                        "sqlite:data/shortener.db"@,
                    )
                    &&& c.base_url@ == spec_or_default(opt_view(base_url), "http://localhost:8080"@)
                    &&& c.host@ == spec_or_default(opt_view(host), "0.0.0.0"@)
                    &&& Some(c.port as u64) == spec_setting(opt_view(port), 8080, u16::MAX as u64)
                    &&& Some(c.rate_limit_per_minute as u64) == spec_setting(
                        opt_view(rate_limit_per_minute),
                        60,
                        u32::MAX as u64,
                    )
                    &&& opt_view(c.qr_branding_logo) == opt_view(qr_branding_logo)
                    &&& Some(c.qr_size as u64) == spec_setting(
                        opt_view(qr_size),
                        512,
                        u32::MAX as u64,
                    )
                    &&& Some(c.cleanup_interval_minutes) == spec_setting(
                        opt_view(cleanup_interval_minutes),
                        60,
                        u64::MAX,
                    )
                },
                Err(ConfigError::InvalidPort) => spec_setting(
                    opt_view(port),
                    8080,
                    u16::MAX as u64,
                ) is None,
                Err(ConfigError::InvalidRateLimit) => spec_setting(
                    opt_view(port),
                    8080,
                    u16::MAX as u64,
                ) is Some && spec_setting(opt_view(rate_limit_per_minute), 60, u32::MAX as u64)
                    is None,
                Err(ConfigError::InvalidQrSize) => spec_setting(
                    opt_view(port),
                    8080,
                    u16::MAX as u64,
                ) is Some && spec_setting(opt_view(rate_limit_per_minute), 60, u32::MAX as u64)
                    is Some && spec_setting(opt_view(qr_size), 512, u32::MAX as u64) is None,
                Err(ConfigError::InvalidCleanupInterval) => spec_setting(
                    opt_view(port),
                    8080,
                    u16::MAX as u64,
                ) is Some && spec_setting(opt_view(rate_limit_per_minute), 60, u32::MAX as u64)
                    is Some && spec_setting(opt_view(qr_size), 512, u32::MAX as u64) is Some
                    && spec_setting(opt_view(cleanup_interval_minutes), 60, u64::MAX) is None,
            },
            r is Ok <==> spec_setting(opt_view(port), 8080, u16::MAX as u64) is Some
                && spec_setting(opt_view(rate_limit_per_minute), 60, u32::MAX as u64) is Some
                && spec_setting(opt_view(qr_size), 512, u32::MAX as u64) is Some && spec_setting(
                opt_view(cleanup_interval_minutes),
                60,
                u64::MAX,
            ) is Some,
    {
        let port_val = match parse_setting(&port, 8080, 65535) {
            Some(n) => n as u16,
            None => {
                return Err(ConfigError::InvalidPort);
            },
        };
        let rate_val = match parse_setting(&rate_limit_per_minute, 60, 0xffff_ffff) {
            Some(n) => n as u32,
            None => {
                return Err(ConfigError::InvalidRateLimit);
            },
        };
        let size_val = match parse_setting(&qr_size, 512, 0xffff_ffff) {
            Some(n) => n as u32,
            None => {
                return Err(ConfigError::InvalidQrSize);
            },
        };
        let cleanup_val = match parse_setting(&cleanup_interval_minutes, 60, u64::MAX) {
            Some(n) => n,
            None => {
                return Err(ConfigError::InvalidCleanupInterval);
            },
        };
        let database_url_val = match database_url {
            Some(s) => s,
            None => String::from_str("sqlite:data/shortener.db"),
        };
        let base_url_val = match base_url {
            Some(s) => s,
            None => String::from_str("http://localhost:8080"),
        };
        let host_val = match host {
            Some(s) => s,
            None => String::from_str("0.0.0.0"),
        };
        Ok(
            Config {
                database_url: database_url_val,
                base_url: base_url_val,
                host: host_val,
                port: port_val,
                rate_limit_per_minute: rate_val,
                qr_branding_logo,
                qr_size: size_val,
                cleanup_interval_minutes: cleanup_val,
            },
        )
    }
}

} // verus!
