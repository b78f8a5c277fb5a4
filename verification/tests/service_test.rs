use std::collections::HashMap;

use qrlink::link_service::{
    delete_outcome, links_to_responses, prepare_link, resolve_outcome, validate_target_url,
};
use qrlink::text::{join_short_url, parse_u64, u64_to_string};
use qrlink::{
    AppError, Config, ConfigError, Link, LogoError, LogoKind, PixelImage, QrGenerator, QrService,
    RateLimiter, RateWindow, ShortCode, Ttl,
};

const NOW: i64 = 1_700_000_000;

fn sample_link(expires_at: Option<i64>) -> Link {
    Link {
        id: 7,
        short_code: ShortCode::from_existing("Ab3kP9x".to_string()),
        target_url: "https://example.com/".to_string(),
        created_at: NOW,
        expires_at,
    }
}

#[test]
fn test_qr_service_generates_for_short_code() {
    let generator = QrGenerator::new(256, None);
    let service = QrService::new(generator, "http://test.local/".to_string());
    let bytes = service.generate_qr("Ab3kP9x").unwrap();
    assert_eq!(&bytes[0..8], &[137, 80, 78, 71, 13, 10, 26, 10]);
    // The QR for the joined URL equals the QR generated for it directly.
    let direct = QrGenerator::new(256, None)
        .generate("http://test.local/Ab3kP9x")
        .unwrap();
    assert_eq!(bytes, direct);
}

#[test]
fn test_qr_service_reports_content_too_large() {
    let generator = QrGenerator::new(256, None);
    let service = QrService::new(generator, "http://test.local".to_string());
    let content = "b".repeat(4000);
    match service.generate_for_url(&content) {
        Err(AppError::QrGeneration(m)) => {
            assert_eq!(m, "content exceeds the maximum symbol capacity");
        }
        other => panic!("expected a generation failure, got {:?}", other),
    }
}

#[test]
fn test_validate_target_url() {
    let ok = validate_target_url("https://example.com").unwrap();
    assert_eq!(ok, "https://example.com/");
    match validate_target_url("not a url") {
        Err(AppError::InvalidUrl(m)) => assert_eq!(m, "invalid target URL: not a url"),
        other => panic!("expected InvalidUrl, got {:?}", other),
    }
}

#[test]
fn test_prepare_link_builds_expiry_from_ttl() {
    let code = ShortCode::from_existing("Ab3kP9x".to_string());
    let link = prepare_link("https://example.com", Some(Ttl::OneWeek), NOW, 42, code).unwrap();
    assert_eq!(link.id, 42);
    assert_eq!(link.short_code.as_str(), "Ab3kP9x");
    assert_eq!(link.target_url, "https://example.com/");
    assert_eq!(link.created_at, NOW);
    assert_eq!(link.expires_at, Some(NOW + 604800));

    let code = ShortCode::from_existing("Ab3kP9x".to_string());
    let permanent = prepare_link("https://example.com", None, NOW, 43, code).unwrap();
    assert_eq!(permanent.expires_at, None);

    let code = ShortCode::from_existing("Ab3kP9x".to_string());
    let never = prepare_link("https://example.com", Some(Ttl::Never), NOW, 44, code).unwrap();
    assert_eq!(never.expires_at, None);
}

#[test]
fn test_resolve_outcome() {
    match resolve_outcome(None, NOW) {
        Err(AppError::LinkNotFound) => {}
        other => panic!("expected LinkNotFound, got {:?}", other),
    }
    match resolve_outcome(Some(sample_link(Some(NOW - 1))), NOW) {
        Err(AppError::LinkExpired) => {}
        other => panic!("expected LinkExpired, got {:?}", other),
    }
    let live = resolve_outcome(Some(sample_link(Some(NOW + 1))), NOW).unwrap();
    assert_eq!(live.target_url, "https://example.com/");
}

#[test]
fn test_delete_outcome() {
    assert!(delete_outcome(true).is_ok());
    match delete_outcome(false) {
        Err(AppError::LinkNotFound) => {}
        other => panic!("expected LinkNotFound, got {:?}", other),
    }
}

#[test]
fn test_links_to_responses_keeps_order() {
    let links = vec![sample_link(None), sample_link(Some(NOW + 5))];
    let responses = links_to_responses(&links, "http://test.local");
    assert_eq!(responses.len(), 2);
    assert_eq!(responses[0].short_url, "http://test.local/Ab3kP9x");
    assert_eq!(responses[0].expires_at, None);
    assert_eq!(responses[1].expires_at, Some(NOW + 5));
}

#[test]
fn test_link_from_record_round_trip() {
    let link = qrlink::link::link_from_record(
        "67e55044-10b1-426f-9247-bb680e5fe0c8",
        "Ab3kP9x",
        "https://example.com",
        "2023-11-14T22:13:20+00:00",
        Some("2023-11-14T23:13:20+00:00"),
    )
    .unwrap();
    assert_eq!(link.id, 0x67e55044_10b1_426f_9247_bb680e5fe0c8);
    assert_eq!(link.short_code.as_str(), "Ab3kP9x");
    assert_eq!(link.target_url, "https://example.com/");
    assert_eq!(link.created_at, NOW);
    assert_eq!(link.expires_at, Some(NOW + 3600));
}

#[test]
fn test_link_from_record_rejects_bad_fields() {
    let bad_id = qrlink::link::link_from_record(
        "not-a-uuid",
        "c",
        "https://example.com",
        "2023-11-14T22:13:20+00:00",
        None,
    );
    assert!(matches!(bad_id, Err(AppError::Internal(_))));
    let bad_time = qrlink::link::link_from_record(
        "67e55044-10b1-426f-9247-bb680e5fe0c8",
        "c",
        "https://example.com",
        "yesterday",
        None,
    );
    assert!(matches!(bad_time, Err(AppError::Internal(_))));
    let bad_expiry = qrlink::link::link_from_record(
        "67e55044-10b1-426f-9247-bb680e5fe0c8",
        "c",
        "https://example.com",
        "2023-11-14T22:13:20+00:00",
        Some("later"),
    );
    assert!(matches!(bad_expiry, Err(AppError::Internal(_))));
}

#[test]
fn test_rate_limiter_allows_under_limit() {
    let limit_per_minute = 10;
    let limiter = RateLimiter::new(limit_per_minute);
    let mut entry: Option<RateWindow> = None;
    for i in 0..limit_per_minute {
        let (state, result) = limiter.check(entry, 100);
        entry = Some(state);
        assert!(result.is_ok(), "Request {} should be allowed", i);
    }
}

#[test]
fn test_rate_limiter_blocks_over_limit() {
    let limit_per_minute = 5;
    let limiter = RateLimiter::new(limit_per_minute);
    let mut entry: Option<RateWindow> = None;
    for _ in 0..limit_per_minute {
        let (state, result) = limiter.check(entry, 100);
        entry = Some(state);
        result.unwrap();
    }
    let (_, result) = limiter.check(entry, 100);
    assert!(result.is_err());
}

#[test]
fn test_rate_limiter_different_ips_independent() {
    let limiter = RateLimiter::new(2);
    let mut state: HashMap<&str, RateWindow> = HashMap::new();

    let (w, r) = limiter.check(state.get("127.0.0.1").copied(), 50);
    state.insert("127.0.0.1", w);
    r.unwrap();
    let (w, r) = limiter.check(state.get("127.0.0.1").copied(), 50);
    state.insert("127.0.0.1", w);
    r.unwrap();

    let (w, r) = limiter.check(state.get("127.0.0.1").copied(), 50);
    state.insert("127.0.0.1", w);
    assert!(r.is_err());

    let (w, r) = limiter.check(state.get("192.168.1.1").copied(), 50);
    state.insert("192.168.1.1", w);
    assert!(r.is_ok());
}

#[test]
fn test_rate_limiter_integration_60_per_minute() {
    let limit_per_minute = 60;
    let limiter = RateLimiter::new(limit_per_minute);
    let mut entry: Option<RateWindow> = None;
    for i in 1..=limit_per_minute {
        let (state, result) = limiter.check(entry, 1000);
        entry = Some(state);
        assert!(result.is_ok(), "Request {} should succeed", i);
    }
    let (_, result) = limiter.check(entry, 1000);
    assert!(result.is_err(), "Request 61 should be rate limited");
    let retry_after = result.unwrap_err();
    assert!(
        retry_after > 0 && retry_after <= limit_per_minute as u64,
        "retry_after should be between 1 and 60 seconds, got {}",
        retry_after
    );
}

#[test]
fn test_rate_limiter_window_resets() {
    let limiter = RateLimiter::new(1);
    let (w1, r1) = limiter.check(None, 0);
    r1.unwrap();
    let (w2, r2) = limiter.check(Some(w1), 10);
    assert_eq!(r2, Err(50));
    let (_, r3) = limiter.check(Some(w2), 60);
    assert!(r3.is_ok());
}

#[test]
fn test_config_defaults() {
    let config =
        Config::from_parts(None, None, None, None, None, None, None, None).unwrap();
    assert_eq!(config.database_url, "sqlite:data/shortener.db");
    assert_eq!(config.base_url, "http://localhost:8080");
    assert_eq!(config.host, "0.0.0.0");
    assert_eq!(config.port, 8080);
    assert_eq!(config.rate_limit_per_minute, 60);
    assert_eq!(config.qr_branding_logo, None);
    assert_eq!(config.qr_size, 512);
    assert_eq!(config.cleanup_interval_minutes, 60);
}

#[test]
fn test_config_rejects_bad_numbers() {
    let r = Config::from_parts(None, None, None, Some("99999".to_string()), None, None, None, None);
    assert!(matches!(r, Err(ConfigError::InvalidPort)));
    let r = Config::from_parts(None, None, None, None, Some("abc".to_string()), None, None, None);
    assert!(matches!(r, Err(ConfigError::InvalidRateLimit)));
    let r = Config::from_parts(None, None, None, None, None, None, Some("-3".to_string()), None);
    assert!(matches!(r, Err(ConfigError::InvalidQrSize)));
    let r = Config::from_parts(None, None, None, None, None, None, None, Some("".to_string()));
    assert!(matches!(r, Err(ConfigError::InvalidCleanupInterval)));
}

#[test]
fn test_config_accepts_explicit_values() {
    let config = Config::from_parts(
        Some("sqlite::memory:".to_string()),
        Some("http://test.local".to_string()),
        Some("127.0.0.1".to_string()),
        Some("3000".to_string()),
        Some("5".to_string()),
        Some("assets/logo.svg".to_string()),
        Some("256".to_string()),
        Some("0".to_string()),
    )
    .unwrap();
    assert_eq!(config.database_url, "sqlite::memory:");
    assert_eq!(config.base_url, "http://test.local");
    assert_eq!(config.host, "127.0.0.1");
    assert_eq!(config.port, 3000);
    assert_eq!(config.rate_limit_per_minute, 5);
    assert_eq!(config.qr_branding_logo, Some("assets/logo.svg".to_string()));
    assert_eq!(config.qr_size, 256);
    assert_eq!(config.cleanup_interval_minutes, 0);
}

#[test]
fn test_error_status_codes_and_labels() {
    let cases: Vec<(AppError, u16, &str)> = vec![
        (AppError::LinkNotFound, 404, "not_found"),
        (AppError::LinkExpired, 410, "link_expired"),
        (AppError::InvalidUrl("x".to_string()), 400, "invalid_url"),
        (AppError::RateLimitExceeded(30), 429, "rate_limit_exceeded"),
        (AppError::ShortCodeExhausted, 503, "short_code_exhausted"),
        (AppError::Database("d".to_string()), 500, "internal_error"),
        (AppError::QrGeneration("q".to_string()), 500, "qr_error"),
        (AppError::Internal("i".to_string()), 500, "internal_error"),
    ];
    for (err, status, label) in cases {
        assert_eq!(err.status_code(), status);
        assert_eq!(err.error_label(), label);
    }
}

#[test]
fn test_error_client_messages() {
    assert_eq!(
        AppError::RateLimitExceeded(30).client_message(),
        Some("Retry after 30 seconds".to_string())
    );
    assert_eq!(
        AppError::InvalidUrl("bad".to_string()).client_message(),
        Some("bad".to_string())
    );
    assert_eq!(AppError::LinkNotFound.client_message(), None);
}

#[test]
fn test_join_short_url() {
    assert_eq!(join_short_url("http://test.local", "abc"), "http://test.local/abc");
    assert_eq!(join_short_url("http://test.local/", "abc"), "http://test.local/abc");
    assert_eq!(join_short_url("http://test.local//", "abc"), "http://test.local/abc");
    assert_eq!(join_short_url("", "abc"), "/abc");
}

#[test]
fn test_u64_to_string() {
    assert_eq!(u64_to_string(0), "0");
    assert_eq!(u64_to_string(7), "7");
    assert_eq!(u64_to_string(60), "60");
    assert_eq!(u64_to_string(1234567890), "1234567890");
    assert_eq!(u64_to_string(u64::MAX), "18446744073709551615");
}

#[test]
fn test_parse_u64() {
    assert_eq!(parse_u64("0"), Some(0));
    assert_eq!(parse_u64("8080"), Some(8080));
    assert_eq!(parse_u64("18446744073709551615"), Some(u64::MAX));
    assert_eq!(parse_u64("18446744073709551616"), None);
    assert_eq!(parse_u64(""), None);
    assert_eq!(parse_u64("12a"), None);
    assert_eq!(parse_u64("-1"), None);
}

#[test]
fn test_logo_kind_dispatch() {
    assert_eq!(qrlink::logo::logo_kind("svg"), Ok(LogoKind::Vector));
    assert_eq!(qrlink::logo::logo_kind("SVG"), Ok(LogoKind::Vector));
    assert_eq!(qrlink::logo::logo_kind("png"), Ok(LogoKind::Raster));
    assert_eq!(qrlink::logo::logo_kind("jpg"), Ok(LogoKind::Raster));
    assert_eq!(qrlink::logo::logo_kind("JPEG"), Ok(LogoKind::Raster));
    assert_eq!(qrlink::logo::logo_kind("gif"), Err(LogoError::UnsupportedFormat));
    assert_eq!(qrlink::logo::logo_kind(""), Err(LogoError::UnsupportedFormat));
}

#[test]
fn test_load_raster_logo_decodes_png_bytes() {
    // Encode a small image with the codec the application itself uses.
    let mut png: Vec<u8> = Vec::new();
    let buf = image::RgbaImage::from_pixel(5, 4, image::Rgba([1, 2, 3, 255]));
    buf.write_to(&mut std::io::Cursor::new(&mut png), image::ImageFormat::Png)
        .unwrap();
    let logo = qrlink::logo::load_raster_logo(&png).unwrap();
    assert_eq!(logo.width(), 5);
    assert_eq!(logo.height(), 4);
    assert_eq!(logo.channel_at(2, 2, 0), 1);
    assert_eq!(logo.channel_at(2, 2, 1), 2);
    assert_eq!(logo.channel_at(2, 2, 2), 3);
    assert_eq!(logo.channel_at(2, 2, 3), 255);
}

#[test]
fn test_load_raster_logo_rejects_garbage() {
    let garbage = vec![1u8, 2, 3, 4, 5];
    assert!(matches!(
        qrlink::logo::load_raster_logo(&garbage),
        Err(LogoError::ParseFailure)
    ));
}

#[test]
fn test_generated_png_decodes_as_raster_logo() {
    let bytes = QrGenerator::new(96, None).generate("loop").unwrap();
    let decoded = qrlink::logo::load_raster_logo(&bytes).unwrap();
    assert_eq!(decoded.width(), 96);
    assert_eq!(decoded.height(), 96);
}

#[test]
fn test_pixel_image_filled() {
    let img = PixelImage::filled(3, 2, 9, 8, 7, 6);
    assert_eq!(img.width(), 3);
    assert_eq!(img.height(), 2);
    assert_eq!(img.channel_at(2, 1, 0), 9);
    assert_eq!(img.channel_at(0, 0, 3), 6);
}

#[test]
fn test_contains_substr() {
    assert!(qrlink::text::contains_substr(
        "error returned from database: UNIQUE constraint failed: links.short_code",
        "UNIQUE constraint failed"
    ));
    assert!(!qrlink::text::contains_substr(
        "no such table: links",
        "UNIQUE constraint failed"
    ));
    assert!(qrlink::text::contains_substr("abc", ""));
    assert!(qrlink::text::contains_substr("abc", "abc"));
    assert!(!qrlink::text::contains_substr("ab", "abc"));
    assert!(qrlink::text::contains_substr("aab", "ab"));
}

#[test]
fn test_svg_working_dims() {
    assert_eq!(qrlink::logo::svg_working_dims(100, 50), (200, 100));
    assert_eq!(qrlink::logo::svg_working_dims(50, 100), (100, 200));
    assert_eq!(qrlink::logo::svg_working_dims(200, 200), (200, 200));
    assert_eq!(qrlink::logo::svg_working_dims(1, 4096), (0, 200));
}
