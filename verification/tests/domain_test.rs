use qrlink::{Link, LinkResponse, ShortCode, Ttl};

const NOW: i64 = 1_700_000_000;

fn create_test_link(expires_at: Option<i64>) -> Link {
    Link {
        id: 0x1234_5678_9abc_def0_1234_5678_9abc_def0,
        short_code: ShortCode::from_existing("Ab3kP9x".to_string()),
        target_url: "https://example.com/".to_string(),
        created_at: NOW,
        expires_at,
    }
}

#[test]
fn test_link_not_expired_when_no_expiry() {
    let link = create_test_link(None);
    assert!(!link.is_expired(NOW));
}

#[test]
fn test_link_not_expired_before_expiry() {
    let future = NOW + 3600;
    let link = create_test_link(Some(future));
    assert!(!link.is_expired(NOW));
}

#[test]
fn test_link_expired_at_expiry() {
    let link = create_test_link(Some(NOW));
    assert!(link.is_expired(NOW));
}

#[test]
fn test_link_expired_after_expiry() {
    let past = NOW - 3600;
    let link = create_test_link(Some(past));
    assert!(link.is_expired(NOW));
}

const ALPHABET: &[u8] = b"ABCDEFGHJKLMNPQRSTUVWXYZabcdefghijkmnpqrstuvwxyz23456789";

#[test]
fn test_short_code_length() {
    let code = ShortCode::generate();
    assert_eq!(code.as_str().len(), 7);
}

#[test]
fn test_short_code_alphabet() {
    let code = ShortCode::generate();
    for c in code.as_str().chars() {
        assert!(
            ALPHABET.contains(&(c as u8)),
            "Character {} not in alphabet",
            c
        );
    }
}

#[test]
fn test_short_code_no_ambiguous_chars() {
    for _ in 0..100 {
        let code = ShortCode::generate();
        let s = code.as_str();
        assert!(!s.contains('o'));
        assert!(!s.contains('O'));
        assert!(!s.contains('0'));
        assert!(!s.contains('I'));
        assert!(!s.contains('l'));
        assert!(!s.contains('1'));
    }
}

#[test]
fn test_short_codes_are_different() {
    let code1 = ShortCode::generate();
    let code2 = ShortCode::generate();
    assert_ne!(code1, code2);
}

#[test]
fn test_short_code_from_existing_round_trip() {
    let code = ShortCode::from_existing("Xy2mN8q".to_string());
    assert_eq!(code.as_str(), "Xy2mN8q");
}

#[test]
fn test_ttl_one_week() {
    let now = NOW;
    let expires = Ttl::OneWeek.expires_at(now).unwrap();
    assert_eq!((expires - now) / 86400, 7);
}

#[test]
fn test_ttl_one_month() {
    let now = NOW;
    let expires = Ttl::OneMonth.expires_at(now).unwrap();
    assert_eq!((expires - now) / 86400, 30);
}

#[test]
fn test_ttl_one_year() {
    let now = NOW;
    let expires = Ttl::OneYear.expires_at(now).unwrap();
    assert_eq!((expires - now) / 86400, 365);
}

#[test]
fn test_ttl_never_has_no_expiry() {
    assert_eq!(Ttl::Never.expires_at(NOW), None);
}

#[test]
fn test_link_response_from_link_trims_base() {
    let link = create_test_link(Some(NOW + 60));
    let resp = LinkResponse::from_link(&link, "http://test.local///");
    assert_eq!(resp.short_url, "http://test.local/Ab3kP9x");
    assert_eq!(resp.short_code, "Ab3kP9x");
    assert_eq!(resp.target_url, "https://example.com/");
    assert_eq!(resp.id, link.id);
    assert_eq!(resp.created_at, NOW);
    assert_eq!(resp.expires_at, Some(NOW + 60));
}
