use troyonthetrails::db_service::{
    execute, get_strava_auth, get_troy_status, set_strava_auth, set_troy_status,
    strava_auth_row, DBTable, NoRowAffected, StravaAuthRow, TroyStatusRow,
};
use troyonthetrails::auth::TokenData;
use troyonthetrails::encryption::{decrypt, encrypt, is_overlong, CocoonFailure, EncryptError};
use troyonthetrails::env_utils::{
    get_db_encryption_key, get_host_uri, get_port, get_webhook_secret, parse_port,
};
use troyonthetrails::utils::{
    format_thousands, hash_string, time_ago, to_hex, utc_to_time_ago_human_readable,
};

#[test]
fn a_fingerprint_is_the_sha256_in_hexadecimal() {
    assert_eq!(
        hash_string("abc"),
        "ba7816bf8f01cfea414140de5dae2223b00361a396177a9cb410ff61f20015ad"
    );
    assert_eq!(
        hash_string(""),
        "e3b0c44298fc1c149afbf4c8996fb92427ae41e4649b934ca495991b7852b855"
    );
    assert_eq!(to_hex(&[0x00, 0x0f, 0xa0, 0xff, 0x1b]), "000fa0ff1b");
    assert_eq!(to_hex(&[]), "");
}

#[test]
fn the_webhook_secret_is_the_front_half_of_a_fingerprint() {
    assert_eq!(get_webhook_secret(Some("abc")), "ba7816bf8f01cfea414140de5dae2223");
    assert_eq!(get_webhook_secret(None), hash_string("defaultwebhookseed")[0..32].to_string());
    assert_eq!(get_webhook_secret(None).len(), 32);
}

#[test]
fn a_port_is_read_as_an_unsigned_16_bit_number() {
    for text in ["0", "80", "8080", "65535", "+443", "0080", "000000000000065535", "65536",
                 "99999999999999999999999", "", "+", "-1", "80 ", " 80", "8o80", "++1", "１２"] {
        assert_eq!(parse_port(text), text.parse::<u16>().ok(), "for {:?}", text);
    }
    assert_eq!(get_port(Some("3000")), 3000);
    assert_eq!(get_port(Some("nope")), 8080);
    assert_eq!(get_port(Some("70000")), 8080);
    assert_eq!(get_port(None), 8080);
}

#[test]
fn the_host_address_prefers_the_configured_host() {
    assert_eq!(get_host_uri(Some("troyonthetrails.com"), Some("tott"), 1), "https://troyonthetrails.com");
    assert_eq!(get_host_uri(None, Some("tott"), 1), "https://tott.fly.dev");
    assert_eq!(get_host_uri(None, None, 8080), "http://localhost:8080");
    assert_eq!(get_host_uri(None, None, 0), "http://localhost:0");
}

#[test]
fn the_encryption_key_has_a_default() {
    assert_eq!(get_db_encryption_key(Some("k".to_string())), "k");
    assert_eq!(get_db_encryption_key(None), "defaultdbencryptionkey");
}

#[test]
fn what_is_sealed_opens_under_the_same_key_only() {
    let sealed = encrypt("a key", "a secret token é".to_string()).unwrap();
    assert_ne!(sealed, "a secret token é".as_bytes());
    assert_eq!(decrypt("a key", sealed.clone()).unwrap(), "a secret token é");
    assert_eq!(
        decrypt("another key", sealed.clone()),
        Err(EncryptError::CocoonError(CocoonFailure::Cryptography))
    );
    let again = encrypt("a key", "a secret token é".to_string()).unwrap();
    assert_ne!(again, sealed);
    assert!(matches!(decrypt("a key", vec![1, 2, 3]), Err(EncryptError::CocoonError(_))));
}

#[test]
fn a_credential_survives_the_store() {
    let token = TokenData {
        expires_at: 1_700_000_000,
        access_token: "access".to_string(),
        refresh_token: "refresh".to_string(),
    };
    let row = set_strava_auth("key", token).unwrap();
    assert_eq!(row.id, 1);
    assert_eq!(row.expires_at, 1_700_000_000);
    assert_ne!(row.access_token, b"access");
    let found = get_strava_auth("key", row).unwrap();
    assert_eq!(found.expires_at, 1_700_000_000);
    assert_eq!(found.access_token, "access");
    assert_eq!(found.refresh_token, "refresh");
    let broken = StravaAuthRow { id: 1, expires_at: 5, access_token: vec![], refresh_token: vec![] };
    assert!(get_strava_auth("key", broken).is_err());
}

#[test]
fn a_status_row_is_read_and_a_missing_one_means_off_trail() {
    let status = get_troy_status(Some(TroyStatusRow {
        id: 1,
        is_on_trail: 1,
        beacon_url: Some("https://b.test".to_string()),
        trail_status_updated: 99,
    }));
    assert!(status.is_on_trail);
    assert_eq!(status.beacon_url.as_deref(), Some("https://b.test"));
    assert_eq!(status.trail_status_updated, Some(99));
    for flag in [0u8, 2, 255] {
        let status = get_troy_status(Some(TroyStatusRow {
            id: 1,
            is_on_trail: flag,
            beacon_url: None,
            trail_status_updated: 0,
        }));
        assert!(!status.is_on_trail);
        assert_eq!(status.trail_status_updated, Some(0));
    }
    let missing = get_troy_status(None);
    assert!(!missing.is_on_trail);
    assert_eq!(missing.beacon_url, None);
    assert_eq!(missing.trail_status_updated, None);
}

#[test]
fn writes_are_checked_and_named() {
    assert_eq!(set_troy_status(true), 1);
    assert_eq!(set_troy_status(false), 0);
    assert_eq!(execute(0), Err(NoRowAffected));
    assert_eq!(execute(1), Ok(1));
    assert_eq!(execute(7), Ok(7));
    assert_eq!(DBTable::TroyStatus.name(), "troy_status");
    assert_eq!(DBTable::StravaAuth.name(), "strava_auth");
}

#[test]
fn thousands_are_grouped_in_the_whole_part() {
    assert_eq!(format_thousands("0"), "0");
    assert_eq!(format_thousands("999"), "999");
    assert_eq!(format_thousands("1000"), "1,000");
    assert_eq!(format_thousands("1234567"), "1,234,567");
    assert_eq!(format_thousands("1234567.891"), "1,234,567.891");
    assert_eq!(format_thousands("12.5"), "12.5");
    assert_eq!(format_thousands("-1234"), "-1,234");
    assert_eq!(format_thousands("-123"), "-,123");
    assert_eq!(format_thousands(""), "");
    assert_eq!(format_thousands(".5"), ".5");
    assert_eq!(format_thousands("1234."), "1,234.");
    assert_eq!(format_thousands("1.2.3"), "1.2");
    assert_eq!(format_thousands("inf"), "inf");
}

#[test]
fn grouping_agrees_with_floating_point_text() {
    for number in [0.0f64, 1.0, 12.5, 1000.0, 98765.4321, 1e15, -2500.75] {
        let text = number.to_string();
        let parts: Vec<&str> = text.split('.').collect();
        let mut chars: Vec<char> = parts[0].chars().collect();
        let mut index = chars.len() as isize - 3;
        while index > 0 {
            chars.insert(index as usize, ',');
            index -= 3;
        }
        let whole: String = chars.into_iter().collect();
        let expected = if parts.len() > 1 { format!("{}.{}", whole, parts[1]) } else { whole };
        assert_eq!(format_thousands(&text), expected);
    }
}

#[test]
fn elapsed_seconds_are_put_in_words() {
    assert_eq!(time_ago(None), "unknown");
    assert_eq!(time_ago(Some(i64::MIN)), "just now");
    assert_eq!(time_ago(Some(-5)), "just now");
    assert_eq!(time_ago(Some(0)), "just now");
    assert_eq!(time_ago(Some(59)), "just now");
    assert_eq!(time_ago(Some(60)), "1 minutes ago");
    assert_eq!(time_ago(Some(3599)), "59 minutes ago");
    assert_eq!(time_ago(Some(3600)), "1 hours ago");
    assert_eq!(time_ago(Some(86399)), "23 hours ago");
    assert_eq!(time_ago(Some(86400)), "1 day ago");
    assert_eq!(time_ago(Some(172799)), "1 day ago");
    assert_eq!(time_ago(Some(172800)), "2 days ago");
    assert_eq!(time_ago(Some(i64::MAX)), "106751991167300 days ago");
}

#[test]
fn a_moment_is_read_from_its_text() {
    assert_eq!(utc_to_time_ago_human_readable("not a date"), "unknown");
    assert_eq!(utc_to_time_ago_human_readable(""), "unknown");
    assert_eq!(utc_to_time_ago_human_readable("2999-01-01T00:00:00Z"), "just now");
    let long_ago = utc_to_time_ago_human_readable("1996-12-19T16:39:57-08:00");
    assert!(long_ago.ends_with(" days ago"), "got {:?}", long_ago);
    assert_ne!(long_ago, "1996-12-19T16:39:57-08:00");
}

#[test]
fn sealed_bytes_that_are_no_text_are_told_apart() {
    let sealed = cocoon::Cocoon::new(b"a key").wrap(&[0xff, 0xfe, 0x41]).unwrap();
    assert_eq!(decrypt("a key", sealed.clone()), Err(EncryptError::Utf8Error));
    assert_eq!(
        decrypt("a key", Vec::new()),
        Err(EncryptError::CocoonError(CocoonFailure::UnrecognizedFormat))
    );
    let cut = sealed[..sealed.len() - 1].to_vec();
    assert_eq!(decrypt("a key", cut), Err(EncryptError::CocoonError(CocoonFailure::TooShort)));
}

#[test]
fn a_row_is_made_where_both_tokens_were_sealed() {
    let row = strava_auth_row(77, Ok(vec![1, 2]), Ok(vec![3])).unwrap();
    assert_eq!(row.id, 1);
    assert_eq!(row.expires_at, 77);
    assert_eq!(row.access_token, vec![1, 2]);
    assert_eq!(row.refresh_token, vec![3]);
    let refused = EncryptError::CocoonError(CocoonFailure::Cryptography);
    let other = EncryptError::CocoonError(CocoonFailure::TooLarge);
    assert_eq!(strava_auth_row(77, Err(refused), Ok(vec![3])).unwrap_err(), refused);
    assert_eq!(strava_auth_row(77, Ok(vec![1]), Err(other)).unwrap_err(), other);
    assert_eq!(strava_auth_row(77, Err(refused), Err(other)).unwrap_err(), refused);
}

#[test]
fn a_sealed_credential_differs_each_time_and_opens_each_time() {
    let token = |tag: &str| TokenData {
        expires_at: 5,
        access_token: format!("access-{}", tag),
        refresh_token: format!("refresh-{}", tag),
    };
    let first = set_strava_auth("key", token("a")).unwrap();
    let second = set_strava_auth("key", token("a")).unwrap();
    assert_ne!(first.access_token, second.access_token);
    assert_ne!(first.access_token, first.refresh_token);
    assert_eq!(get_strava_auth("key", first).unwrap().refresh_token, "refresh-a");
    assert!(get_strava_auth("another key", second).is_err());
}

#[test]
fn a_container_that_declares_more_than_fits_is_refused_and_not_opened() {
    let sealed = encrypt("a key", "token".to_string()).unwrap();
    assert_eq!(sealed.len(), 60 + 5);
    assert_eq!(&sealed[36..44], &[0, 0, 0, 0, 0, 0, 0, 5]);
    assert!(!is_overlong(&sealed));
    let mut overlong = sealed.clone();
    overlong[36..44].copy_from_slice(&u64::MAX.to_be_bytes());
    assert!(is_overlong(&overlong));
    assert_eq!(
        decrypt("a key", overlong),
        Err(EncryptError::CocoonError(CocoonFailure::TooShort))
    );
    let mut edge = sealed.clone();
    edge[36..44].copy_from_slice(&((usize::MAX - 59) as u64).to_be_bytes());
    assert!(is_overlong(&edge));
    assert_eq!(decrypt("a key", edge), Err(EncryptError::CocoonError(CocoonFailure::TooShort)));
    let mut long = sealed.clone();
    long[36..44].copy_from_slice(&((usize::MAX - 60) as u64).to_be_bytes());
    assert!(!is_overlong(&long));
    assert_eq!(decrypt("a key", long), Err(EncryptError::CocoonError(CocoonFailure::TooShort)));
    let mut short = sealed[..59].to_vec();
    short[36..44].copy_from_slice(&u64::MAX.to_be_bytes());
    assert!(!is_overlong(&short));
    assert_eq!(
        decrypt("a key", short),
        Err(EncryptError::CocoonError(CocoonFailure::UnrecognizedFormat))
    );
}
