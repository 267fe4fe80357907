use sealbox::headers::RequestHeaders;
use sealbox::sealing::{open_value, SecretError};
use sealbox::secret::Secret;

fn empty_headers() -> RequestHeaders {
    RequestHeaders::empty()
}

#[test]
fn default_policy_scenario() {
    let spd = Secret::create(b"hello world", None, None, None, empty_headers()).unwrap();
    assert_eq!(spd.secret.lifecycle.max.reads, 1);
    assert_eq!(spd.secret.lifecycle.max.seconds, 3600);
    assert_eq!(spd.secret.facts.pwd, None);
    assert_eq!(spd.secret.meta.content_type, "none");
    assert!(spd.secret.active);
    assert_eq!(spd.secret.lifecycle.current.reads, 0);
}

#[test]
fn meta_bytes_is_ciphertext_length() {
    let input = b"some payload of twenty-six!";
    let spd = Secret::create(input, None, None, None, empty_headers()).unwrap();
    assert_eq!(spd.secret.meta.bytes, spd.value.len());
    assert_eq!(spd.value.len(), input.len() + 40);
    assert_ne!(spd.secret.meta.bytes, input.len());
}

#[test]
fn content_type_header_fallback() {
    let headers = RequestHeaders {
        content_type: Some(b"text/plain".to_vec()),
        user_agent: None,
        x_forwarded_for: None,
    };
    let spd = Secret::create(b"just some text", None, None, None, headers).unwrap();
    assert_eq!(spd.secret.meta.content_type, "text/plain");
}

#[test]
fn content_type_sniffed_from_magic_bytes() {
    // A PNG signature wins over any declared header.
    let png = [0x89u8, 0x50, 0x4E, 0x47, 0x0D, 0x0A, 0x1A, 0x0A, 0, 0, 0, 0];
    let headers = RequestHeaders {
        content_type: Some(b"text/plain".to_vec()),
        user_agent: None,
        x_forwarded_for: None,
    };
    let spd = Secret::create(&png, None, None, None, headers).unwrap();
    assert_eq!(spd.secret.meta.content_type, "image/png");
}

#[test]
fn content_type_error_marker_on_undecodable_header() {
    let headers = RequestHeaders {
        content_type: Some(vec![0xFFu8, 0xFE]),
        user_agent: None,
        x_forwarded_for: None,
    };
    let spd = Secret::create(b"just some text", None, None, None, headers).unwrap();
    assert_eq!(spd.secret.meta.content_type, "error");
}

#[test]
fn provenance_headers_captured() {
    let headers = RequestHeaders {
        content_type: None,
        user_agent: Some(b"curl/8.0".to_vec()),
        x_forwarded_for: Some(b"203.0.113.9".to_vec()),
    };
    let spd = Secret::create(b"payload", None, None, None, headers).unwrap();
    assert_eq!(spd.secret.meta.user_agent.as_deref(), Some("curl/8.0"));
    assert_eq!(spd.secret.meta.x_forwarded_for.as_deref(), Some("203.0.113.9"));
}

#[test]
fn provenance_headers_absent_stay_absent() {
    let spd = Secret::create(b"payload", None, None, None, empty_headers()).unwrap();
    assert_eq!(spd.secret.meta.user_agent, None);
    assert_eq!(spd.secret.meta.x_forwarded_for, None);
}

#[test]
fn provenance_header_error_marker() {
    let headers = RequestHeaders {
        content_type: None,
        user_agent: Some(vec![0x01u8]),
        x_forwarded_for: None,
    };
    let spd = Secret::create(b"payload", None, None, None, headers).unwrap();
    assert_eq!(spd.secret.meta.user_agent.as_deref(), Some("error"));
}

#[test]
fn expire_seconds_clamped_to_thirty_days() {
    let spd = Secret::create(b"x", None, Some(2_700_000), None, empty_headers()).unwrap();
    assert_eq!(spd.secret.lifecycle.max.seconds, 2_592_000);
}

#[test]
fn expire_seconds_huge_request_clamped_exactly() {
    let spd = Secret::create(b"x", None, Some(9_999_999_999), None, empty_headers()).unwrap();
    assert_eq!(spd.secret.lifecycle.max.seconds, 2_592_000);
}

#[test]
fn time_bounded_secret_defaults_to_unlimited_reads() {
    let spd = Secret::create(b"x", None, Some(60), None, empty_headers()).unwrap();
    assert_eq!(spd.secret.lifecycle.max.reads, -1);
    assert_eq!(spd.secret.lifecycle.max.seconds, 60);
}

#[test]
fn explicit_read_limit_used_unchanged() {
    let spd = Secret::create(b"x", Some(5), None, None, empty_headers()).unwrap();
    assert_eq!(spd.secret.lifecycle.max.reads, 5);
    let spd = Secret::create(b"x", Some(-1), Some(60), None, empty_headers()).unwrap();
    assert_eq!(spd.secret.lifecycle.max.reads, -1);
}

#[test]
fn password_commitment_deterministic() {
    let pwd = String::from("s3cret");
    let a = Secret::create(b"one", None, None, Some(&pwd), empty_headers()).unwrap();
    let b = Secret::create(b"two", None, None, Some(&pwd), empty_headers()).unwrap();
    assert!(a.secret.facts.pwd.is_some());
    assert_eq!(a.secret.facts.pwd, b.secret.facts.pwd);
}

#[test]
fn password_commitments_differ_for_different_passwords() {
    let p1 = String::from("alpha");
    let p2 = String::from("beta");
    let a = Secret::create(b"one", None, None, Some(&p1), empty_headers()).unwrap();
    let b = Secret::create(b"one", None, None, Some(&p2), empty_headers()).unwrap();
    assert_ne!(a.secret.facts.pwd, b.secret.facts.pwd);
}

#[test]
fn round_trip_recovers_payload() {
    let input = b"attack at dawn";
    let spd = Secret::create(input, None, None, None, empty_headers()).unwrap();
    // Through the library.
    let reopened = open_value(&spd.key, &spd.value).unwrap();
    assert_eq!(reopened, input.to_vec());
    // And through the cipher crate directly, against the same key and blob.
    let sk = orion::aead::SecretKey::from_slice(spd.key.as_bytes()).unwrap();
    let reopened2 = orion::aead::open(&sk, &spd.value).unwrap();
    assert_eq!(reopened2, input.to_vec());
}

#[test]
fn open_fails_under_wrong_key() {
    let spd = Secret::create(b"attack at dawn", None, None, None, empty_headers()).unwrap();
    let other = Secret::create(b"attack at dawn", None, None, None, empty_headers()).unwrap();
    assert!(open_value(&other.key, &spd.value).is_err());
}

#[test]
fn empty_payload_is_a_crypto_error() {
    let r = Secret::create(b"", None, None, None, empty_headers());
    assert!(matches!(r, Err(SecretError::CryptoError(_))));
}

#[test]
fn key_is_32_alphanumeric_characters() {
    let spd = Secret::create(b"x", None, None, None, empty_headers()).unwrap();
    assert_eq!(spd.key.len(), 32);
    assert!(spd.key.bytes().all(|b| b.is_ascii_alphanumeric()));
}

#[test]
fn id_is_hyphenated_uuid_form() {
    let spd = Secret::create(b"x", None, None, None, empty_headers()).unwrap();
    let id = &spd.secret.id;
    assert_eq!(id.len(), 36);
    for (i, c) in id.chars().enumerate() {
        if i == 8 || i == 13 || i == 18 || i == 23 {
            assert_eq!(c, '-');
        } else {
            assert!(c.is_ascii_hexdigit());
        }
    }
}

#[test]
fn ids_unique_across_many_secrets() {
    let mut seen = std::collections::HashSet::new();
    for _ in 0..100_000 {
        let spd = Secret::create(b"x", None, None, None, empty_headers()).unwrap();
        assert!(seen.insert(spd.secret.id));
    }
    assert_eq!(seen.len(), 100_000);
}

#[test]
fn expiry_is_creation_time_plus_lifetime() {
    let before = chrono::Utc::now().timestamp_millis();
    let spd = Secret::create(b"x", None, Some(60), None, empty_headers()).unwrap();
    let after = chrono::Utc::now().timestamp_millis();
    let expires = spd.secret.lifecycle.max.expires;
    assert!(expires >= before + 60_000);
    assert!(expires <= after + 60_000);
}
