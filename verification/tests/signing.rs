use base64::Engine;
use hmac::Mac;
use sym_rest_rc::auth::{canonical_request, AuthHeaders, SigningContext};
use sym_rest_rc::clock::Timestamp;
use sym_rest_rc::crypto::{content_md5, decode_secret_key, sign, SigningError};

const SECRET: &str = "c2VjcmV0";

fn fixed_time() -> Timestamp {
    Timestamp { date_time: String::from("2024-01-02 03:04:05"), nanos: 678 }
}

#[test]
fn canonical_string_without_body_or_query() {
    let s = canonical_request("POST", "md5", SECRET, "date", "cust", "/x/projects/p", None, None);
    assert_eq!(s, "POST\nmd5\nc2VjcmV0\ndate\ncust\n/x/projects/p\n");
    assert_eq!(s.matches('\n').count(), 6);
}

#[test]
fn canonical_string_with_query_only() {
    let s = canonical_request(
        "POST",
        "md5",
        SECRET,
        "date",
        "cust",
        "/x/projects/p",
        Some("a=1"),
        None,
    );
    assert_eq!(s, "POST\nmd5\nc2VjcmV0\ndate\ncust\n/x/projects/p\na=1\n");
    assert_eq!(s.matches('\n').count(), 7);
}

#[test]
fn canonical_string_with_body_only() {
    let s = canonical_request(
        "POST",
        "md5",
        SECRET,
        "date",
        "cust",
        "/x/projects/p",
        None,
        Some("{}"),
    );
    assert_eq!(s, "POST\nmd5\nc2VjcmV0\ndate\ncust\n{}\n/x/projects/p\n");
    assert_eq!(s.matches('\n').count(), 7);
}

#[test]
fn canonical_string_with_body_and_query() {
    let s = canonical_request(
        "POST",
        "md5",
        SECRET,
        "date",
        "cust",
        "/x/projects/p",
        Some("a=1"),
        Some("{}"),
    );
    assert_eq!(s, "POST\nmd5\nc2VjcmV0\ndate\ncust\n{}\n/x/projects/p\na=1\n");
    assert_eq!(s.matches('\n').count(), 8);
}

#[test]
fn canonical_string_keeps_empty_fields_as_empty_lines() {
    let s = canonical_request("GET", "", "", "", "", "", None, None);
    assert_eq!(s, "GET\n\n\n\n\n\n");
    let with_empty_query = canonical_request("GET", "", "", "", "", "", Some(""), None);
    assert_eq!(with_empty_query, "GET\n\n\n\n\n\n\n");
}

#[test]
fn content_md5_known_answers() {
    assert_eq!(content_md5(""), "1B2M2Y8AsgTpgAmY7PhCfg==");
    assert_eq!(content_md5("{}"), "mZFLkyvTelC5g8XnyQrpOw==");
    assert_eq!(content_md5("{\"x\":1}"), "rD70jKoI+j7V4CXaae3GRQ==");
}

#[test]
fn content_md5_is_taken_over_utf8_bytes() {
    let body = "caf\u{e9}";
    let expected = base64::engine::general_purpose::STANDARD.encode(md5::compute(body.as_bytes()).0);
    assert_eq!(content_md5(body), expected);
    assert_ne!(content_md5(body), body);
}

#[test]
fn signature_known_answer() {
    // The example of RFC 4231 whose key is "Jefe".
    let tag = sign(b"Jefe", "what do ya want for nothing?");
    assert_eq!(tag, "W9zBRr9gdU5qBCQmCJV1x1oAPwidJzmDnexYuWTsOEM=");
    assert_ne!(tag, "what do ya want for nothing?");
}

#[test]
fn signature_agrees_with_the_hmac_crate() {
    let message = "POST\n\nkey\n2024;1\nme\n/r\n";
    let mut mac = hmac::Hmac::<sha2::Sha256>::new_from_slice(b"secret").unwrap();
    mac.update(message.as_bytes());
    let expected =
        base64::engine::general_purpose::STANDARD.encode(mac.finalize().into_bytes());
    assert_eq!(sign(b"secret", message), expected);
}

#[test]
fn signing_twice_gives_the_same_signature() {
    let key = decode_secret_key(SECRET).unwrap();
    let canonical = canonical_request("GET", "", SECRET, "d;1", "cust", "/r", None, None);
    let first = sign(&key, &canonical);
    let second = sign(&key, &canonical);
    assert_eq!(first, second);
    let other = sign(&key, &canonical_request("GET", "", SECRET, "d;2", "cust", "/r", None, None));
    assert_ne!(first, other);
}

#[test]
fn secret_key_decodes_to_its_bytes() {
    assert_eq!(decode_secret_key(SECRET), Ok(b"secret".to_vec()));
    assert_eq!(decode_secret_key("AA=="), Ok(vec![0u8]));
}

#[test]
fn base64_round_trip_of_keys_and_digests() {
    let engine = base64::engine::general_purpose::STANDARD;
    let keys: Vec<Vec<u8>> = vec![vec![1], vec![1, 2], vec![1, 2, 3], (0u8..=255).collect()];
    for key in keys {
        let text = engine.encode(&key);
        assert_eq!(decode_secret_key(&text), Ok(key));
    }
    let digest = content_md5("body");
    let raw = engine.decode(&digest).unwrap();
    assert_eq!(raw, md5::compute(b"body").0.to_vec());
    assert_eq!(engine.encode(&raw), digest);
    let tag = sign(b"k", "m");
    let raw_tag = engine.decode(&tag).unwrap();
    assert_eq!(raw_tag.len(), 32);
    assert_eq!(engine.encode(&raw_tag), tag);
}

#[test]
fn secret_that_is_not_base64_fails_with_encoding_error() {
    assert_eq!(decode_secret_key("not-base64!!"), Err(SigningError::InvalidSecretKeyEncoding));
    let r = AuthHeaders::generate("GET", "/r", None, None, "c", "not-base64!!");
    assert_eq!(r.err(), Some(SigningError::InvalidSecretKeyEncoding));
    let at = AuthHeaders::generate_at("GET", "/r", None, Some("{}"), "c", "not-base64!!", &fixed_time());
    assert_eq!(at.err(), Some(SigningError::InvalidSecretKeyEncoding));
}

#[test]
fn secret_that_decodes_to_nothing_fails_with_length_error() {
    assert_eq!(decode_secret_key(""), Err(SigningError::InvalidSecretKeyLength));
    let r = AuthHeaders::generate_at("GET", "/r", None, None, "c", "", &fixed_time());
    assert_eq!(r.err(), Some(SigningError::InvalidSecretKeyLength));
}

#[test]
fn generate_at_with_body_and_query() {
    let h = AuthHeaders::generate_at(
        "POST",
        "/x/projects/p",
        Some("a=1"),
        Some("{}"),
        "cust",
        SECRET,
        &fixed_time(),
    )
    .unwrap();
    assert_eq!(h.content_md5, "mZFLkyvTelC5g8XnyQrpOw==");
    assert_eq!(h.sym_date, "2024-01-02 03:04:05;678");
    assert_eq!(h.authorization, "lxdJ+OrM261+oxE+ez7kiLoGEzd4+qf/U9A/7xYcoNI=");
}

#[test]
fn generate_at_without_body_has_empty_content_md5() {
    let h = AuthHeaders::generate_at("GET", "/r", None, None, "cust", SECRET, &fixed_time())
        .unwrap();
    assert_eq!(h.content_md5, "");
    let canonical =
        canonical_request("GET", "", SECRET, "2024-01-02 03:04:05;678", "cust", "/r", None, None);
    assert_eq!(h.authorization, sign(b"secret", &canonical));
}

#[test]
fn generate_signs_the_date_that_it_returns() {
    let h = AuthHeaders::generate("POST", "/r", Some("q=1"), Some("{}"), "cust", SECRET).unwrap();
    let (date, nanos) = h.sym_date.split_once(';').unwrap();
    assert_eq!(date.len(), 19);
    let nanos: u32 = nanos.parse().unwrap();
    let again = AuthHeaders::generate_at(
        "POST",
        "/r",
        Some("q=1"),
        Some("{}"),
        "cust",
        SECRET,
        &Timestamp { date_time: date.to_string(), nanos },
    )
    .unwrap();
    assert_eq!(again.sym_date, h.sym_date);
    assert_eq!(again.content_md5, h.content_md5);
    assert_eq!(again.authorization, h.authorization);
}

#[test]
fn timestamp_of_known_instants() {
    assert_eq!(Timestamp::from_unix(0, 5).unwrap().to_wire(), "1970-01-01 00:00:00;5");
    assert_eq!(
        Timestamp::from_unix(1704164645, 678).unwrap().to_wire(),
        "2024-01-02 03:04:05;678"
    );
    assert_eq!(
        Timestamp::from_unix(-1, 999_999_999).unwrap().to_wire(),
        "1969-12-31 23:59:59;999999999"
    );
}

#[test]
fn timestamp_nanoseconds_have_no_padding() {
    let t = Timestamp { date_time: String::from("2024-01-02 03:04:05"), nanos: 0 };
    assert_eq!(t.to_wire(), "2024-01-02 03:04:05;0");
    let t = Timestamp { date_time: String::from("2024-01-02 03:04:05"), nanos: 7 };
    assert_eq!(t.to_wire(), "2024-01-02 03:04:05;7");
    let t = Timestamp { date_time: String::from("2024-01-02 03:04:05"), nanos: 4_294_967_295 };
    assert_eq!(t.to_wire(), "2024-01-02 03:04:05;4294967295");
}

#[test]
fn timestamp_out_of_the_calendar_is_none() {
    assert!(Timestamp::from_unix(i64::MAX, 0).is_none());
    assert!(Timestamp::from_unix(0, 2_000_000_000).is_none());
}

#[test]
fn timestamp_now_agrees_with_chrono() {
    let before = chrono::Utc::now().timestamp();
    let t = Timestamp::now();
    let after = chrono::Utc::now().timestamp();
    let mut found = false;
    for secs in before..=after {
        let wanted = chrono::DateTime::from_timestamp(secs, 0)
            .unwrap()
            .format("%Y-%m-%d %H:%M:%S")
            .to_string();
        if wanted == t.date_time {
            found = true;
        }
    }
    assert!(found);
    assert!(t.nanos < 1_000_000_000);
}

#[test]
fn signing_context_signs_as_generate_does() {
    let context = SigningContext {
        method: "POST",
        resource_path: "/x/projects/p",
        query: Some("a=1"),
        body: Some("{}"),
        customer_id: "cust",
        secret_key: SECRET,
    };
    let h = context.sign_at(&fixed_time()).unwrap();
    assert_eq!(h.content_md5, "mZFLkyvTelC5g8XnyQrpOw==");
    assert_eq!(h.sym_date, "2024-01-02 03:04:05;678");
    assert_eq!(h.authorization, "lxdJ+OrM261+oxE+ez7kiLoGEzd4+qf/U9A/7xYcoNI=");
    let now = context.sign().unwrap();
    assert_eq!(now.content_md5, h.content_md5);
    assert_ne!(now.sym_date, "");
}

#[test]
fn signing_context_with_bad_key_signs_nothing() {
    let context = SigningContext {
        method: "GET",
        resource_path: "/r",
        query: None,
        body: None,
        customer_id: "cust",
        secret_key: "not-base64!!",
    };
    assert_eq!(context.sign_at(&fixed_time()).err(), Some(SigningError::InvalidSecretKeyEncoding));
    assert_eq!(context.sign().err(), Some(SigningError::InvalidSecretKeyEncoding));
    let empty = SigningContext { secret_key: "", ..context };
    assert_eq!(empty.sign().err(), Some(SigningError::InvalidSecretKeyLength));
}

#[test]
fn signing_error_messages() {
    assert_eq!(
        SigningError::InvalidSecretKeyEncoding.message(),
        "Invalid secret key: not valid base64"
    );
    assert_eq!(SigningError::InvalidSecretKeyLength.message(), "Invalid secret key length");
}
