use rusty_bybit::auth::{generate_signature, get_current_timestamp_ms, Credentials};
use rusty_bybit::text::{decimal_i64, decimal_u64, push_decimal};

#[test]
fn test_generate_signature() {
    let timestamp = 1658384314791;
    let api_key = "XXXXXXXXXX";
    let recv_window = 5000;
    let query_string = "category=option&symbol=BTC-29JUL22-25000-C";
    let secret = "test_secret";

    let signature = generate_signature(timestamp, api_key, recv_window, query_string, secret);
    assert!(!signature.is_empty());
    assert_eq!(signature.len(), 64);
}

#[test]
fn test_generate_signature_post() {
    let timestamp = 1658385579423;
    let api_key = "XXXXXXXXXX";
    let recv_window = 5000;
    let body = "{\"category\": \"option\"}";
    let secret = "test_secret";

    let signature = generate_signature(timestamp, api_key, recv_window, body, secret);
    assert!(!signature.is_empty());
    assert_eq!(signature.len(), 64);
}

#[test]
fn signature_has_the_known_value() {
    let signature = generate_signature(
        1658384314791,
        "XXXXXXXXXX",
        5000,
        "category=option&symbol=BTC-29JUL22-25000-C",
        "test_secret",
    );
    assert_eq!(
        signature,
        "2c42d015234a3fc985e5294b2665235b3f51cf59dfbbde6be0097d0bc33256bf"
    );
    let post = generate_signature(
        1658385579423,
        "XXXXXXXXXX",
        5000,
        "{\"category\": \"option\"}",
        "test_secret",
    );
    assert_eq!(
        post,
        "7fdd84061f25faa9566fa013c0dd25adcb78a0ab90cbb992c0f12427d82f7221"
    );
}

#[test]
fn signature_of_edge_inputs() {
    let signature = generate_signature(-5, "k", 0, "", "");
    assert_eq!(
        signature,
        "dd0631e52db84472a559fd6f0cce0c19126bb73eac562ca8bd9f453ac0c2bd0d"
    );
}

#[test]
fn signature_is_stable_across_calls() {
    let first = generate_signature(
        1658384314791,
        "XXXXXXXXXX",
        5000,
        "category=option&symbol=BTC-29JUL22-25000-C",
        "test_secret",
    );
    for _ in 0..5 {
        let again = generate_signature(
            1658384314791,
            "XXXXXXXXXX",
            5000,
            "category=option&symbol=BTC-29JUL22-25000-C",
            "test_secret",
        );
        assert_eq!(first, again);
    }
}

#[test]
fn signature_is_lowercase_hex() {
    let inputs = [
        (0i64, "", 0u64, "", ""),
        (1658384314791, "XXXXXXXXXX", 5000, "a=b", "test_secret"),
        (i64::MIN, "key", u64::MAX, "{\"x\":1}", "s"),
        (i64::MAX, "k\u{e9}y", 1, "p\u{4e2d}", "\u{1f511}"),
    ];
    for (timestamp, key, window, payload, secret) in inputs {
        let signature = generate_signature(timestamp, key, window, payload, secret);
        assert_eq!(signature.chars().count(), 64);
        assert!(signature
            .chars()
            .all(|c| c.is_ascii_digit() || ('a'..='f').contains(&c)));
    }
}

#[test]
fn signature_changes_with_each_input() {
    let base = generate_signature(
        1658384314791,
        "XXXXXXXXXX",
        5000,
        "category=option&symbol=BTC-29JUL22-25000-C",
        "test_secret",
    );
    let payload_flipped = generate_signature(
        1658384314791,
        "XXXXXXXXXX",
        5000,
        "category=option&symbol=BTC-29JUL22-25000-D",
        "test_secret",
    );
    assert_eq!(
        payload_flipped,
        "46971ef26f748aa872a52c896a0957b6d8a50e399ad818353b85caa8bdc2d03b"
    );
    assert_ne!(base, payload_flipped);
    let other_time = generate_signature(
        1658384314792,
        "XXXXXXXXXX",
        5000,
        "category=option&symbol=BTC-29JUL22-25000-C",
        "test_secret",
    );
    assert_ne!(base, other_time);
    let other_key = generate_signature(
        1658384314791,
        "XXXXXXXXXY",
        5000,
        "category=option&symbol=BTC-29JUL22-25000-C",
        "test_secret",
    );
    assert_ne!(base, other_key);
    let other_window = generate_signature(
        1658384314791,
        "XXXXXXXXXX",
        5001,
        "category=option&symbol=BTC-29JUL22-25000-C",
        "test_secret",
    );
    assert_ne!(base, other_window);
    let other_secret = generate_signature(
        1658384314791,
        "XXXXXXXXXX",
        5000,
        "category=option&symbol=BTC-29JUL22-25000-C",
        "test_secreu",
    );
    assert_ne!(base, other_secret);
}

#[test]
fn credentials_keep_what_they_are_given() {
    let credentials = Credentials::new("key".to_string(), "secret".to_string());
    assert_eq!(credentials.api_key, "key");
    assert_eq!(credentials.api_secret, "secret");
    let copy = credentials.clone();
    assert_eq!(copy.api_key, "key");
    assert_eq!(copy.api_secret, "secret");
}

#[test]
fn current_timestamp_is_in_milliseconds() {
    let first = get_current_timestamp_ms();
    let second = get_current_timestamp_ms();
    assert!(first > 1_600_000_000_000);
    assert!(second >= first);
}

#[test]
fn decimal_text_of_unsigned_numbers() {
    assert_eq!(decimal_u64(0), "0");
    assert_eq!(decimal_u64(7), "7");
    assert_eq!(decimal_u64(10), "10");
    assert_eq!(decimal_u64(5000), "5000");
    assert_eq!(decimal_u64(1234567890), "1234567890");
    assert_eq!(decimal_u64(u64::MAX), "18446744073709551615");
}

#[test]
fn decimal_text_of_signed_numbers() {
    assert_eq!(decimal_i64(0), "0");
    assert_eq!(decimal_i64(-1), "-1");
    assert_eq!(decimal_i64(1658384314791), "1658384314791");
    assert_eq!(decimal_i64(-9000), "-9000");
    assert_eq!(decimal_i64(i64::MAX), "9223372036854775807");
    assert_eq!(decimal_i64(i64::MIN), "-9223372036854775808");
}

#[test]
fn decimal_text_agrees_with_std() {
    let samples: [i64; 8] = [0, 9, 10, 99, 100, -100, 1670601600000, -1670608800000];
    for n in samples {
        assert_eq!(decimal_i64(n), n.to_string());
    }
}

#[test]
fn push_decimal_appends() {
    let mut text = String::from("n=");
    push_decimal(&mut text, 305);
    assert_eq!(text, "n=305");
    push_decimal(&mut text, 0);
    assert_eq!(text, "n=3050");
}
