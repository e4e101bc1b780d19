//! Request signing: the credential pair, the canonical message, and the
//! HMAC-SHA256 signature over it in lowercase hexadecimal.

use crate::text::{decimal_i64, decimal_text, digit_char, push_decimal};
use vstd::prelude::*;
use vstd::string::*;
use vstd::utf8::*;

verus! {

/// An API key with its secret. The pair is set once and never changed.
#[derive(Debug, Clone)]
pub struct Credentials {
    pub api_key: String,
    pub api_secret: String,
}

/// What a credential pair holds.
pub struct CredentialsView {
    pub api_key: Seq<char>,
    pub api_secret: Seq<char>,
}

impl View for Credentials {
    type V = CredentialsView;

    open spec fn view(&self) -> CredentialsView {
        CredentialsView { api_key: self.api_key@, api_secret: self.api_secret@ }
    }
}

impl Credentials {
    /// The pair of the given key and secret.
    pub fn new(api_key: String, api_secret: String) -> (credentials: Self)
        ensures
            credentials.api_key == api_key,
            credentials.api_secret == api_secret,
    {
        Self { api_key, api_secret }
    }
}

/// The HMAC-SHA256 tag of `message` under `key`, as the hmac and sha2 crates
/// compute it.
pub uninterp spec fn hmac_sha256(key: Seq<u8>, message: Seq<u8>) -> Seq<u8>;

/// The lowercase hexadecimal character of a value below sixteen.
pub open spec fn hex_char(d: int) -> char {
    if d < 10 {
        digit_char(d)
    } else if d == 10 {
        'a'
    } else if d == 11 {
        'b'
    } else if d == 12 {
        'c'
    } else if d == 13 {
        'd'
    } else if d == 14 {
        'e'
    } else {
        'f'
    }
}

/// Lowercase hexadecimal text of `bytes`: two characters for each byte, the
/// high half first.
pub open spec fn hex_lower(bytes: Seq<u8>) -> Seq<char> {
    Seq::new(
        2 * bytes.len(),
        |i: int|
            if i % 2 == 0 {
                hex_char(bytes[i / 2] as int / 16)
            } else {
                hex_char(bytes[i / 2] as int % 16)
            },
    )
}

/// Whether `c` is one of `0` to `9` or `a` to `f`.
pub open spec fn is_lower_hex(c: char) -> bool {
    exists|d: int| 0 <= d < 16 && c == hex_char(d)
}

/// The message that is signed: the decimal timestamp, the API key, the decimal
/// receive window and the payload, in that order and with nothing between them.
pub open spec fn canonical_message(
    timestamp: int,
    api_key: Seq<char>,
    recv_window: nat,
    payload: Seq<char>,
) -> Seq<char> {
    decimal_text(timestamp) + api_key + decimal_text(recv_window as int) + payload
}

/// The signature of a request: the hexadecimal text of the HMAC-SHA256 tag of
/// the canonical message, keyed with the secret. Texts enter as their UTF-8
/// bytes.
pub open spec fn signature_of(
    timestamp: int,
    api_key: Seq<char>,
    recv_window: nat,
    payload: Seq<char>,
    secret: Seq<char>,
) -> Seq<char> {
    hex_lower(
        hmac_sha256(
            encode_utf8(secret),
            encode_utf8(canonical_message(timestamp, api_key, recv_window, payload)),
        ),
    )
}

/// Runs `Hmac<Sha256>` of the hmac crate over `message` with `key`:
/// `new_from_slice`, `update`, `finalize`. A key of any length is accepted, so
/// the call cannot fail. The tag is the named value, and it is as long as a
/// SHA-256 digest: 32 bytes.
#[verifier::external_body]
fn hmac_sha256_tag(key: &[u8], message: &[u8]) -> (tag: Vec<u8>)
    ensures
        tag@ == hmac_sha256(key@, message@),
        tag@.len() == 32,
{
    let mut mac = <hmac::Hmac<sha2::Sha256> as hmac::Mac>::new_from_slice(key).expect(
        "Invalid key length",
    );
    hmac::Mac::update(&mut mac, message);
    hmac::Mac::finalize(mac).into_bytes().to_vec()
}

/// Calls `hex::encode`, which writes each byte as two characters of
/// `0123456789abcdef`, the high half first.
#[verifier::external_body]
fn hex_encode(bytes: &Vec<u8>) -> (text: String)
    ensures
        text@ == hex_lower(bytes@),
{
    hex::encode(bytes)
}

/// Signs a request: see [`signature_of`]. The result is 64 lowercase
/// hexadecimal characters.
pub fn generate_signature(
    timestamp: i64,
    api_key: &str,
    recv_window: u64,
    payload: &str,
    secret: &str,
) -> (signature: String)
    ensures
        signature@ == signature_of(
            timestamp as int,
            api_key@,
            recv_window as nat,
            payload@,
            secret@,
        ),
        signature@.len() == 64,
        forall|i: int| 0 <= i < 64 ==> is_lower_hex(#[trigger] signature@[i]),
{
    let mut sign_str = decimal_i64(timestamp);
    sign_str.append(api_key);
    push_decimal(&mut sign_str, recv_window);
    sign_str.append(payload);
    assert(sign_str@ =~= canonical_message(
        timestamp as int,
        api_key@,
        recv_window as nat,
        payload@,
    ));
    let tag = hmac_sha256_tag(secret.as_bytes(), sign_str.as_str().as_bytes());
    let signature = hex_encode(&tag);
    proof {
        lemma_hex_lower_shape(tag@);
    }
    signature
}

/// Signing is a function of its five inputs: the same timestamp, key, receive
/// window, payload and secret always give the same signature.
pub proof fn lemma_signature_deterministic(
    timestamp: int,
    api_key: Seq<char>,
    recv_window: nat,
    payload: Seq<char>,
    secret: Seq<char>,
    timestamp2: int,
    api_key2: Seq<char>,
    recv_window2: nat,
    payload2: Seq<char>,
    secret2: Seq<char>,
)
    requires
        timestamp == timestamp2,
        api_key == api_key2,
        recv_window == recv_window2,
        payload == payload2,
        secret == secret2,
    ensures
        signature_of(timestamp, api_key, recv_window, payload, secret) == signature_of(
            timestamp2,
            api_key2,
            recv_window2,
            payload2,
            secret2,
        ),
{
}

/// Two payloads that differ give canonical messages that differ, where
/// timestamp, key and receive window are the same.
pub proof fn lemma_message_follows_payload(
    timestamp: int,
    api_key: Seq<char>,
    recv_window: nat,
    payload: Seq<char>,
    other: Seq<char>,
)
    requires
        payload != other,
    ensures
        canonical_message(timestamp, api_key, recv_window, payload) != canonical_message(
            timestamp,
            api_key,
            recv_window,
            other,
        ),
{
    let head = decimal_text(timestamp) + api_key + decimal_text(recv_window as int);
    let first = canonical_message(timestamp, api_key, recv_window, payload);
    let second = canonical_message(timestamp, api_key, recv_window, other);
    if first == second {
        assert(first.len() == head.len() + payload.len());
        assert(second.len() == head.len() + other.len());
        assert forall|i: int| 0 <= i < payload.len() implies payload[i] == other[i] by {
            assert(first[head.len() + i] == payload[i]);
            assert(second[head.len() + i] == other[i]);
        }
        assert(payload =~= other);
    }
}

/// Hexadecimal text tells the bytes apart: equal texts come from equal bytes.
/// So two signatures are equal exactly where the two tags are.
pub proof fn lemma_hex_lower_injective(bytes: Seq<u8>, other: Seq<u8>)
    requires
        hex_lower(bytes) == hex_lower(other),
    ensures
        bytes == other,
{
    assert(hex_lower(bytes).len() == 2 * bytes.len());
    assert(hex_lower(other).len() == 2 * other.len());
    assert forall|i: int| 0 <= i < bytes.len() implies bytes[i] == other[i] by {
        let b = bytes[i] as int;
        let o = other[i] as int;
        assert(hex_lower(bytes)[2 * i] == hex_char(b / 16));
        assert(hex_lower(other)[2 * i] == hex_char(o / 16));
        assert(hex_lower(bytes)[2 * i + 1] == hex_char(b % 16));
        assert(hex_lower(other)[2 * i + 1] == hex_char(o % 16));
        assert(0 <= b / 16 < 16 && 0 <= o / 16 < 16);
        assert(0 <= b % 16 < 16 && 0 <= o % 16 < 16);
        assert(b / 16 == o / 16);
        assert(b % 16 == o % 16);
    }
    assert(bytes =~= other);
}

/// The current time in milliseconds since the Unix epoch, read by
/// `chrono::Utc::now().timestamp_millis()`. Nothing is promised of the value:
/// it depends on the clock. Where the system clock stands before the epoch,
/// chrono stops the program.
#[verifier::external_body]
pub fn get_current_timestamp_ms() -> i64 {
    chrono::Utc::now().timestamp_millis()
}

/// Hexadecimal text is twice as long as the bytes it encodes, and holds only
/// lowercase hexadecimal characters.
pub proof fn lemma_hex_lower_shape(bytes: Seq<u8>)
    ensures
        hex_lower(bytes).len() == 2 * bytes.len(),
        forall|i: int| 0 <= i < hex_lower(bytes).len() ==> is_lower_hex(#[trigger] hex_lower(bytes)[i]),
{
    assert forall|i: int| 0 <= i < hex_lower(bytes).len() implies is_lower_hex(
        #[trigger] hex_lower(bytes)[i],
    ) by {
        let b = bytes[i / 2] as int;
        if i % 2 == 0 {
            assert(0 <= b / 16 < 16);
            assert(hex_lower(bytes)[i] == hex_char(b / 16));
        } else {
            assert(0 <= b % 16 < 16);
            assert(hex_lower(bytes)[i] == hex_char(b % 16));
        }
    }
}

} // verus!
