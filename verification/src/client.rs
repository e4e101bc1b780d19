//! The request pipeline: the client's configuration, the construction of a
//! request that is ready to be sent, and the decoding of what comes back.
//!
//! Sending is left to the caller. The pipeline turns a method, a path, query
//! parameters and a body into a [`PreparedRequest`], signed where the client
//! holds credentials, and turns a parsed envelope into the call's result.

use crate::auth::{
    generate_signature, get_current_timestamp_ms, hex_char, hex_lower, is_lower_hex,
    lemma_hex_lower_shape, signature_of, Credentials, CredentialsView,
};
use crate::error::BybitError;
use crate::text::{
    decimal_digits, decimal_i64, decimal_text, decimal_u64, digit_char, is_digit,
    lemma_decimal_digits_shape,
};
use crate::types::ApiResponse;
use vstd::prelude::*;
use vstd::string::*;

verus! {

/// The receive window that every signed request declares, in milliseconds.
pub const RECV_WINDOW: u64 = 5000;

/// The HTTP method of a request.
#[derive(Debug, Clone, Copy, PartialEq, Eq, Structural)]
pub enum Method {
    Get,
    Post,
    Put,
    Delete,
}

/// Ordered pairs of text: query parameters, or headers by name and value.
pub type Pairs = Seq<(Seq<char>, Seq<char>)>;

/// What a client holds: the base URL, and the credentials if it has any.
pub struct ClientView {
    pub base_url: Seq<char>,
    pub credentials: Option<CredentialsView>,
}

/// A client of the API: a base URL and, for calls that need them, credentials.
/// The value is set up once and then only read.
#[derive(Debug, Clone)]
pub struct BybitClient {
    pub base_url: String,
    credentials: Option<Credentials>,
}

impl View for BybitClient {
    type V = ClientView;

    closed spec fn view(&self) -> ClientView {
        ClientView {
            base_url: self.base_url@,
            credentials: match self.credentials {
                Some(credentials) => Some(credentials@),
                None => None,
            },
        }
    }
}

/// A request that is ready to be sent: nothing in it is left to compute.
#[derive(Debug, Clone)]
pub struct PreparedRequest {
    pub method: Method,
    pub url: String,
    pub query: Option<Vec<(String, String)>>,
    pub headers: Vec<(String, String)>,
    pub body: Option<String>,
}

/// What a prepared request holds.
pub struct RequestView {
    pub method: Method,
    pub url: Seq<char>,
    pub query: Option<Pairs>,
    pub headers: Pairs,
    pub body: Option<Seq<char>>,
}

impl View for PreparedRequest {
    type V = RequestView;

    open spec fn view(&self) -> RequestView {
        RequestView {
            method: self.method,
            url: self.url@,
            query: self.query.deep_view(),
            headers: self.headers.deep_view(),
            body: self.body.deep_view(),
        }
    }
}

/// The text of `pairs` in `application/x-www-form-urlencoded` form, as
/// `serde_urlencoded::to_string` writes it.
pub uninterp spec fn form_urlencoded(pairs: Seq<(Seq<char>, Seq<char>)>) -> Seq<char>;

/// Whether a header value may hold `c`: a tab, or any character from the
/// space on but for DEL.
pub open spec fn header_char_ok(c: char) -> bool {
    c == '\t' || (c as u32 >= 32 && c as u32 != 127)
}

/// Whether `value` can be sent as a header value.
pub open spec fn header_value_ok(value: Seq<char>) -> bool {
    forall|i: int| 0 <= i < value.len() ==> header_char_ok(#[trigger] value[i])
}

/// The words of the error for a value that no header can hold.
pub open spec fn invalid_header_text() -> Seq<char> {
    "failed to parse header value"@
}

/// The text that is signed for a request: the encoded query of a GET, the
/// body of a POST as it is sent, and nothing for any other method or where
/// the part is absent.
pub open spec fn payload_of(method: Method, query: Option<Pairs>, body: Option<Seq<char>>) -> Seq<
    char,
> {
    match method {
        Method::Get => match query {
            Some(pairs) => form_urlencoded(pairs),
            None => Seq::empty(),
        },
        Method::Post => match body {
            Some(text) => text,
            None => Seq::empty(),
        },
        _ => Seq::empty(),
    }
}

/// The headers of a signed request, in the order in which they are set: the
/// API key, the timestamp, the signature over `payload`, the receive window,
/// and the content type.
pub open spec fn auth_headers(credentials: CredentialsView, timestamp: int, payload: Seq<char>) -> Pairs {
    seq![
        ("X-BAPI-API-KEY"@, credentials.api_key),
        ("X-BAPI-TIMESTAMP"@, decimal_text(timestamp)),
        (
            "X-BAPI-SIGN"@,
            signature_of(
                timestamp,
                credentials.api_key,
                RECV_WINDOW as nat,
                payload,
                credentials.api_secret,
            ),
        ),
        ("X-BAPI-RECV-WINDOW"@, decimal_text(RECV_WINDOW as int)),
        ("Content-Type"@, "application/json"@),
    ]
}

/// The headers of a request. With credentials they are the signed set. Without
/// them no header of that set is sent but the content type of a body.
pub open spec fn headers_of(
    client: ClientView,
    timestamp: int,
    method: Method,
    query: Option<Pairs>,
    body: Option<Seq<char>>,
) -> Pairs {
    match client.credentials {
        Some(credentials) => auth_headers(credentials, timestamp, payload_of(method, query, body)),
        None => if body is Some {
            seq![("Content-Type"@, "application/json"@)]
        } else {
            Seq::empty()
        },
    }
}

/// Whether a request can be prepared for `client`: it has no credentials, or
/// its API key can be sent as a header value.
pub open spec fn can_prepare(client: ClientView) -> bool {
    client.credentials matches Some(credentials) ==> header_value_ok(credentials.api_key)
}

/// The request that `client` sends at `timestamp`: the URL is the base URL
/// followed by the path, query and body are the caller's, unchanged and in
/// the caller's order.
pub open spec fn prepared(
    client: ClientView,
    timestamp: int,
    method: Method,
    path: Seq<char>,
    query: Option<Pairs>,
    body: Option<Seq<char>>,
) -> RequestView {
    RequestView {
        method,
        url: client.base_url + path,
        query,
        headers: headers_of(client, timestamp, method, query, body),
        body,
    }
}

/// Whether `res` is what preparing a request gives for a call that is made
/// now: where the client can prepare one, the request of [`prepared`] for some
/// timestamp; else the error for an API key that no header can hold.
pub open spec fn sends(
    client: ClientView,
    res: Result<PreparedRequest, BybitError>,
    method: Method,
    path: Seq<char>,
    query: Option<Pairs>,
    body: Option<Seq<char>>,
) -> bool {
    &&& can_prepare(client) ==> (res matches Ok(request) && exists|timestamp: i64|
        request@ == prepared(client, timestamp as int, method, path, query, body))
    &&& !can_prepare(client) ==> (res matches Err(BybitError::InvalidParameter(text)) && text@
        == invalid_header_text())
}

/// Whether `headers` holds a header of the given name.
pub open spec fn has_header(headers: Pairs, name: Seq<char>) -> bool {
    exists|i: int| 0 <= i < headers.len() && (#[trigger] headers[i]).0 == name
}

/// Asks `HeaderValue::try_from` of reqwest's `header` module whether `value`
/// can be a header value. It accepts a text whose bytes are each a tab or at
/// least 32 and not 127, which for text is [`header_value_ok`]; the error it
/// gives has one fixed text.
#[verifier::external_body]
fn validate_header_value(value: &str) -> (res: Result<(), String>)
    ensures
        res is Ok <==> header_value_ok(value@),
        res matches Err(text) ==> text@ == invalid_header_text(),
{
    match reqwest::header::HeaderValue::try_from(value) {
        Ok(_) => Ok(()),
        Err(e) => Err(e.to_string()),
    }
}

/// Calls `serde_urlencoded::to_string` on the pairs, in their order. For pairs
/// of text it does not fail.
#[verifier::external_body]
fn urlencode_pairs(pairs: &Vec<(String, String)>) -> (text: String)
    ensures
        text@ == form_urlencoded(pairs.deep_view()),
{
    serde_urlencoded::to_string(pairs).unwrap_or_default()
}

/// Decimal text can be sent as a header value.
pub proof fn lemma_decimal_header_ok(n: int)
    ensures
        header_value_ok(decimal_text(n)),
{
    let magnitude = if n < 0 {
        (-n) as nat
    } else {
        n as nat
    };
    lemma_decimal_digits_shape(magnitude);
    assert forall|i: int| 0 <= i < decimal_text(n).len() implies header_char_ok(
        #[trigger] decimal_text(n)[i],
    ) by {
        let c = decimal_text(n)[i];
        if n < 0 && i == 0 {
            assert(c == '-');
        } else {
            let k = if n < 0 {
                i - 1
            } else {
                i
            };
            assert(c == decimal_digits(magnitude)[k]);
            assert(is_digit(decimal_digits(magnitude)[k]));
            let d = choose|d: int| 0 <= d <= 9 && c == digit_char(d);
            assert(c == digit_char(d));
        }
    }
}

/// Lowercase hexadecimal text can be sent as a header value.
pub proof fn lemma_hex_header_ok(bytes: Seq<u8>)
    ensures
        header_value_ok(hex_lower(bytes)),
{
    lemma_hex_lower_shape(bytes);
    assert forall|i: int| 0 <= i < hex_lower(bytes).len() implies header_char_ok(
        #[trigger] hex_lower(bytes)[i],
    ) by {
        let c = hex_lower(bytes)[i];
        assert(is_lower_hex(c));
        let d = choose|d: int| 0 <= d < 16 && c == hex_char(d);
        assert(c == hex_char(d));
    }
}

/// The text that is signed for a request: see [`payload_of`].
pub fn signing_payload(
    method: Method,
    query: &Option<Vec<(String, String)>>,
    body: &Option<String>,
) -> (payload: String)
    ensures
        payload@ == payload_of(method, query.deep_view(), body.deep_view()),
{
    match method {
        Method::Get => match query {
            Some(pairs) => urlencode_pairs(pairs),
            None => String::new(),
        },
        Method::Post => match body {
            Some(text) => text.clone(),
            None => String::new(),
        },
        _ => String::new(),
    }
}

/// A header by name and value, where the value can be sent.
fn valid_header(name: &str, value: String) -> (res: Result<(String, String), BybitError>)
    ensures
        header_value_ok(value@) ==> (res matches Ok(header) && header.deep_view() == (
            name@,
            value@,
        )),
        !header_value_ok(value@) ==> (res matches Err(BybitError::InvalidParameter(text)) && text@
            == invalid_header_text()),
{
    match validate_header_value(value.as_str()) {
        Ok(_) => Ok((String::from_str(name), value)),
        Err(text) => Err(BybitError::InvalidParameter(text)),
    }
}

/// A signature can be sent as a header value.
pub proof fn lemma_signature_header_ok(
    timestamp: int,
    api_key: Seq<char>,
    recv_window: nat,
    payload: Seq<char>,
    secret: Seq<char>,
)
    ensures
        header_value_ok(signature_of(timestamp, api_key, recv_window, payload, secret)),
{
    lemma_hex_header_ok(
        crate::auth::hmac_sha256(
            vstd::utf8::encode_utf8(secret),
            vstd::utf8::encode_utf8(
                crate::auth::canonical_message(timestamp, api_key, recv_window, payload),
            ),
        ),
    );
}

/// The headers of a signed request at `timestamp`: see [`auth_headers`]. The
/// payload is computed once and signed as it is. The call fails only where the
/// API key cannot be a header value; nothing is sent then.
pub fn auth_headers_at(
    timestamp: i64,
    method: Method,
    query: &Option<Vec<(String, String)>>,
    body: &Option<String>,
    credentials: &Credentials,
) -> (res: Result<Vec<(String, String)>, BybitError>)
    ensures
        header_value_ok(credentials.api_key@) ==> (res matches Ok(headers) && headers.deep_view()
            == auth_headers(
            credentials@,
            timestamp as int,
            payload_of(method, query.deep_view(), body.deep_view()),
        )),
        !header_value_ok(credentials.api_key@) ==> (res matches Err(
            BybitError::InvalidParameter(text),
        ) && text@ == invalid_header_text()),
{
    let payload = signing_payload(method, query, body);
    let signature = generate_signature(
        timestamp,
        credentials.api_key.as_str(),
        RECV_WINDOW,
        payload.as_str(),
        credentials.api_secret.as_str(),
    );
    proof {
        lemma_decimal_header_ok(timestamp as int);
        lemma_decimal_header_ok(RECV_WINDOW as int);
        lemma_signature_header_ok(
            timestamp as int,
            credentials.api_key@,
            RECV_WINDOW as nat,
            payload@,
            credentials.api_secret@,
        );
    }
    let key_header = match valid_header("X-BAPI-API-KEY", credentials.api_key.clone()) {
        Ok(header) => header,
        Err(e) => {
            return Err(e);
        },
    };
    let timestamp_header = match valid_header("X-BAPI-TIMESTAMP", decimal_i64(timestamp)) {
        Ok(header) => header,
        Err(e) => {
            return Err(e);
        },
    };
    let signature_header = match valid_header("X-BAPI-SIGN", signature) {
        Ok(header) => header,
        Err(e) => {
            return Err(e);
        },
    };
    let window_header = match valid_header("X-BAPI-RECV-WINDOW", decimal_u64(RECV_WINDOW)) {
        Ok(header) => header,
        Err(e) => {
            return Err(e);
        },
    };
    let mut headers: Vec<(String, String)> = Vec::new();
    headers.push(key_header);
    headers.push(timestamp_header);
    headers.push(signature_header);
    headers.push(window_header);
    headers.push((String::from_str("Content-Type"), String::from_str("application/json")));
    assert(headers.deep_view() =~= auth_headers(
        credentials@,
        timestamp as int,
        payload_of(method, query.deep_view(), body.deep_view()),
    ));
    Ok(headers)
}

/// What a call returns once the response text has been parsed, or has failed
/// to parse, as an envelope: the serialization error, else the envelope's own
/// outcome.
pub open spec fn response_outcome<T>(parsed: Result<ApiResponse<T>, serde_json::Error>) -> Result<
    T,
    BybitError,
> {
    match parsed {
        Ok(envelope) => envelope.outcome(),
        Err(e) => Err(BybitError::SerializationError(e)),
    }
}

/// Decodes a response: see [`response_outcome`].
pub fn decode_response<T>(parsed: Result<ApiResponse<T>, serde_json::Error>) -> (res: Result<
    T,
    BybitError,
>)
    ensures
        res == response_outcome(parsed),
{
    match parsed {
        Ok(envelope) => envelope.into_result(),
        Err(e) => Err(BybitError::from(e)),
    }
}

impl BybitClient {
    /// A client for `base_url`, without credentials.
    pub fn new(base_url: String) -> (client: Self)
        ensures
            client@ == (ClientView { base_url: base_url@, credentials: None }),
    {
        Self { base_url, credentials: None }
    }

    /// The same client with the given credentials.
    pub fn with_credentials(self, api_key: String, api_secret: String) -> (client: Self)
        ensures
            client@ == (ClientView {
                base_url: self@.base_url,
                credentials: Some(CredentialsView { api_key: api_key@, api_secret: api_secret@ }),
            }),
    {
        Self { base_url: self.base_url, credentials: Some(Credentials::new(api_key, api_secret)) }
    }

    /// A client for the test network.
    pub fn testnet() -> (client: Self)
        ensures
            client@ == (ClientView { base_url: "https://api-testnet.bybit.com"@, credentials: None }),
    {
        Self::new(String::from_str("https://api-testnet.bybit.com"))
    }

    /// A client for the main network.
    pub fn mainnet() -> (client: Self)
        ensures
            client@ == (ClientView { base_url: "https://api.bybit.com"@, credentials: None }),
    {
        Self::new(String::from_str("https://api.bybit.com"))
    }

    /// The credentials of this client, if it has any.
    pub fn credentials(&self) -> (credentials: &Option<Credentials>)
        ensures
            match *credentials {
                Some(pair) => self@.credentials == Some(pair@),
                None => self@.credentials is None,
            },
    {
        &self.credentials
    }

    /// The headers of a signed request, stamped with the current time: those
    /// of [`auth_headers_at`] for the timestamp that the clock gave.
    pub fn build_auth_headers(
        &self,
        method: Method,
        query: &Option<Vec<(String, String)>>,
        body: &Option<String>,
        credentials: &Credentials,
    ) -> (res: Result<Vec<(String, String)>, BybitError>)
        ensures
            header_value_ok(credentials.api_key@) ==> (res matches Ok(headers) && exists|
                timestamp: i64,
            |
                headers.deep_view() == auth_headers(
                    credentials@,
                    timestamp as int,
                    payload_of(method, query.deep_view(), body.deep_view()),
                )),
            !header_value_ok(credentials.api_key@) ==> (res matches Err(
                BybitError::InvalidParameter(text),
            ) && text@ == invalid_header_text()),
    {
        let timestamp = get_current_timestamp_ms();
        auth_headers_at(timestamp, method, query, body, credentials)
    }

    /// The request that this client sends at `timestamp`: see [`prepared`].
    /// The call fails only where the client has credentials whose API key
    /// cannot be a header value.
    pub fn prepare_at(
        &self,
        timestamp: i64,
        method: Method,
        path: &str,
        query: Option<Vec<(String, String)>>,
        body: Option<String>,
    ) -> (res: Result<PreparedRequest, BybitError>)
        ensures
            can_prepare(self@) ==> (res matches Ok(request) && request@ == prepared(
                self@,
                timestamp as int,
                method,
                path@,
                query.deep_view(),
                body.deep_view(),
            )),
            !can_prepare(self@) ==> (res matches Err(BybitError::InvalidParameter(text)) && text@
                == invalid_header_text()),
    {
        let mut url = self.base_url.clone();
        url.append(path);
        let headers = match &self.credentials {
            Some(credentials) => {
                match auth_headers_at(timestamp, method, &query, &body, credentials) {
                    Ok(headers) => headers,
                    Err(e) => {
                        return Err(e);
                    },
                }
            },
            None => {
                let mut headers: Vec<(String, String)> = Vec::new();
                if body.is_some() {
                    headers.push(
                        (String::from_str("Content-Type"), String::from_str("application/json")),
                    );
                }
                assert(headers.deep_view() =~= headers_of(
                    self@,
                    timestamp as int,
                    method,
                    query.deep_view(),
                    body.deep_view(),
                ));
                headers
            },
        };
        Ok(PreparedRequest { method, url, query, headers, body })
    }

    /// The request for a call that is made now: that of [`BybitClient::prepare_at`]
    /// for the timestamp that the clock gave. Whether it fails does not depend
    /// on the clock.
    pub fn request(
        &self,
        method: Method,
        path: &str,
        query: Option<Vec<(String, String)>>,
        body: Option<String>,
    ) -> (res: Result<PreparedRequest, BybitError>)
        ensures
            sends(self@, res, method, path@, query.deep_view(), body.deep_view()),
    {
        let timestamp = get_current_timestamp_ms();
        self.prepare_at(timestamp, method, path, query, body)
    }

    /// The request for a GET of `path` with the given query parameters.
    pub fn get(&self, path: &str, query: Option<Vec<(String, String)>>) -> (res: Result<
        PreparedRequest,
        BybitError,
    >)
        ensures
            sends(self@, res, Method::Get, path@, query.deep_view(), None),
    {
        self.request(Method::Get, path, query, None)
    }

    /// The request for a POST to `path` with the given JSON text as its body.
    pub fn post(&self, path: &str, body: Option<String>) -> (res: Result<
        PreparedRequest,
        BybitError,
    >)
        ensures
            sends(self@, res, Method::Post, path@, None, body.deep_view()),
    {
        self.request(Method::Post, path, None, body)
    }
}

/// A parameter or header by name and value.
pub fn pair(name: &str, value: &str) -> (entry: (String, String))
    ensures
        entry.deep_view() == (name@, value@),
{
    (String::from_str(name), String::from_str(value))
}

/// An envelope with code zero yields its result, and no error.
pub proof fn lemma_envelope_success<T>(envelope: ApiResponse<T>)
    requires
        envelope.ret_code == 0,
    ensures
        response_outcome(Ok(envelope)) == Ok::<T, BybitError>(envelope.result),
{
}

/// An envelope with a code other than zero yields the API error that carries
/// the envelope's code and message, and never a result.
pub proof fn lemma_envelope_failure<T>(envelope: ApiResponse<T>)
    requires
        envelope.ret_code != 0,
    ensures
        response_outcome(Ok(envelope)) == Err::<T, BybitError>(
            BybitError::ApiError { ret_code: envelope.ret_code, ret_msg: envelope.ret_msg },
        ),
        !(response_outcome(Ok(envelope)) is Ok),
{
}

/// A client without credentials sends none of the API key, timestamp,
/// signature and receive-window headers; a client with credentials sends all
/// four.
pub proof fn lemma_auth_gating(
    client: ClientView,
    timestamp: int,
    method: Method,
    query: Option<Pairs>,
    body: Option<Seq<char>>,
)
    ensures
        ({
            let headers = headers_of(client, timestamp, method, query, body);
            let all = has_header(headers, "X-BAPI-API-KEY"@) && has_header(
                headers,
                "X-BAPI-TIMESTAMP"@,
            ) && has_header(headers, "X-BAPI-SIGN"@) && has_header(headers, "X-BAPI-RECV-WINDOW"@);
            let any = has_header(headers, "X-BAPI-API-KEY"@) || has_header(
                headers,
                "X-BAPI-TIMESTAMP"@,
            ) || has_header(headers, "X-BAPI-SIGN"@) || has_header(headers, "X-BAPI-RECV-WINDOW"@);
            if client.credentials is Some {
                all
            } else {
                !any
            }
        }),
{
    reveal_strlit("X-BAPI-API-KEY");
    reveal_strlit("X-BAPI-TIMESTAMP");
    reveal_strlit("X-BAPI-SIGN");
    reveal_strlit("X-BAPI-RECV-WINDOW");
    reveal_strlit("Content-Type");
    let headers = headers_of(client, timestamp, method, query, body);
    if client.credentials is Some {
        assert(headers[0].0 == "X-BAPI-API-KEY"@);
        assert(headers[1].0 == "X-BAPI-TIMESTAMP"@);
        assert(headers[2].0 == "X-BAPI-SIGN"@);
        assert(headers[3].0 == "X-BAPI-RECV-WINDOW"@);
    } else {
        assert("Content-Type"@[0] == 'C');
        assert("X-BAPI-API-KEY"@[0] == 'X');
        assert("X-BAPI-TIMESTAMP"@[0] == 'X');
        assert("X-BAPI-SIGN"@[0] == 'X');
        assert("X-BAPI-RECV-WINDOW"@[0] == 'X');
    }
}

/// For a POST with credentials, the text that is sent as the body is the text
/// that is signed: the signature header holds the signature over the body as
/// it stands in the request, at the timestamp of the timestamp header.
pub proof fn lemma_post_body_is_signed(
    client: ClientView,
    timestamp: int,
    path: Seq<char>,
    query: Option<Pairs>,
    body: Seq<char>,
)
    requires
        client.credentials is Some,
    ensures
        ({
            let request = prepared(client, timestamp, Method::Post, path, query, Some(body));
            let credentials = client.credentials->0;
            &&& request.body == Some(body)
            &&& request.headers[1] == ("X-BAPI-TIMESTAMP"@, decimal_text(timestamp))
            &&& request.headers[2] == (
                "X-BAPI-SIGN"@,
                signature_of(
                    timestamp,
                    credentials.api_key,
                    RECV_WINDOW as nat,
                    body,
                    credentials.api_secret,
                ),
            )
        }),
{
}

} // verus!
