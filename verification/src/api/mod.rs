//! The RailOps API client's logic: request signing, error values, and the
//! request paths and bodies of every endpoint (the transport itself is
//! ordinary I/O outside the library).
//!
//! Every request except the login is signed:
//!   message   = "METHOD\nPATH\nUNIX_TIMESTAMP_SECS"
//!   key       = the raw bearer token
//!   signature = hex(HMAC-SHA-256(key, message))
//! and carries the headers `Authorization: Bearer <token>`,
//! `X-RailOps-Ts: <timestamp>` and `X-RailOps-Sig: <signature>`.

pub mod credentials;
pub mod kiosk;
pub mod ops;
pub mod rules;
pub mod staffing;

use vstd::prelude::*;
use vstd::utf8::encode_utf8;
use crate::text::{int_digits, i64_to_string, push_char, push_i64, push_u64, nat_digits, str_eq};
use hmac::Mac;

verus! {

// ── Error ────────────────────────────────────────────────────────────────────

/// A failed request: the HTTP status (0 when the request never got an
/// answer) and a message.
#[derive(Debug, Clone)]
pub struct ApiError {
    pub status: u16,
    pub message: String,
}

impl ApiError {
    /// The display form `"HTTP <status>: <message>"`.
    pub fn display(&self) -> (r: String)
        ensures
            r@ == "HTTP "@ + nat_digits(self.status as nat) + ": "@ + self.message@,
    {
        let mut s = "HTTP ".to_owned();
        push_u64(&mut s, self.status as u64);
        s.append(": ");
        s.append(self.message.as_str());
        s
    }
}

/// An error that arose before any answer came back (status 0).
pub fn transport_error(message: &str) -> (r: ApiError)
    ensures
        r.status == 0,
        r.message@ == message@,
{
    ApiError { status: 0, message: message.to_owned() }
}

/// The `error.message` string of a JSON error body, as `serde_json` reads it.
pub uninterp spec fn json_error_message(text: Seq<char>) -> Option<Seq<char>>;

/// Parses `text` as JSON with `serde_json` and picks the string at
/// `error.message`.
///
/// Trusted: the result is a function of the text alone, named
/// `json_error_message`; what that function is (JSON syntax, escapes) is
/// left unsaid.
#[verifier::external_body]
fn error_message_field(text: &str) -> (r: Option<String>)
    ensures
        match r {
            Some(m) => json_error_message(text@) == Some(m@),
            None => json_error_message(text@) is None,
        },
{
    serde_json::from_str::<serde_json::Value>(text).ok().and_then(
        |v| v["error"]["message"].as_str().map(|s| s.to_owned()),
    )
}

/// The message of a failed response: the backend's structured
/// `error.message` when the body carries one, else the whole body text.
pub open spec fn error_message_of(body: Seq<char>) -> Seq<char> {
    match json_error_message(body) {
        Some(m) => m,
        None => body,
    }
}

/// The error for a non-success response with the given status and body.
pub fn http_error(status: u16, body: &str) -> (r: ApiError)
    ensures
        r.status == status,
        r.message@ == error_message_of(body@),
{
    let message = match error_message_field(body) {
        Some(m) => m,
        None => body.to_owned(),
    };
    ApiError { status, message }
}

// ── Request signing ──────────────────────────────────────────────────────────

/// The HTTP methods the client sends.
#[derive(Debug, Clone, Copy, PartialEq, Eq, Structural)]
pub enum HttpMethod {
    Get,
    Post,
    Put,
    Patch,
    Delete,
}

pub open spec fn method_str(m: HttpMethod) -> Seq<char> {
    match m {
        HttpMethod::Get => "GET"@,
        HttpMethod::Post => "POST"@,
        HttpMethod::Put => "PUT"@,
        HttpMethod::Patch => "PATCH"@,
        HttpMethod::Delete => "DELETE"@,
    }
}

/// The method named by `s`, if it is one of the five the client sends.
pub open spec fn method_of(s: Seq<char>) -> Option<HttpMethod> {
    if s == "GET"@ {
        Some(HttpMethod::Get)
    } else if s == "POST"@ {
        Some(HttpMethod::Post)
    } else if s == "PUT"@ {
        Some(HttpMethod::Put)
    } else if s == "PATCH"@ {
        Some(HttpMethod::Patch)
    } else if s == "DELETE"@ {
        Some(HttpMethod::Delete)
    } else {
        None
    }
}

impl HttpMethod {
    pub fn as_str(&self) -> (r: &'static str)
        ensures
            r@ == method_str(*self),
    {
        match self {
            HttpMethod::Get => "GET",
            HttpMethod::Post => "POST",
            HttpMethod::Put => "PUT",
            HttpMethod::Patch => "PATCH",
            HttpMethod::Delete => "DELETE",
        }
    }

    /// The method named by `s`, or the error `"Unknown method <s>"`.
    pub fn parse(s: &str) -> (r: Result<HttpMethod, ApiError>)
        ensures
            match r {
                Ok(m) => method_of(s@) == Some(m),
                Err(e) => method_of(s@) is None && e.status == 0 && e.message@ == "Unknown method "@
                    + s@,
            },
    {
        if str_eq(s, "GET") {
            Ok(HttpMethod::Get)
        } else if str_eq(s, "POST") {
            Ok(HttpMethod::Post)
        } else if str_eq(s, "PUT") {
            Ok(HttpMethod::Put)
        } else if str_eq(s, "PATCH") {
            Ok(HttpMethod::Patch)
        } else if str_eq(s, "DELETE") {
            Ok(HttpMethod::Delete)
        } else {
            let mut m = "Unknown method ".to_owned();
            m.append(s);
            Err(ApiError { status: 0, message: m })
        }
    }
}

/// The signed message `"METHOD\nPATH\nTIMESTAMP"`.
pub open spec fn signing_message_spec(method: Seq<char>, path: Seq<char>, ts: int) -> Seq<char> {
    method + seq!['\n'] + path + seq!['\n'] + int_digits(ts)
}

pub fn signing_message(method: &str, path: &str, ts: i64) -> (r: String)
    ensures
        r@ == signing_message_spec(method@, path@, ts as int),
{
    let mut s = method.to_owned();
    push_char(&mut s, '\n');
    s.append(path);
    push_char(&mut s, '\n');
    push_i64(&mut s, ts);
    s
}

/// HMAC-SHA-256 of `msg` under `key` (32 bytes).
pub uninterp spec fn hmac_sha256(key: Seq<u8>, msg: Seq<u8>) -> Seq<u8>;

/// HMAC-SHA-256 with the `hmac` and `sha2` crates.
///
/// Trusted: HMAC accepts a key of any length (`new_from_slice` never
/// fails for HMAC), and the tag is the 32-byte HMAC-SHA-256 of the message,
/// a function of key and message named `hmac_sha256`.
#[verifier::external_body]
fn hmac_sha256_tag(key: &[u8], msg: &[u8]) -> (r: Vec<u8>)
    ensures
        r@ == hmac_sha256(key@, msg@),
        r@.len() == 32,
{
    let mut mac = <hmac::Hmac<sha2::Sha256> as Mac>::new_from_slice(key).expect(
        "HMAC accepts any key length",
    );
    mac.update(msg);
    mac.finalize().into_bytes().to_vec()
}

/// Lower-case hexadecimal digit of `n` (`0 <= n < 16`).
pub open spec fn hex_lower(n: int) -> char {
    if n < 10 {
        crate::text::digit_char(n)
    } else if n == 10 {
        'a'
    } else if n == 11 {
        'b'
    } else if n == 12 {
        'c'
    } else if n == 13 {
        'd'
    } else if n == 14 {
        'e'
    } else {
        'f'
    }
}

/// Two lower-case hexadecimal digits per byte, high digit first.
pub open spec fn hex_encode(bs: Seq<u8>) -> Seq<char>
    decreases bs.len(),
{
    if bs.len() == 0 {
        Seq::empty()
    } else {
        hex_encode(bs.drop_last()) + seq![
            hex_lower((bs.last() / 16) as int),
            hex_lower((bs.last() % 16) as int),
        ]
    }
}

/// `hex::encode`.
///
/// Trusted, as `hex` documents it: two lower-case hexadecimal digits per
/// byte, high nibble first.
#[verifier::external_body]
fn hex_encode_bytes(bs: &[u8]) -> (r: String)
    ensures
        r@ == hex_encode(bs@),
{
    hex::encode(bs)
}

/// The request signature: hex of HMAC-SHA-256 of the UTF-8 message under
/// the UTF-8 token.
pub open spec fn signature_of(token: Seq<char>, message: Seq<char>) -> Seq<char> {
    hex_encode(hmac_sha256(encode_utf8(token), encode_utf8(message)))
}

/// Hex encoding doubles the length.
pub proof fn lemma_hex_encode_len(bs: Seq<u8>)
    ensures
        hex_encode(bs).len() == 2 * bs.len(),
    decreases bs.len(),
{
    if bs.len() > 0 {
        lemma_hex_encode_len(bs.drop_last());
    }
}

/// The signature: 64 lower-case hexadecimal digits, those of the 32-byte
/// HMAC-SHA-256 tag.
pub fn hmac_sign(token: &str, message: &str) -> (r: String)
    ensures
        r@ == signature_of(token@, message@),
        r@.len() == 64,
{
    let tag = hmac_sha256_tag(token.as_bytes(), message.as_bytes());
    proof {
        lemma_hex_encode_len(tag@);
    }
    hex_encode_bytes(tag.as_slice())
}

/// The current time in whole seconds since the Unix epoch
/// (`chrono::Utc::now().timestamp()`).
///
/// Nothing is claimed of the value: it is the clock's.
#[verifier::external_body]
pub(crate) fn unix_now() -> (r: i64) {
    chrono::Utc::now().timestamp()
}

/// The authentication headers of a signed request.
#[derive(Debug, Clone)]
pub struct SignedHeaders {
    /// `Authorization`: `"Bearer <token>"`.
    pub authorization: String,
    /// `X-RailOps-Ts`: the timestamp in decimal.
    pub timestamp: String,
    /// `X-RailOps-Sig`: the hex HMAC signature.
    pub signature: String,
}

/// A request ready to send: method, path, the timestamp it was signed at
/// and its headers.
#[derive(Debug, Clone)]
pub struct SignedRequest {
    pub method: HttpMethod,
    pub path: String,
    pub ts: i64,
    pub headers: SignedHeaders,
}

/// `req` is the request for `method` and `path` signed with `token` at its
/// own timestamp.
pub open spec fn is_signed(req: SignedRequest, method: Seq<char>, path: Seq<char>, token: Seq<
    char,
>) -> bool {
    &&& method_of(method) == Some(req.method)
    &&& req.path@ == path
    &&& req.headers.authorization@ == "Bearer "@ + token
    &&& req.headers.timestamp@ == int_digits(req.ts as int)
    &&& req.headers.signature@ == signature_of(
        token,
        signing_message_spec(method, path, req.ts as int),
    )
}

/// Signs a request at timestamp `ts`; an unknown method is an error.
pub fn sign_request_at(method: &str, path: &str, token: &str, ts: i64) -> (r: Result<
    SignedRequest,
    ApiError,
>)
    ensures
        match r {
            Ok(req) => req.ts == ts && is_signed(req, method@, path@, token@),
            Err(e) => method_of(method@) is None && e.status == 0 && e.message@
                == "Unknown method "@ + method@,
        },
{
    let message = signing_message(method, path, ts);
    let signature = hmac_sign(token, message.as_str());
    let m = match HttpMethod::parse(method) {
        Ok(m) => m,
        Err(e) => return Err(e),
    };
    let mut authorization = "Bearer ".to_owned();
    authorization.append(token);
    let headers = SignedHeaders { authorization, timestamp: i64_to_string(ts), signature };
    Ok(SignedRequest { method: m, path: path.to_owned(), ts, headers })
}

/// Signs a request at the current time.
pub fn sign_request(method: &str, path: &str, token: &str) -> (r: Result<
    SignedRequest,
    ApiError,
>)
    ensures
        match r {
            Ok(req) => is_signed(req, method@, path@, token@),
            Err(e) => method_of(method@) is None && e.status == 0 && e.message@
                == "Unknown method "@ + method@,
        },
{
    let ts = unix_now();
    sign_request_at(method, path, token, ts)
}

// ── Login ────────────────────────────────────────────────────────────────────

/// The unsigned login request body.
#[derive(Debug, Clone)]
pub struct LoginPayload<'a> {
    pub username: &'a str,
    pub password: &'a str,
}

/// The answer to a successful login.
#[derive(Debug, Clone)]
pub struct LoginResponse {
    pub token: String,
    pub user: crate::auth::CurrentUser,
    pub expires_at: String,
}

impl LoginResponse {
    /// The session change a successful login makes: its token and user.
    pub fn into_action(self) -> (r: crate::auth::AuthAction)
        ensures
            r == (crate::auth::AuthAction::SetUser { token: self.token, user: self.user }),
    {
        crate::auth::AuthAction::SetUser { token: self.token, user: self.user }
    }
}

/// Path of the (unsigned) login request.
pub const LOGIN_PATH: &'static str = "/api/v1/auth/login";

/// Path of the logout request (`DELETE`).
pub const LOGOUT_PATH: &'static str = "/api/v1/auth/logout";

/// Path of the current-user request (`GET`).
pub const ME_PATH: &'static str = "/api/v1/auth/me";

} // verus!
