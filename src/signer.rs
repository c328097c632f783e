//! Signing of requests to the remote manager.
//!
//! Each request carries a short-lived token bound to its method and endpoint
//! by the query-string hash: the lowercase hex SHA-256 digest of
//! `method & endpoint`.
use sha2::Digest;
use vstd::prelude::*;
use vstd::utf8::encode_utf8;

verus! {

/// The error of the token encoder.
#[verifier::external_type_specification]
#[verifier::external_body]
pub struct ExJwtError(jsonwebtoken::errors::Error);

} // verus!

verus! {

/// Seconds for which a token is valid after it was issued.
pub const TOKEN_LIFETIME: i64 = 30;

/// The lowercase hexadecimal digits, in order.
pub const HEX_DIGITS: &'static str = "0123456789abcdef";

/// The principal named as the issuer of every token.
pub const ISSUER: &'static str = "admin";

/// The issuer, as characters.
pub open spec fn issuer() -> Seq<char> {
    seq!['a', 'd', 'm', 'i', 'n']
}

/// The lowercase hexadecimal digit of `d`, for `d < 16`.
pub open spec fn hex_digit(d: int) -> char {
    seq!['0', '1', '2', '3', '4', '5', '6', '7', '8', '9', 'a', 'b', 'c', 'd', 'e', 'f'][d]
}

/// Two lowercase hexadecimal digits for each byte, high digit first.
pub open spec fn hex_of(b: Seq<u8>) -> Seq<char>
    decreases b.len(),
{
    if b.len() == 0 {
        seq![]
    } else {
        hex_of(b.drop_last()) + seq![
            hex_digit(b.last() as int / 16),
            hex_digit(b.last() as int % 16),
        ]
    }
}

/// Hex text has two digits per byte.
pub proof fn lemma_hex_len(b: Seq<u8>)
    ensures
        hex_of(b).len() == 2 * b.len(),
    decreases b.len(),
{
    if b.len() > 0 {
        lemma_hex_len(b.drop_last());
    }
}

/// Every character of hex text is a lowercase hexadecimal digit.
pub proof fn lemma_hex_digits(b: Seq<u8>)
    ensures
        forall|i: int|
            0 <= i < hex_of(b).len() ==> exists|d: int|
                0 <= d < 16 && #[trigger] hex_of(b)[i] == hex_digit(d),
    decreases b.len(),
{
    lemma_hex_len(b);
    if b.len() > 0 {
        let p = b.drop_last();
        lemma_hex_digits(p);
        lemma_hex_len(p);
        let hi = b.last() as int / 16;
        let lo = b.last() as int % 16;
        assert forall|i: int| 0 <= i < hex_of(b).len() implies exists|d: int|
            0 <= d < 16 && #[trigger] hex_of(b)[i] == hex_digit(d) by {
            if i < hex_of(p).len() {
                assert(hex_of(b)[i] == hex_of(p)[i]);
            } else if i == hex_of(p).len() {
                assert(hex_of(b)[i] == hex_digit(hi));
            } else {
                assert(hex_of(b)[i] == hex_digit(lo));
            }
        }
    }
}

/// The SHA-256 digest of `data`.
pub uninterp spec fn sha256_of(data: Seq<u8>) -> Seq<u8>;

/// The bytes that the query-string hash digests: `method & endpoint`.
pub open spec fn qsh_input(method: Seq<char>, endpoint: Seq<char>) -> Seq<u8> {
    encode_utf8(method + seq!['&'] + endpoint)
}

/// The query-string hash of a method and an endpoint.
pub open spec fn qsh_of(method: Seq<char>, endpoint: Seq<char>) -> Seq<char> {
    hex_of(sha256_of(qsh_input(method, endpoint)))
}

/// Relies on `sha2::Sha256::digest`: the SHA-256 digest of the input, which
/// is 32 bytes long.
#[verifier::external_body]
fn sha256(data: &[u8]) -> (r: Vec<u8>)
    ensures
        r@ == sha256_of(data@),
        r@.len() == 32,
{
    sha2::Sha256::digest(data).to_vec()
}

/// The one-character string of the hexadecimal digit `d`.
pub(crate) fn digit_str(d: u8) -> (r: &'static str)
    requires
        d < 16,
    ensures
        r@ == seq![hex_digit(d as int)],
{
    proof {
        reveal_strlit("0123456789abcdef");
    }
    let r = HEX_DIGITS.substring_ascii(d as usize, d as usize + 1);
    assert(r@ =~= seq![hex_digit(d as int)]);
    r
}

/// Lowercase hexadecimal text of `bytes`.
pub fn lower_hex(bytes: &[u8]) -> (r: String)
    ensures
        r@ == hex_of(bytes@),
{
    let mut out = String::new();
    let mut i: usize = 0;
    while i < bytes.len()
        invariant
            i <= bytes@.len(),
            out@ == hex_of(bytes@.subrange(0, i as int)),
        decreases bytes@.len() - i,
    {
        let b = bytes[i];
        out.append(digit_str(b / 16));
        out.append(digit_str(b % 16));
        proof {
            let s = bytes@.subrange(0, i + 1);
            assert(s.drop_last() =~= bytes@.subrange(0, i as int));
        }
        i = i + 1;
    }
    assert(bytes@.subrange(0, i as int) =~= bytes@);
    out
}

/// The query-string hash of a request: the lowercase hex SHA-256 digest of
/// `method & endpoint`.
pub fn qsh(method: &str, endpoint: &str) -> (r: String)
    ensures
        r@ == qsh_of(method@, endpoint@),
        r@.len() == 64,
        forall|i: int|
            0 <= i < r@.len() ==> exists|d: int| 0 <= d < 16 && #[trigger] r@[i] == hex_digit(d),
{
    let mut input = method.to_owned();
    proof {
        reveal_strlit("&");
    }
    input.append("&");
    input.append(endpoint);
    assert(input@ =~= method@ + seq!['&'] + endpoint@);
    let digest = sha256(input.as_str().as_bytes());
    proof {
        lemma_hex_len(digest@);
        lemma_hex_digits(digest@);
    }
    lower_hex(digest.as_slice())
}

/// The claims of a token.
#[derive(Clone, Debug)]
pub struct TokenClaims {
    /// The principal that issued the token.
    pub iss: String,
    /// When the token was issued, in seconds since the Unix epoch.
    pub iat: i64,
    /// When the token expires, in seconds since the Unix epoch.
    pub exp: i64,
    /// The query-string hash of the one request that the token is for.
    pub qsh: String,
}

/// Why a token could not be made.
#[derive(Clone, Copy, Debug, PartialEq, Eq, Structural)]
pub enum SignError {
    /// The clock reads so late that the expiry does not fit in an `i64`.
    ClockOutOfRange,
    /// The token encoder refused the claims or the key.
    Encoding,
}

/// The signed token (HS256, default header) for the given claims and secret.
pub uninterp spec fn hs256_token(
    iss: Seq<char>,
    iat: int,
    exp: int,
    qsh: Seq<char>,
    secret: Seq<char>,
) -> Seq<char>;

/// The token for a request with `method` and `endpoint`, issued at `now`.
pub open spec fn request_token(
    method: Seq<char>,
    endpoint: Seq<char>,
    secret: Seq<char>,
    now: int,
) -> Seq<char> {
    hs256_token(issuer(), now, now + TOKEN_LIFETIME, qsh_of(method, endpoint), secret)
}

/// The largest issue time whose expiry still fits in an `i64`.
pub open spec fn latest_issue_time() -> int {
    i64::MAX - TOKEN_LIFETIME
}

/// Relies on `jsonwebtoken::encode` with `Header::default()` (HS256) and
/// `EncodingKey::from_secret`: the token is a function of the claims and the
/// secret. It succeeds: an HMAC key matches the HS256 header, a header and a
/// map of strings and integers always serialise, and HMAC signing never
/// fails.
#[verifier::external_body]
fn encode_token(claims: &TokenClaims, secret: &str) -> (r: Result<
    String,
    jsonwebtoken::errors::Error,
>)
    ensures
        r is Ok,
        r matches Ok(t) ==> t@ == hs256_token(
            claims.iss@,
            claims.iat as int,
            claims.exp as int,
            claims.qsh@,
            secret@,
        ),
{
    let mut map = serde_json::Map::new();
    map.insert("iss".to_string(), serde_json::Value::from(claims.iss.as_str()));
    map.insert("iat".to_string(), serde_json::Value::from(claims.iat));
    map.insert("exp".to_string(), serde_json::Value::from(claims.exp));
    map.insert("qsh".to_string(), serde_json::Value::from(claims.qsh.as_str()));
    let key = jsonwebtoken::EncodingKey::from_secret(secret.as_bytes());
    jsonwebtoken::encode(&jsonwebtoken::Header::default(), &map, &key)
}

/// Relies on `chrono::Utc::now` and `DateTime::timestamp`: the current Unix
/// time in seconds.
#[verifier::external_body]
fn now_unix() -> (r: i64) {
    chrono::Utc::now().timestamp()
}

/// The claims of a token for the request whose query-string hash is `qsh`,
/// issued at `now`: issuer [`ISSUER`], expiry thirty seconds after issue.
pub fn claims_at(now: i64, qsh: String) -> (r: Result<TokenClaims, SignError>)
    ensures
        now > latest_issue_time() <==> r == Err::<TokenClaims, SignError>(
            SignError::ClockOutOfRange,
        ),
        now <= latest_issue_time() ==> r is Ok,
        r matches Ok(c) ==> {
            &&& c.iss@ == issuer()
            &&& c.iat == now
            &&& c.exp - c.iat == TOKEN_LIFETIME
            &&& c.qsh@ == qsh@
        },
{
    if now > i64::MAX - TOKEN_LIFETIME {
        return Err(SignError::ClockOutOfRange);
    }
    proof {
        reveal_strlit("admin");
    }
    let iss = ISSUER.to_owned();
    assert(iss@ =~= issuer());
    Ok(TokenClaims { iss, iat: now, exp: now + TOKEN_LIFETIME, qsh })
}

/// A token for one request with `method` and `endpoint`, issued at `now`
/// and signed with `secret`.
pub fn sign_token_at(method: &str, endpoint: &str, secret: &str, now: i64) -> (r: Result<
    String,
    SignError,
>)
    ensures
        now > latest_issue_time() ==> r == Err::<String, SignError>(SignError::ClockOutOfRange),
        now <= latest_issue_time() ==> r is Ok,
        r matches Ok(t) ==> t@ == request_token(method@, endpoint@, secret@, now as int),
{
    let claims = match claims_at(now, qsh(method, endpoint)) {
        Ok(c) => c,
        Err(e) => return Err(e),
    };
    match encode_token(&claims, secret) {
        Ok(t) => Ok(t),
        Err(_) => Err(SignError::Encoding),
    }
}

/// A token for one request with `method` and `endpoint`, issued now and
/// signed with `secret`.
pub fn sign_token(method: &str, endpoint: &str, secret: &str) -> (r: Result<String, SignError>)
    ensures
        r matches Ok(t) ==> exists|now: i64|
            now <= latest_issue_time() && t@ == request_token(
                method@,
                endpoint@,
                secret@,
                now as int,
            ),
{
    let now = now_unix();
    sign_token_at(method, endpoint, secret, now)
}

} // verus!
