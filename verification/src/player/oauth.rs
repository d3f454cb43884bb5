//! PKCE/OAuth bootstrap logic for the player worker.
//!
//! The worker obtains a bearer credential through an authorization-code flow
//! with PKCE: it generates a random verifier and an anti-CSRF state token,
//! derives the code challenge, builds the authorization URL, parses the
//! browser's callback request line, and validates the token-endpoint
//! response.  All of that logic is verified here; the surrounding I/O (the
//! local TCP listener, the browser launch and the HTTPS POST) is performed by
//! the embedding application, which hands the raw values to these functions.

use base64::Engine;
use rand::Rng;
use sha2::Digest;
use vstd::prelude::*;
use vstd::string::{StringExecFns, StringSliceAdditionalSpecFns};
use vstd::utf8::is_ascii_chars;

verus! {

/// A failure of the authorization flow, per the error taxonomy of the
/// bootstrapper.
#[derive(Debug, Clone)]
pub enum AuthError {
    /// The system browser could not be launched (non-fatal: the operator can
    /// still visit the authorization URL by hand).
    BrowserLaunchFailed,
    /// The local callback listener could not be bound.
    ListenerBindFailed,
    /// The callback request carried no authorization code.
    CallbackParseFailed,
    /// The callback's anti-CSRF state differed from the one generated.
    StateMismatch,
    /// The token endpoint refused the exchange or returned no token; the
    /// payload is the endpoint's own explanation.
    TokenExchangeFailed(String),
}

/// The words of each [`AuthError`], used by [`AuthError::message`].
pub open spec fn auth_error_message(e: AuthError) -> Seq<char> {
    match e {
        AuthError::BrowserLaunchFailed => "Failed to open browser"@,
        AuthError::ListenerBindFailed => "Failed to bind callback listener"@,
        AuthError::CallbackParseFailed => "Failed to extract authorization code"@,
        AuthError::StateMismatch => "CSRF state mismatch"@,
        AuthError::TokenExchangeFailed(reason) => "Token exchange failed: "@ + reason@,
    }
}

impl AuthError {
    /// A human-readable description of the failure.
    pub fn message(&self) -> (r: String)
        ensures
            r@ == auth_error_message(*self),
    {
        match self {
            AuthError::BrowserLaunchFailed => String::from_str("Failed to open browser"),
            AuthError::ListenerBindFailed => String::from_str("Failed to bind callback listener"),
            AuthError::CallbackParseFailed => String::from_str("Failed to extract authorization code"),
            AuthError::StateMismatch => String::from_str("CSRF state mismatch"),
            AuthError::TokenExchangeFailed(reason) => {
                let mut m = String::from_str("Token exchange failed: ");
                m.append(reason.as_str());
                m
            }
        }
    }
}

/// The SHA-256 digest of a byte sequence.
pub uninterp spec fn sha256_of(bytes: Seq<u8>) -> Seq<u8>;

/// The unpadded URL-safe base64 encoding of a byte sequence.
pub uninterp spec fn b64url_of(bytes: Seq<u8>) -> Seq<char>;

/// The percent-encoding of a character sequence.
pub uninterp spec fn urlenc_of(s: Seq<char>) -> Seq<char>;

/// The `access_token` string field of a JSON document, when the document
/// parses and has one.
pub uninterp spec fn access_token_of(body: Seq<char>) -> Option<Seq<char>>;

/// Relies on sha2's `Sha256` (`Digest::digest`): a 32-byte digest that is a
/// function of the input bytes alone.
#[verifier::external_body]
fn sha256(data: &[u8]) -> (r: Vec<u8>)
    ensures
        r@ == sha256_of(data@),
        r@.len() == 32,
{
    sha2::Sha256::digest(data).to_vec()
}

/// Relies on base64's `URL_SAFE_NO_PAD` engine: the unpadded URL-safe
/// encoding of the input bytes alone; four output characters for every three
/// input bytes (rounded up), all of them ASCII.
#[verifier::external_body]
fn b64url(data: &[u8]) -> (r: String)
    ensures
        r@ == b64url_of(data@),
        r@.len() == (data@.len() * 4 + 2) / 3,
        is_ascii_chars(r@),
{
    base64::engine::general_purpose::URL_SAFE_NO_PAD.encode(data)
}

/// Relies on urlencoding's `encode`: the percent-encoding of the input
/// characters alone; an empty input stays empty.
#[verifier::external_body]
fn urlencode(s: &str) -> (r: String)
    ensures
        r@ == urlenc_of(s@),
        s@.len() == 0 ==> r@.len() == 0,
{
    urlencoding::encode(s).into_owned()
}

/// Relies on rand's `thread_rng` (`Rng::gen`): one byte; nothing is promised
/// of its value.
#[verifier::external_body]
fn random_byte() -> u8 {
    rand::thread_rng().gen()
}

/// Relies on serde_json (`from_str`, `Value::get`, `Value::as_str`): the
/// `access_token` string field of the body, a function of the body alone.
#[verifier::external_body]
fn extract_access_token(body: &str) -> (r: Option<String>)
    ensures
        match r {
            Some(t) => access_token_of(body@) == Some(t@),
            None => access_token_of(body@) is None,
        },
{
    match serde_json::from_str::<serde_json::Value>(body) {
        Ok(v) => match v.get("access_token") {
            Some(t) => match t.as_str() {
                Some(s) => Some(s.to_string()),
                None => None,
            },
            None => None,
        },
        Err(_) => None,
    }
}

/// A vector of fresh random bytes of the requested length.
pub fn random_bytes(n: usize) -> (r: Vec<u8>)
    ensures
        r@.len() == n,
{
    let mut r: Vec<u8> = Vec::new();
    let mut i: usize = 0;
    while i < n
        invariant
            i <= n,
            r@.len() == i,
        decreases n - i,
    {
        r.push(random_byte());
        i = i + 1;
    }
    r
}

/// Number of bytes of randomness behind the PKCE verifier.
pub const VERIFIER_RANDOM_LEN: usize = 64;

/// Number of bytes of randomness behind the anti-CSRF state token.
pub const STATE_RANDOM_LEN: usize = 16;

/// A fresh PKCE verifier: 64 random bytes, base64url-encoded without
/// padding (86 ASCII characters).
pub fn generate_verifier() -> (r: String)
    ensures
        r@.len() == 86,
        is_ascii_chars(r@),
{
    let bytes = random_bytes(VERIFIER_RANDOM_LEN);
    b64url(bytes.as_slice())
}

/// A fresh anti-CSRF state token: 16 random bytes, base64url-encoded without
/// padding (22 ASCII characters).
pub fn generate_state() -> (r: String)
    ensures
        r@.len() == 22,
        is_ascii_chars(r@),
{
    let bytes = random_bytes(STATE_RANDOM_LEN);
    b64url(bytes.as_slice())
}

/// The PKCE code challenge for a verifier: the unpadded base64url encoding
/// of the SHA-256 digest of the verifier's bytes.
pub fn pkce_challenge(verifier: &str) -> (r: String)
    ensures
        r@ == b64url_of(sha256_of(verifier.spec_bytes())),
{
    let digest = sha256(verifier.as_bytes());
    b64url(digest.as_slice())
}

/// The decimal digit character for a value below ten.
pub open spec fn dec_digit(d: nat) -> char {
    if d == 0 { '0' }
    else if d == 1 { '1' }
    else if d == 2 { '2' }
    else if d == 3 { '3' }
    else if d == 4 { '4' }
    else if d == 5 { '5' }
    else if d == 6 { '6' }
    else if d == 7 { '7' }
    else if d == 8 { '8' }
    else { '9' }
}

/// The decimal digit string of a natural number, most significant digit
/// first, with no leading zeros (a lone zero for zero).
pub open spec fn dec_of(n: nat) -> Seq<char>
    decreases n,
{
    if n < 10 {
        seq![dec_digit(n)]
    } else {
        dec_of(n / 10).push(dec_digit(n % 10))
    }
}

/// The one-character string for a decimal digit.
fn digit_str(d: u8) -> (r: &'static str)
    requires
        d < 10,
    ensures
        r@ =~= seq![dec_digit(d as nat)],
{
    match d {
        0 => { proof { reveal_strlit("0"); } "0" }
        1 => { proof { reveal_strlit("1"); } "1" }
        2 => { proof { reveal_strlit("2"); } "2" }
        3 => { proof { reveal_strlit("3"); } "3" }
        4 => { proof { reveal_strlit("4"); } "4" }
        5 => { proof { reveal_strlit("5"); } "5" }
        6 => { proof { reveal_strlit("6"); } "6" }
        7 => { proof { reveal_strlit("7"); } "7" }
        8 => { proof { reveal_strlit("8"); } "8" }
        _ => { proof { reveal_strlit("9"); } "9" }
    }
}

/// The decimal rendering of a 16-bit number.
pub fn u16_dec(n: u16) -> (s: String)
    ensures
        s@ =~= dec_of(n as nat),
    decreases n,
{
    if n < 10 {
        String::from_str(digit_str(n as u8))
    } else {
        let mut s = u16_dec(n / 10);
        s.append(digit_str((n % 10) as u8));
        proof {
            assert(s@ =~= dec_of((n / 10) as nat).push(dec_digit((n % 10) as nat)));
        }
        s
    }
}

/// The loopback redirect URI for a callback port and path.
pub fn redirect_uri_for(port: u16, path: &str) -> (r: String)
    ensures
        r@ =~= "http://127.0.0.1:"@ + dec_of(port as nat) + path@,
{
    let mut s = String::from_str("http://127.0.0.1:");
    let digits = u16_dec(port);
    s.append(digits.as_str());
    s.append(path);
    s
}

/// The authorization URL: the authorize endpoint with the client id, the
/// percent-encoded redirect URI and scope list, the state token, the code
/// challenge, and the S256 challenge method in its query.
pub open spec fn auth_url_of(
    authorize_endpoint: Seq<char>,
    client_id: Seq<char>,
    redirect_uri: Seq<char>,
    scopes: Seq<char>,
    state: Seq<char>,
    challenge: Seq<char>,
) -> Seq<char> {
    authorize_endpoint + "?client_id="@ + client_id + "&response_type=code&redirect_uri="@
        + urlenc_of(redirect_uri) + "&scope="@ + urlenc_of(scopes) + "&state="@ + state
        + "&code_challenge="@ + challenge + "&code_challenge_method=S256"@
}

/// Build the authorization URL for one flow.
pub fn build_auth_url(
    authorize_endpoint: &str,
    client_id: &str,
    redirect_uri: &str,
    scopes: &str,
    state: &str,
    challenge: &str,
) -> (r: String)
    ensures
        r@ =~= auth_url_of(authorize_endpoint@, client_id@, redirect_uri@, scopes@, state@, challenge@),
{
    let mut s = String::from_str(authorize_endpoint);
    s.append("?client_id=");
    s.append(client_id);
    s.append("&response_type=code&redirect_uri=");
    let enc_uri = urlencode(redirect_uri);
    s.append(enc_uri.as_str());
    s.append("&scope=");
    let enc_scopes = urlencode(scopes);
    s.append(enc_scopes.as_str());
    s.append("&state=");
    s.append(state);
    s.append("&code_challenge=");
    s.append(challenge);
    s.append("&code_challenge_method=S256");
    s
}

/// The space-joined OAuth scope list the streaming engine's playback
/// session requires.
pub fn oauth_scopes() -> (r: String)
    ensures
        r@ == (
        "app-remote-control playlist-modify playlist-modify-private playlist-modify-public playlist-read playlist-read-collaborative playlist-read-private streaming ugc-image-upload user-follow-modify user-follow-read user-library-modify user-library-read user-modify user-modify-playback-state user-modify-private user-personalized user-read-birthdate user-read-currently-playing user-read-email user-read-play-history user-read-playback-position user-read-playback-state user-read-private user-read-recently-played user-top-read"
        )@,
{
    String::from_str(
        "app-remote-control playlist-modify playlist-modify-private playlist-modify-public playlist-read playlist-read-collaborative playlist-read-private streaming ugc-image-upload user-follow-modify user-follow-read user-library-modify user-library-read user-modify user-modify-playback-state user-modify-private user-personalized user-read-birthdate user-read-currently-playing user-read-email user-read-play-history user-read-playback-position user-read-playback-state user-read-private user-read-recently-played user-top-read",
    )
}

/// The static HTML page written back to the browser after a successful
/// callback.
pub fn success_response() -> (r: String)
    ensures
        r@ == (
        "HTTP/1.1 200 OK\r\nContent-Type: text/html\r\n\r\n<html><body><h1>Authentication successful!</h1><p>You can close this window and return to spotatui.</p></body></html>"
        )@,
{
    String::from_str(
        "HTTP/1.1 200 OK\r\nContent-Type: text/html\r\n\r\n<html><body><h1>Authentication successful!</h1><p>You can close this window and return to spotatui.</p></body></html>",
    )
}

} // verus!

verus! {

// ---------------------------------------------------------------------------
// Callback request-line parsing.
//
// The callback listener reads only the first line of the browser's HTTP
// request, e.g. `GET /login?code=abc&state=xyz HTTP/1.1`.  The grammar below
// is: the request path is the second space-separated token of the line; its
// query is everything after the first `?`; the query is `&`-separated
// `key=value` pairs, keys matched literally, values percent-decoded with `+`
// meaning space.  A pair without `=` has an empty value.
// ---------------------------------------------------------------------------

/// The first position in `[i, end)` holding byte `b`, or `end`.
pub open spec fn scan(s: Seq<u8>, i: int, end: int, b: u8) -> int
    recommends
        0 <= i <= end <= s.len(),
    decreases end - i,
{
    if i >= end {
        end
    } else if s[i] == b {
        i
    } else {
        scan(s, i + 1, end, b)
    }
}

/// The first position in `[i, end)` holding a byte other than `b`, or `end`.
pub open spec fn scan_not(s: Seq<u8>, i: int, end: int, b: u8) -> int
    recommends
        0 <= i <= end <= s.len(),
    decreases end - i,
{
    if i >= end {
        end
    } else if s[i] != b {
        i
    } else {
        scan_not(s, i + 1, end, b)
    }
}

/// Both scans stay within `[i, end]`.
pub proof fn lemma_scan_bounds(s: Seq<u8>, i: int, end: int, b: u8)
    requires
        i <= end,
    ensures
        i <= scan(s, i, end, b) <= end,
        i <= scan_not(s, i, end, b) <= end,
    decreases end - i,
{
    if i < end {
        lemma_scan_bounds(s, i + 1, end, b);
    }
}

/// True of ASCII hexadecimal digit bytes.
pub open spec fn is_hex_digit(b: u8) -> bool {
    ('0' as u8) <= b <= ('9' as u8) || ('A' as u8) <= b <= ('F' as u8) || ('a' as u8) <= b
        <= ('f' as u8)
}

/// The value of an ASCII hexadecimal digit byte.
pub open spec fn hex_val(b: u8) -> nat
    recommends
        is_hex_digit(b),
{
    if ('0' as u8) <= b <= ('9' as u8) {
        (b - ('0' as u8)) as nat
    } else if ('A' as u8) <= b <= ('F' as u8) {
        (b - ('A' as u8) + 10) as nat
    } else {
        (b - ('a' as u8) + 10) as nat
    }
}

/// The percent-decoding of `s[i..end]`: `%hh` becomes the byte `hh`, `+`
/// becomes a space, everything else (a malformed `%` sequence included)
/// passes through unchanged.
pub open spec fn pct_decode(s: Seq<u8>, i: int, end: int) -> Seq<u8>
    recommends
        0 <= i <= end <= s.len(),
    decreases end - i,
{
    if i >= end {
        Seq::empty()
    } else if s[i] == ('%' as u8) && i + 2 < end && is_hex_digit(s[i + 1]) && is_hex_digit(
        s[i + 2],
    ) {
        seq![((hex_val(s[i + 1]) * 16 + hex_val(s[i + 2])) as u8)] + pct_decode(s, i + 3, end)
    } else if s[i] == ('+' as u8) {
        seq![(' ' as u8)] + pct_decode(s, i + 1, end)
    } else {
        seq![s[i]] + pct_decode(s, i + 1, end)
    }
}

/// The percent-decoded value of the first `&`-separated pair of `s[i..end]`
/// whose key equals `key`, or `None`.
pub open spec fn lookup_from(s: Seq<u8>, i: int, end: int, key: Seq<u8>) -> Option<Seq<u8>>
    recommends
        0 <= i <= end <= s.len(),
    decreases end - i,
{
    let seg_end = scan(s, i, end, ('&' as u8));
    let eq = scan(s, i, seg_end, ('=' as u8));
    if s.subrange(i, eq) == key {
        if eq >= seg_end {
            Some(Seq::empty())
        } else {
            Some(pct_decode(s, eq + 1, seg_end))
        }
    } else if seg_end >= end {
        None
    } else {
        proof {
            lemma_scan_bounds(s, i, end, ('&' as u8));
        }
        lookup_from(s, seg_end + 1, end, key)
    }
}

/// The decoded value of query parameter `key` on the request line `line`:
/// `None` when the line has no path, the path no query, or the query no such
/// key.
pub open spec fn callback_param(line: Seq<u8>, key: Seq<u8>) -> Option<Seq<u8>> {
    let len = line.len() as int;
    let m = scan(line, 0, len, (' ' as u8));
    let p0 = scan_not(line, m, len, (' ' as u8));
    let p1 = scan(line, p0, len, (' ' as u8));
    let q = scan(line, p0, p1, ('?' as u8));
    if q >= p1 {
        None
    } else {
        lookup_from(line, q + 1, p1, key)
    }
}

/// The query key naming the authorization code.
pub open spec fn code_key() -> Seq<u8> {
    seq![('c' as u8), ('o' as u8), ('d' as u8), ('e' as u8)]
}

/// The query key naming the anti-CSRF state token.
pub open spec fn state_key() -> Seq<u8> {
    seq![('s' as u8), ('t' as u8), ('a' as u8), ('t' as u8), ('e' as u8)]
}

fn scan_x(s: &[u8], i: usize, end: usize, b: u8) -> (r: usize)
    requires
        i <= end <= s@.len(),
    ensures
        r == scan(s@, i as int, end as int, b),
        i <= r <= end,
    decreases end - i,
{
    if i >= end {
        end
    } else if s[i] == b {
        i
    } else {
        scan_x(s, i + 1, end, b)
    }
}

fn scan_not_x(s: &[u8], i: usize, end: usize, b: u8) -> (r: usize)
    requires
        i <= end <= s@.len(),
    ensures
        r == scan_not(s@, i as int, end as int, b),
        i <= r <= end,
    decreases end - i,
{
    if i >= end {
        end
    } else if s[i] != b {
        i
    } else {
        scan_not_x(s, i + 1, end, b)
    }
}

fn hex_val_x(b: u8) -> (r: u8)
    requires
        is_hex_digit(b),
    ensures
        r == hex_val(b),
{
    if ('0' as u8) <= b && b <= ('9' as u8) {
        b - ('0' as u8)
    } else if ('A' as u8) <= b && b <= ('F' as u8) {
        b - ('A' as u8) + 10
    } else {
        b - ('a' as u8) + 10
    }
}

fn is_hex_digit_x(b: u8) -> (r: bool)
    ensures
        r == is_hex_digit(b),
{
    (('0' as u8) <= b && b <= ('9' as u8)) || (('A' as u8) <= b && b <= ('F' as u8)) || (('a'
        as u8) <= b && b <= ('f' as u8))
}

fn pct_decode_into(s: &[u8], i: usize, end: usize, out: &mut Vec<u8>)
    requires
        i <= end <= s@.len(),
    ensures
        final(out)@ == old(out)@ + pct_decode(s@, i as int, end as int),
    decreases end - i,
{
    if i >= end {
        proof {
            assert(final(out)@ =~= old(out)@ + pct_decode(s@, i as int, end as int));
        }
        return;
    }
    if s[i] == ('%' as u8) && end - i > 2 && is_hex_digit_x(s[i + 1]) && is_hex_digit_x(
        s[i + 2],
    ) {
        let hi = hex_val_x(s[i + 1]);
        let lo = hex_val_x(s[i + 2]);
        out.push(hi * 16 + lo);
        pct_decode_into(s, i + 3, end, out);
        proof {
            assert(out@ =~= old(out)@ + pct_decode(s@, i as int, end as int));
        }
    } else if s[i] == ('+' as u8) {
        out.push(' ' as u8);
        pct_decode_into(s, i + 1, end, out);
        proof {
            assert(out@ =~= old(out)@ + pct_decode(s@, i as int, end as int));
        }
    } else {
        out.push(s[i]);
        pct_decode_into(s, i + 1, end, out);
        proof {
            assert(out@ =~= old(out)@ + pct_decode(s@, i as int, end as int));
        }
    }
}

/// Byte-range against key comparison: `s[i..eq] == key`.
fn range_eq(s: &[u8], i: usize, eq: usize, key: &[u8]) -> (r: bool)
    requires
        i <= eq <= s@.len(),
    ensures
        r == (s@.subrange(i as int, eq as int) == key@),
{
    if eq - i != key.len() {
        return false;
    }
    let mut j: usize = 0;
    while j < key.len()
        invariant
            i <= eq <= s@.len(),
            eq - i == key@.len(),
            j <= key@.len(),
            forall|k: int| 0 <= k < j ==> s@[i + k] == key@[k],
        decreases key@.len() - j,
    {
        if s[i + j] != key[j] {
            proof {
                assert(s@.subrange(i as int, eq as int)[j as int] != key@[j as int]);
            }
            return false;
        }
        j = j + 1;
    }
    proof {
        assert(s@.subrange(i as int, eq as int) =~= key@);
    }
    true
}

/// Byte-sequence equality.
fn bytes_eq(a: &[u8], b: &[u8]) -> (r: bool)
    ensures
        r == (a@ == b@),
{
    let r = range_eq(a, 0, a.len(), b);
    proof {
        assert(a@.subrange(0, a@.len() as int) =~= a@);
    }
    r
}

fn lookup_x(s: &[u8], i: usize, end: usize, key: &[u8]) -> (r: Option<Vec<u8>>)
    requires
        i <= end <= s@.len(),
    ensures
        match r {
            Some(v) => lookup_from(s@, i as int, end as int, key@) == Some(v@),
            None => lookup_from(s@, i as int, end as int, key@) is None,
        },
    decreases end - i,
{
    let seg_end = scan_x(s, i, end, '&' as u8);
    let eq = scan_x(s, i, seg_end, '=' as u8);
    if range_eq(s, i, eq, key) {
        if eq >= seg_end {
            Some(Vec::new())
        } else {
            let mut v: Vec<u8> = Vec::new();
            pct_decode_into(s, eq + 1, seg_end, &mut v);
            Some(v)
        }
    } else if seg_end >= end {
        None
    } else {
        lookup_x(s, seg_end + 1, end, key)
    }
}

/// The decoded value of query parameter `key` on the request line `line`.
pub fn extract_callback_param(line: &[u8], key: &[u8]) -> (r: Option<Vec<u8>>)
    ensures
        match r {
            Some(v) => callback_param(line@, key@) == Some(v@),
            None => callback_param(line@, key@) is None,
        },
{
    let len = line.len();
    let m = scan_x(line, 0, len, ' ' as u8);
    let p0 = scan_not_x(line, m, len, ' ' as u8);
    let p1 = scan_x(line, p0, len, ' ' as u8);
    let q = scan_x(line, p0, p1, '?' as u8);
    if q >= p1 {
        None
    } else {
        lookup_x(line, q + 1, p1, key)
    }
}

/// Validate the browser callback: extract the authorization code and check
/// the anti-CSRF state.  Returns the code; fails with `CallbackParseFailed`
/// when the line carries no code, and with `StateMismatch` when the returned
/// state is not exactly the expected one.
pub fn check_callback(line: &[u8], expected_state: &[u8]) -> (r: Result<Vec<u8>, AuthError>)
    ensures
        match callback_param(line@, code_key()) {
            None => r matches Err(AuthError::CallbackParseFailed),
            Some(code) => {
                if callback_param(line@, state_key()) == Some(expected_state@) {
                    r matches Ok(c) && c@ == code
                } else {
                    r matches Err(AuthError::StateMismatch)
                }
            },
        },
{
    let ckey: Vec<u8> = vec!['c' as u8, 'o' as u8, 'd' as u8, 'e' as u8];
    let skey: Vec<u8> = vec!['s' as u8, 't' as u8, 'a' as u8, 't' as u8, 'e' as u8];
    proof {
        assert(ckey@ =~= code_key());
        assert(skey@ =~= state_key());
    }
    let code = match extract_callback_param(line, ckey.as_slice()) {
        Some(c) => c,
        None => {
            return Err(AuthError::CallbackParseFailed);
        },
    };
    match extract_callback_param(line, skey.as_slice()) {
        Some(st) => {
            if bytes_eq(st.as_slice(), expected_state) {
                Ok(code)
            } else {
                Err(AuthError::StateMismatch)
            }
        },
        None => Err(AuthError::StateMismatch),
    }
}

/// Decide what the token-endpoint response yields: the access token on a
/// success response that carries one, and `TokenExchangeFailed` otherwise
/// (with the endpoint's body, or a note that the token field is missing, as
/// the reason).
pub fn parse_token_response(status_ok: bool, body: &str) -> (r: Result<String, AuthError>)
    ensures
        !status_ok ==> (r matches Err(AuthError::TokenExchangeFailed(m)) && m@ == body@),
        status_ok ==> match access_token_of(body@) {
            Some(t) => r matches Ok(tok) && tok@ == t,
            None => r matches Err(AuthError::TokenExchangeFailed(m)) && m@
                == "No access_token in response"@,
        },
{
    if !status_ok {
        return Err(AuthError::TokenExchangeFailed(String::from_str(body)));
    }
    match extract_access_token(body) {
        Some(t) => Ok(t),
        None => Err(AuthError::TokenExchangeFailed(String::from_str("No access_token in response"))),
    }
}

/// The form fields of the token-endpoint POST, in order: the grant type,
/// the authorization code, the redirect URI, the client id, and the PKCE
/// verifier.
pub fn token_request_form(code: &str, redirect_uri: &str, client_id: &str, verifier: &str) -> (r:
    Vec<(String, String)>)
    ensures
        r@.len() == 5,
        r@[0].0@ == "grant_type"@ && r@[0].1@ == "authorization_code"@,
        r@[1].0@ == "code"@ && r@[1].1@ == code@,
        r@[2].0@ == "redirect_uri"@ && r@[2].1@ == redirect_uri@,
        r@[3].0@ == "client_id"@ && r@[3].1@ == client_id@,
        r@[4].0@ == "code_verifier"@ && r@[4].1@ == verifier@,
{
    let mut r: Vec<(String, String)> = Vec::new();
    r.push((String::from_str("grant_type"), String::from_str("authorization_code")));
    r.push((String::from_str("code"), String::from_str(code)));
    r.push((String::from_str("redirect_uri"), String::from_str(redirect_uri)));
    r.push((String::from_str("client_id"), String::from_str(client_id)));
    r.push((String::from_str("code_verifier"), String::from_str(verifier)));
    r
}


/// The fixed identity-provider constants of the authorization flow: where
/// to authorize, where to exchange the code, and the one client id (with
/// its required callback port and path) that the streaming engine accepts
/// for playback.  Kept in one place so the values stay auditable and can be
/// swapped in tests.
pub struct IdentityProvider {
    /// The authorization endpoint the browser is sent to.
    pub authorize_endpoint: String,
    /// The token endpoint the code is exchanged at.
    pub token_endpoint: String,
    /// The client id of the flow.
    pub client_id: String,
    /// The callback port the client id is registered for.
    pub redirect_port: u16,
    /// The callback path the client id is registered for.
    pub redirect_path: String,
}

/// The identity provider whose client id grants streaming playback rights.
/// That client id only accepts the one redirect port and path below,
/// whatever port the UI asked for.
pub fn streaming_identity_provider() -> (p: IdentityProvider)
    ensures
        p.authorize_endpoint@ == "https://accounts.spotify.com/authorize"@,
        p.token_endpoint@ == "https://accounts.spotify.com/api/token"@,
        p.client_id@ == "65b708073fc0480ea92a077233ca87bd"@,
        p.redirect_port == 8898,
        p.redirect_path@ == "/login"@,
{
    IdentityProvider {
        authorize_endpoint: String::from_str("https://accounts.spotify.com/authorize"),
        token_endpoint: String::from_str("https://accounts.spotify.com/api/token"),
        client_id: String::from_str("65b708073fc0480ea92a077233ca87bd"),
        redirect_port: 8898,
        redirect_path: String::from_str("/login"),
    }
}

} // verus!
