//! Getting a user's access token with a PIN: a request token is asked for,
//! the user allows the application and reads a PIN, and the PIN buys the
//! access token.
use vstd::prelude::*;
use vstd::string::StringExecFns;

use crate::api::http::Method;
use crate::api::request::Body;
use crate::api::request::Request;
use crate::api::twitter::clock::unix_seconds;
use crate::api::twitter::data::Oauth;
use crate::api::twitter::data::NONCE_LEN;
use crate::api::twitter::params::pairs_of;
use crate::api::twitter::params::Pair;
use crate::api::twitter::sign::is_nonce;
use crate::text::chars_of;
use crate::text::opt_text;

verus! {

/// Where a request token is asked for.
pub const REQUEST_TOKEN_URI: &'static str = "https://api.twitter.com/oauth/request_token";

/// Where a PIN buys an access token.
pub const ACCESS_TOKEN_URI: &'static str = "https://api.twitter.com/oauth/access_token";

/// A token as Twitter hands it out.
#[derive(Debug)]
pub struct RequestToken {
    /// The token.
    pub oauth_token: String,
    /// The token's secret.
    pub oauth_token_secret: String,
}

/// Whether every character is a decimal digit.
pub open spec fn all_digits(text: Seq<char>) -> bool {
    forall|i: int| 0 <= i < text.len() ==> '0' <= #[trigger] text[i] <= '9'
}

/// The number that decimal digits stand for.
pub open spec fn digits_value(digits: Seq<char>) -> nat
    decreases digits.len(),
{
    if digits.len() == 0 {
        0
    } else {
        digits_value(digits.drop_last()) * 10 + (digits.last() as nat - 48) as nat
    }
}

/// The text without a `+` at its start.
pub open spec fn unsigned(text: Seq<char>) -> Seq<char> {
    if text.len() > 0 && text[0] == '+' {
        text.drop_first()
    } else {
        text
    }
}

/// Whether the text is a PIN: decimal digits, at least one, that stand for a
/// number of 32 bits; a `+` may stand before them.
pub open spec fn is_pin(text: Seq<char>) -> bool {
    &&& unsigned(text).len() > 0
    &&& all_digits(unsigned(text))
    &&& digits_value(unsigned(text)) <= u32::MAX
}

/// More digits do not stand for a smaller number.
proof fn lemma_digits_grow(digits: Seq<char>, shorter: int)
    requires
        all_digits(digits),
        0 <= shorter <= digits.len(),
    ensures
        digits_value(digits.take(shorter)) <= digits_value(digits),
    decreases digits.len() - shorter,
{
    if shorter < digits.len() {
        let next = digits.take(shorter + 1);
        assert(next.drop_last() =~= digits.take(shorter));
        assert(next.last() == digits[shorter]);
        lemma_digits_grow(digits, shorter + 1);
    } else {
        assert(digits.take(shorter) =~= digits);
    }
}

/// Whether the text is a PIN.
pub fn pin_is_valid(text: &str) -> (r: bool)
    ensures
        r == is_pin(text@),
{
    let chars = chars_of(text);
    let start: usize = if chars.len() > 0 && chars[0] == '+' {
        1
    } else {
        0
    };
    let ghost digits = unsigned(text@);
    assert(digits =~= chars@.skip(start as int));
    if chars.len() == start {
        return false;
    }
    let mut value: u64 = 0;
    let mut i: usize = start;
    assert(digits.take(0) =~= Seq::<char>::empty());
    while i < chars.len()
        invariant
            start <= i <= chars.len(),
            digits == chars@.skip(start as int),
            digits == unsigned(text@),
            all_digits(digits.take(i - start)),
            value == digits_value(digits.take(i - start)),
            value <= u32::MAX,
        decreases chars.len() - i,
    {
        let c = chars[i];
        let ghost next = digits.take(i - start + 1);
        proof {
            assert(next.drop_last() =~= digits.take(i - start));
            assert(next.last() == c);
        }
        if c < '0' || c > '9' {
            assert(!all_digits(digits)) by {
                assert(digits[i - start] == c);
            }
            return false;
        }
        let d: u64 = (c as u32 - 48) as u64;
        value = value * 10 + d;
        assert(all_digits(next)) by {
            assert forall|k: int| 0 <= k < next.len() implies '0' <= #[trigger] next[k] <= '9' by {
                if k < next.len() - 1 {
                    assert(next[k] == digits.take(i - start)[k]);
                }
            }
        }
        if value > 0xffff_ffff {
            proof {
                if all_digits(digits) {
                    lemma_digits_grow(digits, i - start + 1);
                }
            }
            return false;
        }
        i += 1;
    }
    assert(digits.take(chars.len() - start) =~= digits);
    true
}

/// What is sent to ask for a request token.
pub open spec fn request_token_pairs() -> Seq<Pair> {
    seq![("oauth_callback"@, "oob"@), ("x_auth_access_type"@, "write"@)]
}

/// What is sent to buy an access token with a PIN.
pub open spec fn access_token_pairs(pin: Seq<char>) -> Seq<Pair> {
    seq![("oauth_verifier"@, pin)]
}

/// Whether `request` is the signed form that sends `fields` to `uri`, made at
/// `timestamp` with `nonce`; or nothing, where it cannot be signed.
pub open spec fn asks(
    oauth: Oauth,
    request: Option<Request>,
    uri: Seq<char>,
    fields: Seq<Pair>,
    nonce: Seq<char>,
    timestamp: u64,
) -> bool {
    let header = oauth.authorization(Method::Post, uri, fields, nonce, timestamp);
    match request {
        Some(request) => {
            &&& header is Some
            &&& request.method == Method::Post
            &&& request.url@ == uri
            &&& opt_text(request.authorization) == header
            &&& request.cookies@.len() == 0
            &&& request.body matches Body::Form(sent) && pairs_of(sent@) == fields
        },
        None => header is None,
    }
}

/// The signed form that sends `fields` to `uri`.
fn ask(oauth: &Oauth, uri: &str, fields: Vec<(String, String)>, nonce: &str, timestamp: u64) -> (request:
    Option<Request>)
    ensures
        asks(*oauth, request, uri@, pairs_of(fields@), nonce@, timestamp),
{
    match oauth.gen_auth_at(&Method::Post, uri, &fields, nonce, timestamp) {
        Some(header) => Some(
            Request {
                method: Method::Post,
                url: String::from_str(uri),
                authorization: Some(header),
                cookies: Vec::new(),
                body: Body::Form(fields),
            },
        ),
        None => None,
    }
}

/// The request for a request token, made at `timestamp` with `nonce`. The
/// user is to read the PIN off the page, and the application may write.
pub fn request_token_at(oauth: &Oauth, nonce: &str, timestamp: u64) -> (request: Option<Request>)
    ensures
        asks(*oauth, request, REQUEST_TOKEN_URI@, request_token_pairs(), nonce@, timestamp),
{
    let mut fields: Vec<(String, String)> = Vec::new();
    fields.push((String::from_str("oauth_callback"), String::from_str("oob")));
    fields.push((String::from_str("x_auth_access_type"), String::from_str("write")));
    assert(pairs_of(fields@) =~= request_token_pairs());
    ask(oauth, REQUEST_TOKEN_URI, fields, nonce, timestamp)
}

/// The request for a request token, made now with a fresh nonce.
pub fn request_token(oauth: &Oauth) -> (request: Option<Request>)
    ensures
        exists|nonce: Seq<char>, timestamp: u64|
            is_nonce(nonce, NONCE_LEN as nat) && #[trigger] asks(
                *oauth,
                request,
                REQUEST_TOKEN_URI@,
                request_token_pairs(),
                nonce,
                timestamp,
            ),
{
    let nonce = Oauth::nonce();
    let timestamp = unix_seconds();
    let request = request_token_at(oauth, nonce.as_str(), timestamp);
    assert(asks(*oauth, request, REQUEST_TOKEN_URI@, request_token_pairs(), nonce@, timestamp));
    request
}

/// The request that buys an access token with `pin`, made at `timestamp`
/// with `nonce`. The keys are to hold the request token as the user's.
pub fn access_token_at(oauth: &Oauth, pin: &str, nonce: &str, timestamp: u64) -> (request: Option<
    Request,
>)
    ensures
        asks(*oauth, request, ACCESS_TOKEN_URI@, access_token_pairs(pin@), nonce@, timestamp),
{
    let mut fields: Vec<(String, String)> = Vec::new();
    fields.push((String::from_str("oauth_verifier"), String::from_str(pin)));
    assert(pairs_of(fields@) =~= access_token_pairs(pin@));
    ask(oauth, ACCESS_TOKEN_URI, fields, nonce, timestamp)
}

/// The request that buys an access token with `pin`, made now with a fresh
/// nonce.
pub fn access_token(oauth: &Oauth, pin: &str) -> (request: Option<Request>)
    ensures
        exists|nonce: Seq<char>, timestamp: u64|
            is_nonce(nonce, NONCE_LEN as nat) && #[trigger] asks(
                *oauth,
                request,
                ACCESS_TOKEN_URI@,
                access_token_pairs(pin@),
                nonce,
                timestamp,
            ),
{
    let nonce = Oauth::nonce();
    let timestamp = unix_seconds();
    let request = access_token_at(oauth, pin, nonce.as_str(), timestamp);
    assert(asks(*oauth, request, ACCESS_TOKEN_URI@, access_token_pairs(pin@), nonce@, timestamp));
    request
}

/// The page on which the user allows the application.
pub open spec fn link_text(token: Seq<char>) -> Seq<char> {
    "https://api.twitter.com/oauth/authorize?oauth_token="@ + token
}

/// The page on which the user allows the application.
pub fn authorize_link(token: &RequestToken) -> (link: String)
    ensures
        link@ == link_text(token.oauth_token@),
{
    let mut link = String::from_str("https://api.twitter.com/oauth/authorize?oauth_token=");
    link.append(token.oauth_token.as_str());
    link
}

/// The lines of the configuration file that hold an access token.
pub open spec fn settings_text(key: Seq<char>, secret: Seq<char>) -> Seq<char> {
    "[api.twitter.access]\nkey = \""@ + key + "\"\nsecret = \""@ + secret + "\""@
}

/// The lines of the configuration file that hold the access token.
pub fn access_settings(token: &RequestToken) -> (lines: String)
    ensures
        lines@ == settings_text(token.oauth_token@, token.oauth_token_secret@),
{
    let mut lines = String::from_str("[api.twitter.access]\nkey = \"");
    lines.append(token.oauth_token.as_str());
    lines.append("\"\nsecret = \"");
    lines.append(token.oauth_token_secret.as_str());
    lines.append("\"");
    lines
}

} // verus!
