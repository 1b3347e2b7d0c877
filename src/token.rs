//! The short-lived signed token that stands in for a captcha at login.
use vstd::prelude::*;

verus! {

/// Subject claim of a captcha token.
pub const CAPTCHA_SUBJECT: &'static str = "x-client-login";

/// Text put before the signed token.
pub const CAPTCHA_PREFIX: &'static str = "x-client-login:";

/// How long a captcha token stays valid, in seconds.
pub const CAPTCHA_LIFETIME_SECS: i64 = 7200;

/// Why a captcha token could not be made or read.
#[derive(Clone, Copy, Debug, PartialEq, Eq, Structural)]
pub enum TokenError {
    Signing,
    Decoding,
    EmptySubject,
}

/// The HS256-signed JWT, with the default header, of the claims `sub` and `exp`
/// under `secret`.
pub uninterp spec fn hs256_claims_token(sub: Seq<char>, exp: nat, secret: Seq<char>) -> Seq<char>;

/// Relies on `jsonwebtoken::encode` with `Header::default()` (HS256) and
/// `EncodingKey::from_secret`: the signed token of the claims `{sub, exp}`, which
/// depends on its arguments alone. With an HMAC key and the HS256 header the key
/// family matches, the header and a map of strings and numbers serialize, and
/// HMAC signing cannot fail, so a token always comes back.
#[verifier::external_body]
fn sign_claims(sub: &str, exp: u64, secret: &str) -> (r: Option<String>)
    ensures
        r is Some,
        r matches Some(t) ==> t@ == hs256_claims_token(sub@, exp as nat, secret@),
{
    let mut claims = std::collections::BTreeMap::new();
    claims.insert("sub", serde_json::Value::from(sub));
    claims.insert("exp", serde_json::Value::from(exp));
    let key = jsonwebtoken::EncodingKey::from_secret(secret.as_bytes());
    jsonwebtoken::encode(&jsonwebtoken::Header::default(), &claims, &key).ok()
}

/// Relies on `jsonwebtoken::decode` with `Validation::default()` (HS256, an
/// unexpired `exp` required) and `DecodingKey::from_secret`: the `sub` claim of a
/// valid token, when it is a string. The outcome depends on the clock.
#[verifier::external_body]
fn decode_subject(raw: &str, secret: &str) -> (r: Option<String>) {
    let key = jsonwebtoken::DecodingKey::from_secret(secret.as_bytes());
    let validation = jsonwebtoken::Validation::default();
    match jsonwebtoken::decode::<std::collections::BTreeMap<String, serde_json::Value>>(raw, &key, &validation) {
        Ok(mut data) => match data.claims.remove("sub") {
            Some(serde_json::Value::String(s)) => Some(s),
            _ => None,
        },
        Err(_) => None,
    }
}

/// Relies on `chrono::Utc::now().timestamp()`: the current time in seconds since
/// the Unix epoch, of which nothing is promised.
#[verifier::external_body]
fn unix_now_secs() -> i64 {
    chrono::Utc::now().timestamp()
}

/// The expiry claim of a token made at `now` seconds: the end of its lifetime,
/// kept within `[0, i64::MAX]`.
pub open spec fn expiry_for(now: int) -> nat {
    let e = now + CAPTCHA_LIFETIME_SECS;
    if e < 0 {
        0
    } else if e > i64::MAX {
        i64::MAX as nat
    } else {
        e as nat
    }
}

/// The expiry claim of a token made at `now_secs`.
pub fn captcha_expiry(now_secs: i64) -> (r: u64)
    ensures
        r == expiry_for(now_secs as int),
{
    if now_secs > i64::MAX - CAPTCHA_LIFETIME_SECS {
        i64::MAX as u64
    } else if now_secs + CAPTCHA_LIFETIME_SECS < 0 {
        0
    } else {
        (now_secs + CAPTCHA_LIFETIME_SECS) as u64
    }
}

/// The captcha token for a signing result: the prefix before the signed token,
/// or a signing error.
pub fn prefixed_captcha_token(signed: Option<String>) -> (r: Result<String, TokenError>)
    ensures
        signed is None ==> r == Err::<String, TokenError>(TokenError::Signing),
        signed matches Some(t) ==> (r matches Ok(v) && v@ == CAPTCHA_PREFIX@ + t@),
{
    match signed {
        Some(t) => {
            let mut s = String::new();
            s.append(CAPTCHA_PREFIX);
            s.append(t.as_str());
            Ok(s)
        },
        None => Err(TokenError::Signing),
    }
}

/// The captcha token made at `now_secs` under `secret`.
pub fn captcha_token_at(secret: &str, now_secs: i64) -> (r: Result<String, TokenError>)
    ensures
        r is Ok,
        r matches Ok(v) ==> v@ == CAPTCHA_PREFIX@ + hs256_claims_token(
            CAPTCHA_SUBJECT@,
            expiry_for(now_secs as int),
            secret@,
        ),
{
    let exp = captcha_expiry(now_secs);
    let signed = sign_claims(CAPTCHA_SUBJECT, exp, secret);
    prefixed_captcha_token(signed)
}

/// A captcha token valid for the next two hours, signed with `secret`.
pub fn create_captcha_token(secret: &str) -> (r: Result<String, TokenError>)
    ensures
        r is Ok,
        r matches Ok(v) ==> exists|exp: nat|
            v@ == CAPTCHA_PREFIX@ + hs256_claims_token(CAPTCHA_SUBJECT@, exp, secret@),
{
    let now = unix_now_secs();
    captcha_token_at(secret, now)
}

/// `s` with every occurrence of `p` taken out, scanning left to right.
pub open spec fn without_all(s: Seq<char>, p: Seq<char>) -> Seq<char>
    decreases s.len(),
{
    if s.len() == 0 {
        Seq::empty()
    } else if 0 < p.len() <= s.len() && s.subrange(0, p.len() as int) == p {
        without_all(s.subrange(p.len() as int, s.len() as int), p)
    } else {
        seq![s[0]] + without_all(s.subrange(1, s.len() as int), p)
    }
}

/// Whether `p` occurs in `s` at character `i`.
fn occurs_at(s: &str, i: usize, p: &str) -> (r: bool)
    requires
        i <= s@.len(),
    ensures
        r == (0 < p@.len() <= s@.len() - i && s@.subrange(i as int, i + p@.len()) == p@),
{
    let n = s.unicode_len();
    let m = p.unicode_len();
    if m == 0 || m > n - i {
        return false;
    }
    let mut j: usize = 0;
    while j < m
        invariant
            0 < m <= n - i,
            n == s@.len(),
            m == p@.len(),
            j <= m,
            forall|k: int| 0 <= k < j ==> s@[i + k] == p@[k],
        decreases m - j,
    {
        if s.get_char(i + j) != p.get_char(j) {
            assert(s@.subrange(i as int, i + m)[j as int] != p@[j as int]);
            return false;
        }
        j = j + 1;
    }
    assert(s@.subrange(i as int, i + m) =~= p@);
    true
}

/// `s` with every occurrence of `p` taken out, scanning left to right.
pub fn remove_all(s: &str, p: &str) -> (r: String)
    ensures
        r@ == without_all(s@, p@),
{
    let n = s.unicode_len();
    let m = p.unicode_len();
    let mut out = String::new();
    let mut i: usize = 0;
    assert(s@.subrange(0, n as int) == s@);
    while i < n
        invariant
            n == s@.len(),
            m == p@.len(),
            i <= n,
            out@ + without_all(s@.subrange(i as int, n as int), p@) == without_all(s@, p@),
        decreases n - i,
    {
        let ghost rest = s@.subrange(i as int, n as int);
        if occurs_at(s, i, p) {
            assert(rest.subrange(0, m as int) == s@.subrange(i as int, i + m));
            assert(rest.subrange(m as int, rest.len() as int) == s@.subrange(i + m, n as int));
            i = i + m;
        } else {
            assert(0 < m <= rest.len() ==> rest.subrange(0, m as int) == s@.subrange(i as int, i + m));
            assert(rest.subrange(1, rest.len() as int) == s@.subrange(i + 1, n as int));
            let c = s.substring_char(i, i + 1);
            assert(c@ == seq![rest[0]]);
            out.append(c);
            assert(out@ + without_all(s@.subrange(i + 1, n as int), p@) == without_all(s@, p@));
            i = i + 1;
        }
    }
    assert(s@.subrange(n as int, n as int) == Seq::<char>::empty());
    out
}

/// The subject of a decoded token: present and non-empty, else an error.
pub fn checked_subject(decoded: Option<String>) -> (r: Result<String, TokenError>)
    ensures
        decoded is None ==> r == Err::<String, TokenError>(TokenError::Decoding),
        decoded matches Some(s) ==> if s@.len() == 0 {
            r == Err::<String, TokenError>(TokenError::EmptySubject)
        } else {
            r == Ok::<String, TokenError>(s)
        },
{
    match decoded {
        None => Err(TokenError::Decoding),
        Some(s) => {
            if s.as_str().unicode_len() == 0 {
                Err(TokenError::EmptySubject)
            } else {
                Ok(s)
            }
        },
    }
}

/// The subject of a captcha token signed with `secret`, once the prefix is taken
/// out and the token is checked.
pub fn verify_captcha_token(token: &str, secret: &str) -> (r: Result<String, TokenError>)
    ensures
        r matches Ok(s) ==> s@.len() > 0,
        r is Err ==> (r == Err::<String, TokenError>(TokenError::Decoding) || r == Err::<
            String,
            TokenError,
        >(TokenError::EmptySubject)),
{
    let raw = remove_all(token, CAPTCHA_PREFIX);
    let decoded = decode_subject(raw.as_str(), secret);
    checked_subject(decoded)
}

} // verus!
