//! Session cookies, signed session tokens and password hashing.
//!
//! A session token is `base64url(claims JSON) + "." + hex(HMAC-SHA256)`,
//! the HMAC being taken over the Base64 part with the session secret.

use vstd::prelude::*;
use vstd::utf8::encode_utf8;
use crate::crypto::{
    base64_url_decode, base64_url_decoding, base64_url_encode, base64_url_encoding, bcrypt_check,
    bcrypt_hash, bcrypt_hash_prefix, bcrypt_verify, hex_decode, hex_decoding, hex_encode, hex_encoding, hmac_sha256, lemma_hex_round_trip,
    hmac_sha256_tag, hmac_sha256_verify,
};
use crate::text::{chars_eq, chars_of, lemma_split_nonempty, push_char, split_chars, split_on, string_from_chars, string_from_range, to_lower, trim_chars, trim_string, trimmed, unicode_lower, views};

verus! {

broadcast use vstd::string::group_string_axioms;

/// What a session token carries.
#[derive(Debug, Clone)]
pub struct SessionClaims {
    pub user_id: String,
    pub username: String,
    pub role: String,
    pub member_id: Option<String>,
    pub must_change_password: bool,
}

/// The claims of an authenticated request.
pub struct AuthSession(pub SessionClaims);

pub const COOKIE_NAME: &'static str = "bsds_session";

// ---------------------------------------------------------------------------
// Cookies
// ---------------------------------------------------------------------------

/// A `Set-Cookie` value that stores the session token.
pub fn make_cookie(token: &str) -> (r: String)
    ensures
        r@ == "bsds_session="@ + token@ + "; HttpOnly; SameSite=Strict; Path=/"@,
{
    let mut r = "bsds_session=".to_string();
    r.append(token);
    r.append("; HttpOnly; SameSite=Strict; Path=/");
    r
}

/// A `Set-Cookie` value that clears the session cookie.
pub fn clear_cookie() -> (r: String)
    ensures
        r@ == "bsds_session=; HttpOnly; SameSite=Strict; Path=/; Max-Age=0"@,
{
    "bsds_session=; HttpOnly; SameSite=Strict; Path=/; Max-Age=0".to_string()
}

// ---------------------------------------------------------------------------
// Signed tokens
// ---------------------------------------------------------------------------

/// The token for claims serialised as `claims_json`, signed with `secret`.
pub open spec fn token_spec(claims_json: Seq<char>, secret: Seq<char>) -> Seq<char> {
    let payload = base64_url_encoding(encode_utf8(claims_json));
    payload + seq!['.'] + hex_encoding(hmac_sha256(encode_utf8(secret), encode_utf8(payload)))
}

/// Index of the last `.` in `s`, if any.
pub open spec fn last_dot(s: Seq<char>) -> Option<int>
    decreases s.len(),
{
    if s.len() == 0 {
        None
    } else if s.last() == '.' {
        Some(s.len() - 1)
    } else {
        last_dot(s.drop_last())
    }
}

/// The claims JSON bytes a token carries, when its signature is valid.
pub open spec fn verify_spec(token: Seq<char>, secret: Seq<char>) -> Option<Seq<u8>> {
    match last_dot(token) {
        None => None,
        Some(k) => {
            let payload = token.subrange(0, k);
            let sig = token.subrange(k + 1, token.len() as int);
            match hex_decoding(sig) {
                None => None,
                Some(tag) => if tag == hmac_sha256(encode_utf8(secret), encode_utf8(payload)) {
                    base64_url_decoding(payload)
                } else {
                    None
                },
            }
        },
    }
}

proof fn lemma_last_dot_no_dot(a: Seq<char>, b: Seq<char>)
    requires
        !b.contains('.'),
    ensures
        last_dot(a + seq!['.'] + b) == Some(a.len() as int),
    decreases b.len(),
{
    let s = a + seq!['.'] + b;
    if b.len() == 0 {
        assert(s.last() == '.');
    } else {
        assert(s.last() == b.last());
        assert(b.last() != '.') by {
            assert(b[b.len() - 1] == b.last());
        }
        assert(!b.drop_last().contains('.')) by {
            if b.drop_last().contains('.') {
                let k = choose|k: int| 0 <= k < b.drop_last().len() && b.drop_last()[k] == '.';
                assert(b[k] == '.');
            }
        }
        assert(s.drop_last() == a + seq!['.'] + b.drop_last());
        lemma_last_dot_no_dot(a, b.drop_last());
    }
}

proof fn lemma_last_dot(s: Seq<char>)
    ensures
        match last_dot(s) {
            Some(k) => 0 <= k < s.len() && s[k] == '.' && forall|j: int| k < j < s.len() ==> s[j] != '.',
            None => forall|j: int| 0 <= j < s.len() ==> s[j] != '.',
        },
    decreases s.len(),
{
    if s.len() > 0 {
        let d = s.drop_last();
        lemma_last_dot(d);
        assert(s.last() == s[s.len() - 1]);
        assert(forall|j: int| 0 <= j < d.len() ==> d[j] == s[j]);
    }
}

/// Signs claims (already serialised to JSON) into a session token.
///
/// The token verifies with the same secret and gives back the JSON bytes.
pub fn create_session_token(claims_json: &str, secret: &str) -> (r: String)
    ensures
        r@ == token_spec(claims_json@, secret@),
        verify_spec(r@, secret@) == Some(encode_utf8(claims_json@)),
{
    let payload = base64_url_encode(claims_json.as_bytes());
    let tag = hmac_sha256_tag(secret.as_bytes(), payload.as_str().as_bytes());
    let sig = hex_encode(tag.as_slice());
    let mut r = payload.clone();
    push_char(&mut r, '.');
    r.append(sig.as_str());
    proof {
        lemma_hex_round_trip(tag@);
        lemma_last_dot_no_dot(payload@, sig@);
        let t = r@;
        let k = payload@.len() as int;
        assert(t.subrange(0, k) =~= payload@);
        assert(t.subrange(k + 1, t.len() as int) =~= sig@);
    }
    r
}

/// Splits a token at its last `.`.
fn split_last_dot(token: &Vec<char>) -> (r: Option<(String, String)>)
    ensures
        match (r, last_dot(token@)) {
            (Some((p, s)), Some(k)) => p@ == token@.subrange(0, k) && s@ == token@.subrange(k + 1, token@.len() as int),
            (None, None) => true,
            _ => false,
        },
{
    proof {
        lemma_last_dot(token@);
    }
    let mut k: usize = token.len();
    while k > 0 && token[k - 1] != '.'
        invariant
            k <= token@.len(),
            forall|j: int| k <= j < token@.len() ==> token@[j] != '.',
        decreases k,
    {
        k = k - 1;
    }
    if k == 0 {
        return None;
    }
    let p = string_from_range(token, 0, k - 1);
    let s = string_from_range(token, k, token.len());
    Some((p, s))
}

/// The claims JSON bytes of a token whose signature is valid for `secret`.
pub fn verify_session_token(token: &str, secret: &str) -> (r: Option<Vec<u8>>)
    ensures
        match (r, verify_spec(token@, secret@)) {
            (Some(v), Some(b)) => v@ == b,
            (None, None) => true,
            _ => false,
        },
{
    let t = chars_of(token);
    let (payload, sig) = match split_last_dot(&t) {
        Some(ps) => ps,
        None => return None,
    };
    let expected = match hex_decode(sig.as_str()) {
        Some(b) => b,
        None => return None,
    };
    if !hmac_sha256_verify(secret.as_bytes(), payload.as_str().as_bytes(), expected.as_slice()) {
        return None;
    }
    base64_url_decode(payload.as_str())
}

/// The session cookie's value in a `Cookie` header: the trimmed value of the
/// first `;`-separated pair whose trimmed name is `bsds_session`.
pub open spec fn cookie_token_spec(header: Seq<char>) -> Option<Seq<char>> {
    cookie_token_in(split_on(header, ';'), split_on(header, ';').len() as int)
}

/// The session cookie's value among the first `n` segments of a cookie header.
pub open spec fn cookie_token_in(segs: Seq<Seq<char>>, n: int) -> Option<Seq<char>>
    decreases n,
{
    if n <= 0 {
        None
    } else {
        match cookie_token_in(segs, n - 1) {
            Some(t) => Some(t),
            None => segment_token(segs[n - 1]),
        }
    }
}

/// `name=value` within one segment, split at the first `=`: the trimmed
/// value when the trimmed name is the session cookie's.
pub open spec fn segment_token(seg: Seq<char>) -> Option<Seq<char>> {
    let t = trimmed(seg);
    if t.contains('=') {
        let parts = split_on(t, '=');
        let name = trimmed(parts[0]);
        let value = trimmed(t.subrange((parts[0].len() + 1) as int, t.len() as int));
        if name == "bsds_session"@ { Some(value) } else { None }
    } else {
        None
    }
}

proof fn lemma_cookie_token_found(segs: Seq<Seq<char>>, i: int, n: int)
    requires
        0 <= i < n,
        cookie_token_in(segs, i) is None,
        segment_token(segs[i]) is Some,
    ensures
        cookie_token_in(segs, n) == segment_token(segs[i]),
    decreases n,
{
    if n > i + 1 {
        lemma_cookie_token_found(segs, i, n - 1);
    }
}

/// The index of the first `c` in `v`, if any.
fn first_index(v: &Vec<char>, c: char) -> (r: Option<usize>)
    ensures
        match r {
            Some(i) => i < v@.len() && v@[i as int] == c && forall|j: int| 0 <= j < i ==> v@[j] != c,
            None => !v@.contains(c),
        },
{
    let mut i: usize = 0;
    while i < v.len()
        invariant
            0 <= i <= v@.len(),
            forall|j: int| 0 <= j < i ==> v@[j] != c,
        decreases v.len() - i,
    {
        if v[i] == c {
            return Some(i);
        }
        i = i + 1;
    }
    None
}

proof fn lemma_split_first_part(s: Seq<char>, c: char, i: int)
    requires
        0 <= i < s.len(),
        s[i] == c,
        forall|j: int| 0 <= j < i ==> s[j] != c,
    ensures
        split_on(s, c)[0] == s.subrange(0, i),
{
    let a = s.subrange(0, i);
    let b = s.subrange(i + 1, s.len() as int);
    assert(s == a + seq![c] + b);
    crate::text::lemma_split_concat(a, b, c);
    assert(!a.contains(c)) by {
        if a.contains(c) {
            let k = choose|k: int| 0 <= k < a.len() && a[k] == c;
            assert(s[k] == c);
        }
    }
    crate::text::lemma_split_no_sep(a, c);
}

fn segment_token_exec(seg: &Vec<char>) -> (r: Option<String>)
    ensures
        match (r, segment_token(seg@)) {
            (Some(x), Some(y)) => x@ == y,
            (None, None) => true,
            _ => false,
        },
{
    let t = trim_chars(seg);
    let eq = match first_index(&t, '=') {
        Some(i) => i,
        None => return None,
    };
    proof {
        lemma_split_first_part(t@, '=', eq as int);
    }
    let start: usize = eq + 1;
    let mut name: Vec<char> = Vec::new();
    let mut i: usize = 0;
    while i < eq
        invariant
            eq < t@.len(),
            0 <= i <= eq,
            name@ == t@.subrange(0, i as int),
        decreases eq - i,
    {
        name.push(t[i]);
        assert(t@.subrange(0, i + 1) == t@.subrange(0, i as int).push(t@[i as int]));
        i = i + 1;
    }
    let name = trim_chars(&name);
    let mut value: Vec<char> = Vec::new();
    let mut k: usize = start;
    while k < t.len()
        invariant
            eq + 1 <= k <= t@.len(),
            value@ == t@.subrange(eq + 1, k as int),
        decreases t.len() - k,
    {
        value.push(t[k]);
        assert(t@.subrange(eq + 1, k + 1) == t@.subrange(eq + 1, k as int).push(t@[k as int]));
        k = k + 1;
    }
    let value = trim_chars(&value);
    let cookie = chars_of(COOKIE_NAME);
    if chars_eq(&name, &cookie) {
        Some(string_from_chars(&value))
    } else {
        None
    }
}

/// The session token carried by a `Cookie` header, if any.
pub fn extract_session_token(cookie_header: &str) -> (r: Option<String>)
    ensures
        match (r, cookie_token_spec(cookie_header@)) {
            (Some(x), Some(y)) => x@ == y,
            (None, None) => true,
            _ => false,
        },
{
    let segs = split_chars(&chars_of(cookie_header), ';');
    let ghost sv = split_on(cookie_header@, ';');
    let mut i: usize = 0;
    while i < segs.len()
        invariant
            sv == split_on(cookie_header@, ';'),
            views(segs@) == sv,
            0 <= i <= segs@.len(),
            cookie_token_in(sv, i as int) is None,
        decreases segs.len() - i,
    {
        assert(views(segs@)[i as int] == segs@[i as int]@);
        if let Some(tok) = segment_token_exec(&segs[i]) {
            proof {
                assert(sv[i as int] == segs@[i as int]@);
                assert(segment_token(sv[i as int]) == Some(tok@));
                lemma_cookie_token_found(sv, i as int, sv.len() as int);
            }
            return Some(tok);
        }
        i = i + 1;
    }
    None
}

/// Why a request is refused authentication.
#[derive(Debug, Clone, Copy, PartialEq, Eq, Structural)]
pub enum AuthRejection {
    /// No session cookie.
    Missing,
    /// The token does not verify.
    Invalid,
}

/// Authenticates a request from its `Cookie` header: the claims JSON bytes of
/// a valid session token, or why there are none. An empty session cookie
/// counts as none.
pub fn authenticate(cookie_header: &str, secret: &str) -> (r: Result<Vec<u8>, AuthRejection>)
    ensures
        match cookie_token_spec(cookie_header@) {
            None => r == Err::<Vec<u8>, AuthRejection>(AuthRejection::Missing),
            Some(t) => if t.len() == 0 {
                r == Err::<Vec<u8>, AuthRejection>(AuthRejection::Missing)
            } else { match verify_spec(t, secret@) {
                Some(b) => r matches Ok(v) && v@ == b,
                None => r == Err::<Vec<u8>, AuthRejection>(AuthRejection::Invalid),
            } },
        },
{
    let token = match extract_session_token(cookie_header) {
        Some(t) => t,
        None => return Err(AuthRejection::Missing),
    };
    if token.as_str().unicode_len() == 0 {
        return Err(AuthRejection::Missing);
    }
    match verify_session_token(token.as_str(), secret) {
        Some(b) => Ok(b),
        None => Err(AuthRejection::Invalid),
    }
}

// ---------------------------------------------------------------------------
// Passwords (bcrypt, cost 12)
// ---------------------------------------------------------------------------

/// The bcrypt cost of stored password hashes.
pub const PASSWORD_HASH_COST: u32 = 12;

/// Hashes a password at cost 12 with a random salt; the hash verifies the
/// password and reads `$2b$12$` followed by salt and digest.
pub fn hash_password(plain: &str) -> (r: Result<String, bcrypt::BcryptError>)
    ensures
        r matches Ok(h) ==> bcrypt_check(plain@, h@) == Some(true),
        r matches Ok(h) ==> h@.len() == 60 && h@.subrange(0, 7) == "$2b$12$"@,
{
    let r = bcrypt_hash(plain, PASSWORD_HASH_COST);
    proof {
        reveal_strlit("$2b$12$");
        assert(bcrypt_hash_prefix(PASSWORD_HASH_COST) =~= "$2b$12$"@);
    }
    r
}

/// Checks a password against a bcrypt hash.
pub fn verify_password(plain: &str, hash: &str) -> (r: Result<bool, bcrypt::BcryptError>)
    ensures
        match r {
            Ok(b) => bcrypt_check(plain@, hash@) == Some(b),
            Err(_) => bcrypt_check(plain@, hash@) is None,
        },
{
    bcrypt_verify(plain, hash)
}

// ---------------------------------------------------------------------------
// Signing in and changing passwords
// ---------------------------------------------------------------------------

/// Why signing in or changing a password is refused.
#[derive(Debug, Clone, Copy, PartialEq, Eq, Structural)]
pub enum AccountFailure {
    /// Sign-in without a username or a password.
    MissingCredentials,
    /// Unknown user or wrong password.
    InvalidCredentials,
    /// The new password is empty.
    EmptyNewPassword,
    /// The account behind the session is gone.
    AccountNotFound,
    /// The current password given is wrong.
    WrongCurrentPassword,
    /// The password could not be checked or hashed.
    Internal,
}

impl AccountFailure {
    /// The HTTP status answered.
    pub fn status(&self) -> (r: u16)
        ensures
            r == match self {
                AccountFailure::MissingCredentials => 400u16,
                AccountFailure::InvalidCredentials => 401u16,
                AccountFailure::EmptyNewPassword => 400u16,
                AccountFailure::AccountNotFound => 404u16,
                AccountFailure::WrongCurrentPassword => 400u16,
                AccountFailure::Internal => 500u16,
            },
    {
        match self {
            AccountFailure::MissingCredentials => 400,
            AccountFailure::InvalidCredentials => 401,
            AccountFailure::EmptyNewPassword => 400,
            AccountFailure::AccountNotFound => 404,
            AccountFailure::WrongCurrentPassword => 400,
            AccountFailure::Internal => 500,
        }
    }

    /// The message answered under `error`.
    pub fn message(&self) -> (r: &'static str)
        ensures
            r@ == match self {
                AccountFailure::MissingCredentials => "username and password are required"@,
                AccountFailure::InvalidCredentials => "invalid credentials"@,
                AccountFailure::EmptyNewPassword => "new password must not be empty"@,
                AccountFailure::AccountNotFound => "account not found"@,
                AccountFailure::WrongCurrentPassword => "current password is incorrect"@,
                AccountFailure::Internal => "internal server error"@,
            },
    {
        match self {
            AccountFailure::MissingCredentials => "username and password are required",
            AccountFailure::InvalidCredentials => "invalid credentials",
            AccountFailure::EmptyNewPassword => "new password must not be empty",
            AccountFailure::AccountNotFound => "account not found",
            AccountFailure::WrongCurrentPassword => "current password is incorrect",
            AccountFailure::Internal => "internal server error",
        }
    }
}

/// The login name looked up: the email as typed, trimmed and in lower case.
pub fn login_username(raw: &String) -> (r: String)
    ensures
        r@ == unicode_lower(trimmed(raw@)),
{
    let t = trim_string(raw);
    to_lower(t.as_str())
}

/// Both a username and a password are needed to sign in.
pub fn check_login_input(username: &str, password: &str) -> (r: Result<(), AccountFailure>)
    ensures
        r == if username@.len() == 0 || password@.len() == 0 {
            Err::<(), AccountFailure>(AccountFailure::MissingCredentials)
        } else {
            Ok::<(), AccountFailure>(())
        },
{
    if username.unicode_len() == 0 || password.unicode_len() == 0 {
        Err(AccountFailure::MissingCredentials)
    } else {
        Ok(())
    }
}

/// Signs in with `password` against the stored `hash` of the user found
/// (`None` when no user has that email).
pub fn check_login_password(password: &str, hash: Option<&str>) -> (r: Result<(), AccountFailure>)
    ensures
        match hash {
            None => r == Err::<(), AccountFailure>(AccountFailure::InvalidCredentials),
            Some(h) => r == match bcrypt_check(password@, h@) {
                Some(true) => Ok::<(), AccountFailure>(()),
                Some(false) => Err::<(), AccountFailure>(AccountFailure::InvalidCredentials),
                None => Err::<(), AccountFailure>(AccountFailure::Internal),
            },
        },
{
    match hash {
        None => Err(AccountFailure::InvalidCredentials),
        Some(h) => match verify_password(password, h) {
            Ok(true) => Ok(()),
            Ok(false) => Err(AccountFailure::InvalidCredentials),
            Err(_) => Err(AccountFailure::Internal),
        },
    }
}

/// The claims of a session opened by signing in: the user's id, email as
/// username, role and member ID; a temporary password must be changed first.
pub fn session_claims_for(user_id: String, email: String, role: String, member_id: String, is_temp_password: bool)
    -> (r: SessionClaims)
    ensures
        r.user_id == user_id,
        r.username == email,
        r.role == role,
        r.member_id == Some(member_id),
        r.must_change_password == is_temp_password,
{
    SessionClaims { user_id, username: email, role, member_id: Some(member_id), must_change_password: is_temp_password }
}

/// Checks a password change against the account's stored `hash` (`None`
/// when the account is gone): the new password must not be empty and the
/// current one must match.
pub fn check_password_change(current_password: &str, new_password: &str, hash: Option<&str>) -> (r: Result<(), AccountFailure>)
    ensures
        new_password@.len() == 0 ==> r == Err::<(), AccountFailure>(AccountFailure::EmptyNewPassword),
        new_password@.len() > 0 ==> match hash {
            None => r == Err::<(), AccountFailure>(AccountFailure::AccountNotFound),
            Some(h) => r == match bcrypt_check(current_password@, h@) {
                Some(true) => Ok::<(), AccountFailure>(()),
                Some(false) => Err::<(), AccountFailure>(AccountFailure::WrongCurrentPassword),
                None => Err::<(), AccountFailure>(AccountFailure::Internal),
            },
        },
{
    if new_password.unicode_len() == 0 {
        return Err(AccountFailure::EmptyNewPassword);
    }
    match hash {
        None => Err(AccountFailure::AccountNotFound),
        Some(h) => match verify_password(current_password, h) {
            Ok(true) => Ok(()),
            Ok(false) => Err(AccountFailure::WrongCurrentPassword),
            Err(_) => Err(AccountFailure::Internal),
        },
    }
}

} // verus!
