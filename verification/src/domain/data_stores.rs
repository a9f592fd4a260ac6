//! Store abstractions and the value types tied to a two-factor challenge.
//!
//! Three independent capability interfaces — user records, revoked-token
//! membership, pending two-factor challenges — each stated over an abstract
//! view of its contents, so that any backend satisfying the contract can
//! stand behind it. The two generated value types, `LoginAttemptId` and
//! `TwoFACode`, live here as well.

use vstd::prelude::*;

use crate::domain::email::Email;
use crate::domain::password::Password;
use crate::domain::user::User;

verus! {

/// Failure of a user-record store operation.
#[derive(Debug, Clone, Copy, PartialEq, Eq, Structural)]
pub enum UserStoreError {
    UserAlreadyExists,
    UserNotFound,
    InvalidCredentials,
    UnexpectedError,
}

/// A store of registered users.
///
/// Its abstract contents map each registered identity to the stored
/// credential and the two-factor flag. What "the stored credential accepts
/// a candidate secret" means is the backend's choice: a reference store may
/// compare the secret itself, a production store a salted hash of it.
pub trait UserStore {
    /// The abstract contents of the store.
    spec fn users(&self) -> Map<Seq<char>, (Seq<char>, bool)>;

    /// Whether this backend is free of failures outside the business
    /// outcomes: when it holds, no method below ever answers
    /// `UnexpectedError`. An in-memory store can promise it; one behind a
    /// network or a random salt cannot.
    spec fn reliable() -> bool;

    /// Whether a stored credential accepts a candidate secret.
    spec fn credential_accepts(stored: Seq<char>, candidate: Seq<char>) -> bool;

    /// Well-formedness of the store.
    spec fn inv(&self) -> bool;

    /// Registers a user; fails on a duplicate identity. A failed call
    /// leaves the contents unchanged.
    fn add_user(&mut self, user: User) -> (r: Result<(), UserStoreError>)
        requires
            old(self).inv(),
        ensures
            final(self).inv(),
            r matches Ok(()) ==> !old(self).users().contains_key(user.email@)
                && (exists|cred: Seq<char>|
                Self::credential_accepts(cred, user.password@) && final(self).users()
                    == old(self).users().insert(user.email@, (cred, user.requires_2fa))),
            r matches Err(UserStoreError::UserAlreadyExists) ==> old(self).users().contains_key(
                user.email@,
            ),
            r is Err ==> final(self).users() == old(self).users(),
            r matches Err(e) ==> e == UserStoreError::UserAlreadyExists
                || e == UserStoreError::UnexpectedError,
            Self::reliable() ==> !(r matches Err(UserStoreError::UnexpectedError)),
    ;

    /// Looks a user up by identity.
    fn get_user(&self, email: &Email) -> (r: Result<User, UserStoreError>)
        requires
            self.inv(),
        ensures
            r matches Ok(u) ==> self.users().contains_key(email@) && u.email@ == email@
                && self.users()[email@] == (u.password@, u.requires_2fa),
            r matches Err(UserStoreError::UserNotFound) ==> !self.users().contains_key(email@),
            r matches Err(e) ==> e == UserStoreError::UserNotFound
                || e == UserStoreError::UnexpectedError,
            Self::reliable() ==> !(r matches Err(UserStoreError::UnexpectedError)),
    ;

    /// Checks a candidate secret against the stored credential. Succeeds
    /// only when the identity is registered and the credential accepts the
    /// secret; the two failure causes are reported apart here and must be
    /// collapsed before they reach a caller of the core.
    fn verify_user(&self, email: &Email, password: &Password) -> (r: Result<(), UserStoreError>)
        requires
            self.inv(),
        ensures
            r matches Ok(()) ==> self.users().contains_key(email@) && Self::credential_accepts(
                self.users()[email@].0,
                password@,
            ),
            r matches Err(UserStoreError::UserNotFound) ==> !self.users().contains_key(email@),
            r matches Err(UserStoreError::InvalidCredentials) ==> self.users().contains_key(email@)
                && !Self::credential_accepts(self.users()[email@].0, password@),
            r matches Err(e) ==> e == UserStoreError::UserNotFound
                || e == UserStoreError::InvalidCredentials || e == UserStoreError::UnexpectedError,
            Self::reliable() ==> !(r matches Err(UserStoreError::UnexpectedError)),
    ;
}

/// Failure of a revoked-token store operation.
#[derive(Debug, Clone, Copy, PartialEq, Eq, Structural)]
pub enum BannedTokenStoreError {
    TokenAlreadyExists,
    TokenNotFound,
    InvalidToken,
    UnexpectedError,
}

/// A store of revoked session tokens.
///
/// Its abstract contents are the set of token strings revoked so far.
/// Absence means "not revoked", not "valid": validity is decided by the
/// token codec, which consults this store first.
pub trait BannedTokenStore {
    /// The set of revoked token strings.
    spec fn tokens(&self) -> Set<Seq<char>>;

    /// Whether this backend is free of failures outside the business
    /// outcomes: when it holds, membership queries always answer and no
    /// method yields `UnexpectedError`.
    spec fn reliable() -> bool;

    /// Well-formedness of the store.
    spec fn inv(&self) -> bool;

    /// Records a token as revoked. A failed call leaves the contents
    /// unchanged.
    fn add_token(&mut self, token: String) -> (r: Result<(), BannedTokenStoreError>)
        requires
            old(self).inv(),
        ensures
            final(self).inv(),
            r matches Ok(()) ==> final(self).tokens() == old(self).tokens().insert(token@),
            r is Err ==> final(self).tokens() == old(self).tokens(),
            Self::reliable() ==> !(r matches Err(BannedTokenStoreError::UnexpectedError)),
            Self::reliable() && token@.len() > 0 && !old(self).tokens().contains(token@) ==> r is Ok,
    ;

    /// Whether a token has been revoked.
    fn verify_token_exists(&self, token: &str) -> (r: Result<bool, BannedTokenStoreError>)
        requires
            self.inv(),
        ensures
            r matches Ok(b) ==> b == self.tokens().contains(token@),
            Self::reliable() ==> r is Ok,
    ;
}

/// Failure of a pending-challenge store operation.
#[derive(Debug, Clone, Copy, PartialEq, Eq, Structural)]
pub enum TwoFACodeStoreError {
    LoginAttemptIdNotFound,
    UnexpectedError,
}

/// A store of pending two-factor challenges.
///
/// Its abstract contents map each identity to at most one pending
/// `(login attempt id, code)` pair: storing a new challenge for an identity
/// overwrites any prior one, so only the most recent login attempt's code
/// can verify.
pub trait TwoFACodeStore {
    /// The pending challenge of each identity.
    spec fn codes(&self) -> Map<Seq<char>, (Seq<char>, Seq<char>)>;

    /// Whether this backend is free of failures outside the business
    /// outcomes: when it holds, storing always succeeds and no method
    /// yields `UnexpectedError`.
    spec fn reliable() -> bool;

    /// Well-formedness of the store.
    spec fn inv(&self) -> bool;

    /// Records a pending challenge, overwriting any prior one for this
    /// identity. A failed call leaves the contents unchanged.
    fn add_code(&mut self, email: Email, login_attempt_id: LoginAttemptId, code: TwoFACode) -> (r:
        Result<(), TwoFACodeStoreError>)
        requires
            old(self).inv(),
        ensures
            final(self).inv(),
            r matches Ok(()) ==> final(self).codes() == old(self).codes().insert(
                email@,
                (login_attempt_id@, code@),
            ),
            r is Err ==> final(self).codes() == old(self).codes(),
            r matches Err(e) ==> e == TwoFACodeStoreError::UnexpectedError,
            Self::reliable() ==> r is Ok,
    ;

    /// Deletes the pending challenge of an identity; fails when none is
    /// pending. A failed call leaves the contents unchanged.
    fn remove_code(&mut self, email: &Email) -> (r: Result<(), TwoFACodeStoreError>)
        requires
            old(self).inv(),
        ensures
            final(self).inv(),
            r matches Ok(()) ==> old(self).codes().contains_key(email@) && final(self).codes()
                == old(self).codes().remove(email@),
            r matches Err(TwoFACodeStoreError::LoginAttemptIdNotFound) ==> !old(
                self,
            ).codes().contains_key(email@),
            r is Err ==> final(self).codes() == old(self).codes(),
            Self::reliable() ==> !(r matches Err(TwoFACodeStoreError::UnexpectedError)),
    ;

    /// Reads the pending challenge of an identity without consuming it.
    fn get_code(&self, email: &Email) -> (r: Result<
        (LoginAttemptId, TwoFACode),
        TwoFACodeStoreError,
    >)
        requires
            self.inv(),
        ensures
            r matches Ok(p) ==> self.codes().contains_key(email@) && self.codes()[email@] == (
                p.0@,
                p.1@,
            ),
            r matches Err(TwoFACodeStoreError::LoginAttemptIdNotFound) ==> !self.codes().contains_key(
                email@,
            ),
            Self::reliable() ==> !(r matches Err(TwoFACodeStoreError::UnexpectedError)),
    ;
}

/// The canonical textual form of a login-attempt identifier string, if the
/// string names one.
pub uninterp spec fn uuid_canonical(s: Seq<char>) -> Option<Seq<char>>;

/// Relies on `uuid::Uuid::parse_str` and the `Display` form of `uuid::Uuid`:
/// both are deterministic in the input, and formatting an accepted
/// identifier yields its canonical (hyphenated) form, which parses back to
/// itself.
#[verifier::external_body]
fn uuid_parse(id: &str) -> (r: Option<String>)
    ensures
        r matches Some(c) ==> uuid_canonical(id@) == Some(c@) && uuid_canonical(c@) == Some(c@),
        r is None ==> uuid_canonical(id@) is None,
{
    match uuid::Uuid::parse_str(id) {
        Ok(u) => Some(u.to_string()),
        Err(_) => None,
    }
}

/// Relies on `uuid::Uuid::new_v4`: a fresh random identifier whose
/// hyphenated textual form is canonical, so it parses back to itself.
#[verifier::external_body]
fn uuid_generate() -> (r: String)
    ensures
        uuid_canonical(r@) == Some(r@),
{
    uuid::Uuid::new_v4().to_string()
}

/// An attempt-identifier string is valid when it is in canonical form.
pub open spec fn valid_login_attempt_id(s: Seq<char>) -> bool {
    uuid_canonical(s) == Some(s)
}

/// An opaque, unguessable identifier correlating a login attempt's
/// two-factor challenge with the client's later verification call.
/// Generated fresh for every login attempt that requires a second factor.
#[derive(Debug)]
pub struct LoginAttemptId(String);

impl LoginAttemptId {
    /// The characters of the identifier, always in canonical form.
    pub closed spec fn view(&self) -> Seq<char> {
        self.0@
    }

    /// The invariant every `LoginAttemptId` satisfies.
    pub open spec fn is_valid(&self) -> bool {
        valid_login_attempt_id(self@)
    }

    /// Validates an identifier from untrusted input: succeeds exactly on
    /// strings naming an identifier, normalised to canonical form.
    pub fn parse(id: String) -> (r: Result<LoginAttemptId, String>)
        ensures
            r is Ok <==> uuid_canonical(id@) is Some,
            r matches Ok(l) ==> Some(l@) == uuid_canonical(id@) && l.is_valid(),
            r matches Err(e) ==> e@ == "Failed to parse uuid"@,
    {
        match uuid_parse(id.as_str()) {
            Some(canonical) => Ok(LoginAttemptId(canonical)),
            None => Err("Failed to parse uuid".to_owned()),
        }
    }

    /// The canonical identifier string.
    pub fn as_ref(&self) -> (r: &str)
        ensures
            r@ == self@,
    {
        self.0.as_str()
    }
}

impl Default for LoginAttemptId {
    /// A fresh random attempt identifier.
    fn default() -> (r: Self)
        ensures
            r.is_valid(),
    {
        LoginAttemptId(uuid_generate())
    }
}

impl Clone for LoginAttemptId {
    /// A clone carries the same identifier.
    fn clone(&self) -> (r: Self)
        ensures
            r == *self,
    {
        LoginAttemptId(self.0.clone())
    }
}

impl PartialEq for LoginAttemptId {
    /// Identifiers compare by their canonical characters.
    fn eq(&self, other: &Self) -> (r: bool) {
        self.0 == other.0
    }
}

impl vstd::std_specs::cmp::PartialEqSpecImpl for LoginAttemptId {
    open spec fn obeys_eq_spec() -> bool {
        true
    }

    open spec fn eq_spec(&self, other: &Self) -> bool {
        self@ == other@
    }
}

impl Eq for LoginAttemptId {}

/// Whether `c` is a decimal digit.
pub open spec fn is_digit_char(c: char) -> bool {
    '0' as int <= c as int && c as int <= '9' as int
}

/// Whether `s` consists of exactly six decimal digits.
pub open spec fn two_fa_digits(s: Seq<char>) -> bool {
    s.len() == 6 && forall|i: int| 0 <= i < s.len() ==> is_digit_char(#[trigger] s[i])
}

/// The numeric value of a six-digit string.
pub open spec fn two_fa_value(s: Seq<char>) -> int
    recommends
        two_fa_digits(s),
{
    (s[0] as int - '0' as int) * 100000 + (s[1] as int - '0' as int) * 10000 + (s[2] as int
        - '0' as int) * 1000 + (s[3] as int - '0' as int) * 100 + (s[4] as int - '0' as int) * 10 + (
    s[5] as int - '0' as int)
}

/// A code string is valid when it is six decimal digits whose value lies in
/// [100000, 999999].
pub open spec fn valid_two_fa_code(s: Seq<char>) -> bool {
    two_fa_digits(s) && 100000 <= two_fa_value(s) <= 999999
}

/// The digit value of `c`, if `c` is a decimal digit.
fn char_digit(c: char) -> (r: Option<u32>)
    ensures
        r matches Some(d) ==> is_digit_char(c) && d == c as int - '0' as int,
        r is None ==> !is_digit_char(c),
{
    let v = c as u32;
    if 48 <= v && v <= 57 {
        Some(v - 48)
    } else {
        None
    }
}

/// The one-character string of a digit.
fn digit_str(d: u32) -> (r: &'static str)
    requires
        d < 10,
    ensures
        r@.len() == 1,
        r@[0] as int == '0' as int + d,
{
    proof {
        reveal_strlit("0");
        reveal_strlit("1");
        reveal_strlit("2");
        reveal_strlit("3");
        reveal_strlit("4");
        reveal_strlit("5");
        reveal_strlit("6");
        reveal_strlit("7");
        reveal_strlit("8");
        reveal_strlit("9");
    }
    match d {
        0 => "0",
        1 => "1",
        2 => "2",
        3 => "3",
        4 => "4",
        5 => "5",
        6 => "6",
        7 => "7",
        8 => "8",
        _ => "9",
    }
}

/// Relies on `rand::random_range` over `lo..hi`: a value drawn from the
/// half-open range, from a source unpredictable enough for short-lived
/// one-time codes.
#[verifier::external_body]
fn random_in_range(lo: u32, hi: u32) -> (r: u32)
    requires
        lo < hi,
    ensures
        lo <= r < hi,
{
    rand::random_range(lo..hi)
}

/// A one-time two-factor code: six decimal digits in [100000, 999999],
/// generated fresh per challenge.
#[derive(Debug)]
pub struct TwoFACode(String);

impl TwoFACode {
    /// The characters of the code.
    pub closed spec fn view(&self) -> Seq<char> {
        self.0@
    }

    /// The invariant every `TwoFACode` satisfies.
    pub open spec fn is_valid(&self) -> bool {
        valid_two_fa_code(self@)
    }

    /// Validates a code from untrusted input: succeeds exactly on strings
    /// of six decimal digits whose value lies in [100000, 999999], and
    /// returns the code unchanged.
    pub fn parse(code: String) -> (r: Result<TwoFACode, String>)
        ensures
            r is Ok <==> valid_two_fa_code(code@),
            r matches Ok(c) ==> c@ == code@ && c.is_valid(),
    {
        let s = code.as_str();
        if s.unicode_len() != 6 {
            return Err("Failed to parse code".to_owned());
        }
        let d0 = char_digit(s.get_char(0));
        let d1 = char_digit(s.get_char(1));
        let d2 = char_digit(s.get_char(2));
        let d3 = char_digit(s.get_char(3));
        let d4 = char_digit(s.get_char(4));
        let d5 = char_digit(s.get_char(5));
        match (d0, d1, d2, d3, d4, d5) {
            (Some(v0), Some(v1), Some(v2), Some(v3), Some(v4), Some(v5)) => {
                let value = v0 * 100000 + v1 * 10000 + v2 * 1000 + v3 * 100 + v4 * 10 + v5;
                if 100000 <= value && value <= 999999 {
                    Ok(TwoFACode(code))
                } else {
                    Err("Invalid 2FA code".to_owned())
                }
            },
            _ => Err("Failed to parse code".to_owned()),
        }
    }

    /// The code string.
    pub fn as_ref(&self) -> (r: &str)
        ensures
            r@ == self@,
    {
        self.0.as_str()
    }
}

impl Default for TwoFACode {
    /// A fresh random six-digit code.
    fn default() -> (r: Self)
        ensures
            r.is_valid(),
    {
        let d0 = random_in_range(1, 10);
        let d1 = random_in_range(0, 10);
        let d2 = random_in_range(0, 10);
        let d3 = random_in_range(0, 10);
        let d4 = random_in_range(0, 10);
        let d5 = random_in_range(0, 10);
        let mut s = String::new();
        s.append(digit_str(d0));
        s.append(digit_str(d1));
        s.append(digit_str(d2));
        s.append(digit_str(d3));
        s.append(digit_str(d4));
        s.append(digit_str(d5));
        let code = TwoFACode(s);
        proof {
            assert(two_fa_digits(code@));
            assert(100000 <= two_fa_value(code@) <= 999999);
        }
        code
    }
}

impl Clone for TwoFACode {
    /// A clone carries the same code.
    fn clone(&self) -> (r: Self)
        ensures
            r == *self,
    {
        TwoFACode(self.0.clone())
    }
}

impl PartialEq for TwoFACode {
    /// Codes compare by exact, case-preserving string equality.
    fn eq(&self, other: &Self) -> (r: bool) {
        self.0 == other.0
    }
}

impl vstd::std_specs::cmp::PartialEqSpecImpl for TwoFACode {
    open spec fn obeys_eq_spec() -> bool {
        true
    }

    open spec fn eq_spec(&self, other: &Self) -> bool {
        self@ == other@
    }
}

impl Eq for TwoFACode {}

} // verus!
