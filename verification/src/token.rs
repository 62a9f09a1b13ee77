//! Issuing signed, time-bounded access tokens and checking them.
//!
//! A token is valid at a time `T` exactly if the configured secret signed it
//! and it expires after `T`. Nothing else is consulted: no record of issued
//! tokens is kept.

use vstd::prelude::*;
use crate::config::{Configuration, ConfigurationView};
use crate::error::MyError;
use crate::text::{decimal, decimal_string};

verus! {

/// The error type of the `jsonwebtoken` crate.
#[verifier::external_type_specification]
#[verifier::external_body]
pub struct ExJwtError(jsonwebtoken::errors::Error);

/// The token that `jsonwebtoken::encode` makes under the default header
/// (HS256) from a payload of the claims `sub` and `exp`, in this order, with
/// `secret` as the key.
pub uninterp spec fn encoded_token(secret: Seq<u8>, sub: Seq<char>, exp: u64) -> Seq<char>;

/// The claims `sub` (where it is a text) and `exp` (where it is a
/// non-negative whole number) that `jsonwebtoken::decode` reads from `token`
/// with `secret` as the key, the default validation and no check of the
/// expiry; `None` where it refuses the token.
pub uninterp spec fn decoded_claims(secret: Seq<u8>, token: Seq<char>) -> Option<
    (Option<Seq<char>>, Option<u64>),
>;

/// The text that `jsonwebtoken::crypto::sign` returns for `message` under
/// HS256 with `secret` as the key.
pub uninterp spec fn hs256_signature(secret: Seq<u8>, message: Seq<char>) -> Seq<char>;

/// Whether `token` holds exactly two dots, at the places `first` and
/// `second`, which part it in three.
pub open spec fn three_parts(token: Seq<char>, first: int, second: int) -> bool {
    &&& 0 <= first < second < token.len()
    &&& token[first] == '.'
    &&& token[second] == '.'
    &&& forall|k: int| 0 <= k < token.len() && token[k] == '.' ==> k == first || k == second
}

/// Whether `token` holds exactly two dots.
pub open spec fn has_three_parts(token: Seq<char>) -> bool {
    exists|first: int, second: int| three_parts(token, first, second)
}

/// Whether the last dot of `token` stands at `at`.
pub open spec fn is_last_dot(token: Seq<char>, at: int) -> bool {
    &&& 0 <= at < token.len()
    &&& token[at] == '.'
    &&& forall|k: int| at < k < token.len() ==> token[k] != '.'
}

/// The place of the last dot of a token that holds one.
pub open spec fn last_dot(token: Seq<char>) -> int {
    choose|at: int| is_last_dot(token, at)
}

/// What stands before the last dot of `token`: the part that is signed.
pub open spec fn signed_part(token: Seq<char>) -> Seq<char> {
    token.subrange(0, last_dot(token))
}

/// What stands after the last dot of `token`: the signature.
pub open spec fn signature_part(token: Seq<char>) -> Seq<char> {
    token.subrange(last_dot(token) + 1, token.len() as int)
}

/// Whether `token` has three parts of which the last is the signature, with
/// `secret`, of what stands before it.
pub open spec fn is_signed_by(secret: Seq<u8>, token: Seq<char>) -> bool {
    has_three_parts(token) && signature_part(token) == hs256_signature(secret, signed_part(token))
}

/// The claims of a token that `secret` signed; `None` for any other token
/// and for one whose payload cannot be read.
pub open spec fn verified_claims(secret: Seq<u8>, token: Seq<char>) -> Option<
    (Option<Seq<char>>, Option<u64>),
> {
    if is_signed_by(secret, token) {
        decoded_claims(secret, token)
    } else {
        None
    }
}

/// Whether `token` is the token made for `sub` and `exp` with `secret`: it is
/// what encoding gives, `secret` signed it, and decoding reads the same
/// claims back.
pub open spec fn sealed(secret: Seq<u8>, sub: Seq<char>, exp: u64, token: Seq<char>) -> bool {
    &&& encoded_token(secret, sub, exp) == token
    &&& is_signed_by(secret, token)
    &&& decoded_claims(secret, token) == Some((Some(sub), Some(exp)))
}

/// The two claims as they come out of a token, as contracts speak of them.
pub open spec fn raw_view(raw: (Option<String>, Option<u64>)) -> (Option<Seq<char>>, Option<u64>) {
    (
        match raw.0 {
            Some(sub) => Some(sub@),
            None => None,
        },
        raw.1,
    )
}

/// Calls `jsonwebtoken::encode` with the default header, a payload of the
/// two claims `sub` and `exp`, and `secret` as an HMAC key.
///
/// Trusted: under this header and with a key made of a secret the call
/// does not fail; the token is a function of the arguments; it has the
/// three-part form with the HS256 signature last, and decoding it with the
/// same secret gives the same two claims back.
#[verifier::external_body]
fn jwt_encode(secret: &[u8], sub: &str, exp: u64) -> (outcome: Result<
    String,
    jsonwebtoken::errors::Error,
>)
    ensures
        outcome is Ok,
        outcome matches Ok(token) ==> {
            &&& token@ == encoded_token(secret@, sub@, exp)
            &&& has_three_parts(token@)
            &&& signature_part(token@) == hs256_signature(secret@, signed_part(token@))
            &&& decoded_claims(secret@, token@) == Some((Some(sub@), Some(exp)))
        },
{
    let mut payload = serde_json::Map::new();
    payload.insert(String::from("sub"), serde_json::Value::from(sub));
    payload.insert(String::from("exp"), serde_json::Value::from(exp));
    let key = jsonwebtoken::EncodingKey::from_secret(secret);
    jsonwebtoken::encode(&jsonwebtoken::Header::default(), &payload, &key)
}

/// Calls `jsonwebtoken::decode` with `secret` as an HMAC key and the default
/// validation (HS256, `exp` required) with its own check of the expiry
/// against the clock switched off, and picks the two claims out of the
/// payload, each absent where the payload does not hold it in its form: `sub`
/// as a text, `exp` as a non-negative whole number.
///
/// Trusted: the result is a function of the arguments, and only a token of
/// the three-part form whose last part is the HS256 signature of the rest is
/// let through.
#[verifier::external_body]
fn jwt_decode(secret: &[u8], token: &str) -> (outcome: Result<
    (Option<String>, Option<u64>),
    jsonwebtoken::errors::Error,
>)
    ensures
        match outcome {
            Ok(claims) => {
                &&& has_three_parts(token@)
                &&& signature_part(token@) == hs256_signature(secret@, signed_part(token@))
                &&& decoded_claims(secret@, token@) == Some(raw_view(claims))
            },
            Err(_) => decoded_claims(secret@, token@) is None,
        },
{
    let mut validation = jsonwebtoken::Validation::default();
    validation.validate_exp = false;
    let key = jsonwebtoken::DecodingKey::from_secret(secret);
    let payload = jsonwebtoken::decode::<serde_json::Map<String, serde_json::Value>>(
        token,
        &key,
        &validation,
    )?.claims;
    let sub = payload.get("sub").and_then(|value| value.as_str()).map(String::from);
    let exp = payload.get("exp").and_then(|value| value.as_u64());
    Ok((sub, exp))
}

/// Calls `chrono::Utc::now` and takes the time as seconds since the Unix
/// epoch.
///
/// Trusted: the count is not negative. Which moment it is is the clock's.
#[verifier::external_body]
fn unix_time() -> (now: i64)
    ensures
        0 <= now,
{
    chrono::Utc::now().timestamp()
}

/// The signed payload of a token: whose it is and when it expires.
#[derive(Clone, Debug, PartialEq, Eq)]
pub struct Claims {
    /// The subject's id, written in decimal.
    pub sub: String,
    /// The moment of expiry, in seconds since the Unix epoch.
    pub exp: usize,
}

impl View for Claims {
    type V = (Seq<char>, usize);

    open spec fn view(&self) -> (Seq<char>, usize) {
        (self.sub@, self.exp)
    }
}

/// A token as it is handed to the client at sign-in.
#[derive(Clone, Debug, PartialEq, Eq)]
pub struct Token {
    /// The signed, self-contained token text.
    pub token: String,
    /// The moment of expiry, in seconds since the Unix epoch.
    pub expires_at: usize,
}

/// The moment at which a token issued at `now` expires: `now + lifetime`
/// where that is a moment a token can carry, else none.
pub open spec fn expiry(now: i64, lifetime: i64) -> Option<usize> {
    if 0 <= now + lifetime <= usize::MAX {
        Some((now + lifetime) as usize)
    } else {
        None
    }
}

/// Whether a token of this lifetime can carry its expiry at whatever moment
/// from the epoch on it is issued.
pub open spec fn carries_every_expiry(lifetime: i64) -> bool {
    0 <= lifetime && i64::MAX + lifetime <= usize::MAX
}

/// Whether issuing by these settings succeeds at every moment from the
/// epoch on: both are present and the lifetime lets every expiry be carried.
pub open spec fn always_issues(config: ConfigurationView) -> bool {
    &&& config.secret_key is Some
    &&& config.token_lifetime_seconds is Some
    &&& carries_every_expiry(config.token_lifetime_seconds->0)
}

/// Whether `outcome` is what issuing a token for `subject` at the moment
/// `now` comes to.
///
/// With the secret or the lifetime absent, or an expiry that no token can
/// carry, it fails with `InternalError`. Otherwise it succeeds, whatever
/// the subject, with the token made for `subject` and the expiry
/// `now + lifetime`.
pub open spec fn issue_outcome(
    config: ConfigurationView,
    subject: Seq<char>,
    now: i64,
    outcome: Result<Token, MyError>,
) -> bool {
    match (config.secret_key, config.token_lifetime_seconds) {
        (Some(secret), Some(lifetime)) => match expiry(now, lifetime) {
            Some(exp) => {
                &&& outcome matches Ok(token)
                &&& token.expires_at == exp
                &&& sealed(secret, subject, exp as u64, token.token@)
            },
            None => outcome == Err::<Token, MyError>(MyError::InternalError),
        },
        _ => outcome == Err::<Token, MyError>(MyError::InternalError),
    }
}

/// Issues a token for the subject that `subject` names, as of the moment
/// `now`.
pub fn issue_subject_at(config: &Configuration, subject: &str, now: i64) -> (outcome: Result<
    Token,
    MyError,
>)
    ensures
        issue_outcome(config@, subject@, now, outcome),
{
    let secret = match &config.secret_key {
        Some(secret) => secret,
        None => {
            return Err(MyError::InternalError);
        },
    };
    let lifetime = match config.token_lifetime_seconds {
        Some(lifetime) => lifetime,
        None => {
            return Err(MyError::InternalError);
        },
    };
    let sum: i128 = now as i128 + lifetime as i128;
    if sum < 0 || sum > usize::MAX as i128 {
        return Err(MyError::InternalError);
    }
    let expires_at: usize = sum as usize;
    match jwt_encode(secret.as_slice(), subject, expires_at as u64) {
        Ok(token) => Ok(Token { token, expires_at }),
        Err(_) => Err(MyError::InternalError),
    }
}

/// Issues a token for the subject that `subject` names, as of now, by the
/// system's clock. By settings that always issue, it succeeds.
pub fn issue_subject(config: &Configuration, subject: &str) -> (outcome: Result<Token, MyError>)
    ensures
        exists|now: i64| 0 <= now && issue_outcome(config@, subject@, now, outcome),
        always_issues(config@) ==> outcome is Ok,
{
    let now = unix_time();
    let outcome = issue_subject_at(config, subject, now);
    assert(0 <= now && issue_outcome(config@, subject@, now, outcome));
    outcome
}

/// Issues a token for the id `sub`, written in decimal, as of the moment
/// `now`.
pub fn issue_at(config: &Configuration, sub: u32, now: i64) -> (outcome: Result<Token, MyError>)
    ensures
        issue_outcome(config@, decimal(sub as nat), now, outcome),
{
    let subject = decimal_string(sub);
    issue_subject_at(config, subject.as_str(), now)
}

/// Issues a token for the id `sub`, written in decimal, as of now, by the
/// system's clock. By settings that always issue, it succeeds.
pub fn create_token(config: &Configuration, sub: u32) -> (outcome: Result<Token, MyError>)
    ensures
        exists|now: i64| 0 <= now && issue_outcome(config@, decimal(sub as nat), now, outcome),
        always_issues(config@) ==> outcome is Ok,
{
    let subject = decimal_string(sub);
    issue_subject(config, subject.as_str())
}

/// The claims that a token carries for the holder of `secret`: those of a
/// token that `secret` signed and whose payload holds a text `sub` and an
/// expiry `exp` that fits; none for any other token.
pub open spec fn carried_claims(secret: Seq<u8>, token: Seq<char>) -> Option<(Seq<char>, usize)> {
    match verified_claims(secret, token) {
        Some((Some(sub), Some(exp))) => if exp <= usize::MAX {
            Some((sub, exp as usize))
        } else {
            None
        },
        _ => None,
    }
}

/// What reading the claims of `token` comes to: `InternalError` with the
/// secret absent, the carried claims where the token carries any, else
/// `Unauthorized`.
pub open spec fn extracted(config: ConfigurationView, token: Seq<char>) -> Result<
    (Seq<char>, usize),
    MyError,
> {
    match config.secret_key {
        Some(secret) => match carried_claims(secret, token) {
            Some(claims) => Ok(claims),
            None => Err(MyError::Unauthorized),
        },
        None => Err(MyError::InternalError),
    }
}

/// What validating `token` at the moment `now` comes to: as [`extracted`],
/// but claims that do not expire after `now` are `Unauthorized` like any
/// other refusal.
pub open spec fn validated(config: ConfigurationView, token: Seq<char>, now: i64) -> Result<
    (Seq<char>, usize),
    MyError,
> {
    match extracted(config, token) {
        Ok(claims) => if claims.1 > now {
            Ok(claims)
        } else {
            Err(MyError::Unauthorized)
        },
        Err(error) => Err(error),
    }
}

/// The outcome of reading a token as contracts speak of it.
pub open spec fn outcome_view(outcome: Result<Claims, MyError>) -> Result<
    (Seq<char>, usize),
    MyError,
> {
    match outcome {
        Ok(claims) => Ok(claims@),
        Err(error) => Err(error),
    }
}

/// Checks the signature of `token` and reads its claims. The expiry is read
/// and not judged.
pub fn extract_token(config: &Configuration, token: &str) -> (outcome: Result<Claims, MyError>)
    ensures
        outcome_view(outcome) == extracted(config@, token@),
{
    let secret = match &config.secret_key {
        Some(secret) => secret,
        None => {
            return Err(MyError::InternalError);
        },
    };
    match jwt_decode(secret.as_slice(), token) {
        Ok(raw) => match raw {
            (Some(sub), Some(exp)) => if exp <= usize::MAX as u64 {
                Ok(Claims { sub, exp: exp as usize })
            } else {
                Err(MyError::Unauthorized)
            },
            _ => Err(MyError::Unauthorized),
        },
        Err(_) => Err(MyError::Unauthorized),
    }
}

/// Validates `token` as of the moment `now`: its signature, then its expiry.
pub fn validate_at(config: &Configuration, token: &str, now: i64) -> (outcome: Result<
    Claims,
    MyError,
>)
    ensures
        outcome_view(outcome) == validated(config@, token@, now),
{
    match extract_token(config, token) {
        Ok(claims) => if now < 0 || claims.exp as u64 > now as u64 {
            Ok(claims)
        } else {
            Err(MyError::Unauthorized)
        },
        Err(error) => Err(error),
    }
}

/// Validates `token` as of now, by the system's clock.
pub fn validate(config: &Configuration, token: &str) -> (outcome: Result<Claims, MyError>)
    ensures
        exists|now: i64| 0 <= now && outcome_view(outcome) == validated(config@, token@, now),
{
    let now = unix_time();
    let outcome = validate_at(config, token, now);
    assert(0 <= now && outcome_view(outcome) == validated(config@, token@, now));
    outcome
}

/// Whether `token` is valid as of now, by the system's clock.
pub fn valid_jwt_token(config: &Configuration, token: &str) -> (valid: bool)
    ensures
        exists|now: i64| 0 <= now && valid == validated(config@, token@, now) is Ok,
{
    let now = unix_time();
    let outcome = validate_at(config, token, now);
    assert(0 <= now && outcome is Ok == validated(config@, token@, now) is Ok);
    outcome.is_ok()
}

/// The last of the only two dots of a token is its last dot.
proof fn lemma_second_dot_is_last(token: Seq<char>, first: int, second: int)
    requires
        three_parts(token, first, second),
    ensures
        last_dot(token) == second,
{
    assert(is_last_dot(token, second));
    let at = last_dot(token);
    assert(is_last_dot(token, at));
}

/// Issuing with both settings present, at a moment whose expiry a token can
/// carry, succeeds whatever the subject, and the token carries exactly the
/// subject and the expiry `now + lifetime` for the holder of the secret.
pub proof fn law_issued_token_carries_its_claims(
    config: ConfigurationView,
    subject: Seq<char>,
    now: i64,
    outcome: Result<Token, MyError>,
)
    requires
        issue_outcome(config, subject, now, outcome),
        config.secret_key is Some,
        config.token_lifetime_seconds is Some,
        expiry(now, config.token_lifetime_seconds->0) is Some,
    ensures
        outcome matches Ok(token) && token.expires_at == now + config.token_lifetime_seconds->0
            && carried_claims(config.secret_key->0, token.token@) == Some(
            (subject, token.expires_at),
        ),
{
}

/// A token that was issued validates, at every moment before its expiry, to
/// claims whose subject is the one it was issued for and whose expiry is the
/// token's. For a token issued for an id, that subject is the decimal
/// numeral of the id.
pub proof fn law_round_trip(
    config: ConfigurationView,
    subject: Seq<char>,
    issued_at: i64,
    token: Token,
    now: i64,
)
    requires
        issue_outcome(config, subject, issued_at, Ok(token)),
        now < token.expires_at,
    ensures
        validated(config, token.token@, now) == Ok::<(Seq<char>, usize), MyError>(
            (subject, token.expires_at),
        ),
{
}

/// A token that was issued at `issued_at` with a lifetime of `L` seconds is
/// valid at exactly the moments before `issued_at + L`: so at
/// `issued_at + L - 1`, and neither at `issued_at + L` nor at
/// `issued_at + L + 1`. At a moment at which it is not valid, validating it
/// gives `Unauthorized`.
pub proof fn law_expiry_window(
    config: ConfigurationView,
    subject: Seq<char>,
    issued_at: i64,
    token: Token,
    now: i64,
)
    requires
        issue_outcome(config, subject, issued_at, Ok(token)),
    ensures
        config.token_lifetime_seconds is Some,
        validated(config, token.token@, now) is Ok <==> now < issued_at
            + config.token_lifetime_seconds->0,
        now >= issued_at + config.token_lifetime_seconds->0 ==> validated(
            config,
            token.token@,
            now,
        ) == Err::<(Seq<char>, usize), MyError>(MyError::Unauthorized),
{
}

/// A token that was issued is refused once its signature is changed: the
/// text made of the part of the token before its last dot, a dot and
/// anything but the token's own signature validates to `Unauthorized` at
/// every moment.
pub proof fn law_tampered_signature_refused(
    config: ConfigurationView,
    subject: Seq<char>,
    issued_at: i64,
    token: Token,
    signature: Seq<char>,
    now: i64,
)
    requires
        issue_outcome(config, subject, issued_at, Ok(token)),
        signature != signature_part(token.token@),
    ensures
        validated(config, signed_part(token.token@) + seq!['.'] + signature, now) == Err::<
            (Seq<char>, usize),
            MyError,
        >(MyError::Unauthorized),
{
    let secret = config.secret_key->0;
    let genuine = token.token@;
    let forged = signed_part(genuine) + seq!['.'] + signature;
    assert(is_signed_by(secret, genuine));
    let (first, second) = choose|first: int, second: int| three_parts(genuine, first, second);
    lemma_second_dot_is_last(genuine, first, second);
    assert(forged[first] == genuine[first]);
    assert(forged[second] == '.');
    if is_signed_by(secret, forged) {
        let (a, b) = choose|a: int, b: int| three_parts(forged, a, b);
        lemma_second_dot_is_last(forged, a, b);
        assert(b == second);
        assert(signed_part(forged) =~= signed_part(genuine));
        assert(signature_part(forged) =~= signature);
        assert(false);
    }
}

} // verus!
