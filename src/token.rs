//! Issuing and checking the signed, short-lived credential, and the guard
//! that turns an `authorization` header into claims or a rejection message.

use crate::text::{bearer_header, header_token, lemma_bearer_header_token, strip_bearer, untrimmed_free};
use jsonwebtoken::errors::ErrorKind;
use jsonwebtoken::{Algorithm, DecodingKey, EncodingKey, Header, Validation};
use std::collections::BTreeMap;
use vstd::prelude::*;

verus! {

/// Seconds for which an issued token stays valid.
pub const TOKEN_LIFETIME: u64 = 60;

/// What a token says: whose it is and until when (seconds since the epoch)
/// it may be used.
#[derive(Debug, Clone, PartialEq, Eq, Structural)]
pub struct Claims {
    pub subject_id: i32,
    pub exp: u64,
}

/// Claims that passed the guard.
#[derive(Debug, Clone, PartialEq, Eq, Structural)]
pub struct JWT {
    pub claims: Claims,
}

/// Why decoding a token failed, before its claims are looked at.
#[derive(Debug, Clone, PartialEq, Eq)]
pub enum DecodeFailure {
    /// The token does not have the shape of a signed token.
    Malformed,
    /// The signature does not match the secret.
    BadSignature,
    /// Any other failure, with its description.
    Other(String),
}

/// Why a token was not accepted or could not be issued.
#[derive(Debug, Clone, PartialEq, Eq)]
pub enum TokenError {
    /// The current time is not before the token's expiry.
    Expired,
    /// The token is malformed or its signature does not match.
    Invalid,
    /// The expiry of a new token cannot be represented.
    InvalidTimestamp,
    /// Signing a new token failed, with the signer's description.
    Signing(String),
    /// The token lacks a subject or an expiry that fits its type.
    MissingClaims,
    /// Any other decoding failure, with its description.
    Other(String),
}

/// The token that signing `subject_id` and `exp` with `secret` yields.
pub uninterp spec fn signed_token(subject_id: i32, exp: u64, secret: Seq<u8>) -> Seq<char>;

/// The claims that verifying `token` against `secret` yields: the
/// `subject_id` and `exp` fields where present, or why it failed.
pub uninterp spec fn decoded_claims(token: Seq<char>, secret: Seq<u8>) -> Result<
    (Option<i128>, Option<i128>),
    DecodeFailure,
>;

/// Relies on jsonwebtoken::encode with an HS512 header and an HMAC key: the
/// key's family matches the algorithm, the header and the claims map always
/// serialise, and HMAC signing cannot fail, so it succeeds; the token depends
/// on the two claims and the secret alone.
#[verifier::external_body]
fn encode_hs512(subject_id: i32, exp: u64, secret: &[u8]) -> (r: Result<String, String>)
    ensures
        r is Ok,
        r matches Ok(t) ==> t@ == signed_token(subject_id, exp, secret@),
{
    let claims = BTreeMap::from([("subject_id", subject_id as i128), ("exp", exp as i128)]);
    let key = EncodingKey::from_secret(secret);
    jsonwebtoken::encode(&Header::new(Algorithm::HS512), &claims, &key).map_err(|e| e.to_string())
}

/// Relies on jsonwebtoken::decode with HS512: it checks the signature and that
/// `exp` is present, and, with `validate_exp` off, does not read the clock,
/// so its outcome depends on the token and the secret alone.
#[verifier::external_body]
fn decode_hs512(token: &str, secret: &[u8]) -> (r: Result<(Option<i128>, Option<i128>), DecodeFailure>)
    ensures
        r == decoded_claims(token@, secret@),
{
    let mut validation = Validation::new(Algorithm::HS512);
    validation.validate_exp = false;
    let key = DecodingKey::from_secret(secret);
    match jsonwebtoken::decode::<BTreeMap<String, i128>>(token, &key, &validation) {
        Ok(d) => Ok((d.claims.get("subject_id").copied(), d.claims.get("exp").copied())),
        Err(e) => Err(match e.kind() {
            ErrorKind::InvalidToken => DecodeFailure::Malformed,
            ErrorKind::InvalidSignature => DecodeFailure::BadSignature,
            _ => DecodeFailure::Other(e.to_string()),
        }),
    }
}

/// Relies on chrono::Utc::now: the current time in whole seconds since the
/// epoch. It stops rather than return a time before the epoch, so the value is
/// never negative; nothing more is known of it.
#[verifier::external_body]
fn now_timestamp() -> (r: i64)
    ensures
        r >= 0,
{
    chrono::Utc::now().timestamp()
}

/// Whether a token issued at `now` has a representable expiry.
pub open spec fn expiry_in_range(now: i64) -> bool {
    0 <= now + TOKEN_LIFETIME <= u64::MAX
}

/// The claims of a token issued for `subject_id` at `now`.
pub open spec fn issued_claims(subject_id: i32, now: i64) -> Claims {
    Claims { subject_id, exp: (now + TOKEN_LIFETIME) as u64 }
}

/// The claims of a token issued for `id` at time `now`.
pub fn claims_at(id: i32, now: i64) -> (r: Result<Claims, TokenError>)
    ensures
        expiry_in_range(now) ==> r == Ok::<Claims, TokenError>(issued_claims(id, now)),
        !expiry_in_range(now) ==> r == Err::<Claims, TokenError>(TokenError::InvalidTimestamp),
{
    let exp = now as i128 + TOKEN_LIFETIME as i128;
    if exp < 0 {
        Err(TokenError::InvalidTimestamp)
    } else {
        let exp = exp as u64;
        Ok(Claims { subject_id: id, exp })
    }
}

/// Issues a token for `id` at time `now`, signed with `secret`.
pub fn create_jwt_at(id: i32, now: i64, secret: &[u8]) -> (r: Result<String, TokenError>)
    ensures
        !expiry_in_range(now) ==> r == Err::<String, TokenError>(TokenError::InvalidTimestamp),
        expiry_in_range(now) ==> (r matches Ok(t) && t@ == signed_token(
            id,
            issued_claims(id, now).exp,
            secret@,
        )),
{
    match claims_at(id, now) {
        Err(e) => Err(e),
        Ok(c) => match encode_hs512(c.subject_id, c.exp, secret) {
            Ok(t) => Ok(t),
            Err(m) => Err(TokenError::Signing(m)),
        },
    }
}

/// Issues a token for `id`, valid for the next minute, signed with `secret`.
pub fn create_jwt(id: i32, secret: &[u8]) -> (r: Result<String, TokenError>)
    ensures
        r matches Ok(t) && exists|now: i64|
            0 <= now && t@ == signed_token(id, #[trigger] issued_claims(id, now).exp, secret@),
{
    let now = now_timestamp();
    create_jwt_at(id, now, secret)
}

/// What the claims check makes of a decoding outcome at time `now`.
pub open spec fn claims_outcome(
    decoded: Result<(Option<i128>, Option<i128>), DecodeFailure>,
    now: u64,
) -> Result<Claims, TokenError> {
    match decoded {
        Err(DecodeFailure::Malformed) => Err(TokenError::Invalid),
        Err(DecodeFailure::BadSignature) => Err(TokenError::Invalid),
        Err(DecodeFailure::Other(m)) => Err(TokenError::Other(m)),
        Ok((Some(sid), Some(exp))) => {
            if i32::MIN <= sid <= i32::MAX && 0 <= exp <= u64::MAX {
                if now < exp {
                    Ok(Claims { subject_id: sid as i32, exp: exp as u64 })
                } else {
                    Err(TokenError::Expired)
                }
            } else {
                Err(TokenError::MissingClaims)
            }
        },
        Ok(_) => Err(TokenError::MissingClaims),
    }
}

/// Checks a decoding outcome at time `now`: a bad shape or signature makes the
/// token invalid, and claims are accepted only strictly before their expiry.
pub fn check_claims(decoded: Result<(Option<i128>, Option<i128>), DecodeFailure>, now: u64) -> (r:
    Result<Claims, TokenError>)
    ensures
        r == claims_outcome(decoded, now),
{
    match decoded {
        Err(DecodeFailure::Malformed) => Err(TokenError::Invalid),
        Err(DecodeFailure::BadSignature) => Err(TokenError::Invalid),
        Err(DecodeFailure::Other(m)) => Err(TokenError::Other(m)),
        Ok((Some(sid), Some(exp))) => {
            if i32::MIN as i128 <= sid && sid <= i32::MAX as i128 && 0 <= exp && exp
                <= u64::MAX as i128 {
                if (now as i128) < exp {
                    Ok(Claims { subject_id: sid as i32, exp: exp as u64 })
                } else {
                    Err(TokenError::Expired)
                }
            } else {
                Err(TokenError::MissingClaims)
            }
        },
        Ok(_) => Err(TokenError::MissingClaims),
    }
}

/// Verifies `token` against `secret` and checks its claims at time `now`.
pub fn validate_token(token: &str, secret: &[u8], now: u64) -> (r: Result<Claims, TokenError>)
    ensures
        r == claims_outcome(decoded_claims(token@, secret@), now),
{
    let decoded = decode_hs512(token, secret);
    check_claims(decoded, now)
}

/// The text that every rejection message of the guard starts with.
pub open spec fn rejection_prefix() -> Seq<char> {
    "Error validating JWT token - "@
}

/// The guard's message for a header that is absent.
pub open spec fn no_token_message() -> Seq<char> {
    "Error validating JWT token - No token provided"@
}

/// The guard's message for a token that was not accepted.
pub open spec fn rejection_message(e: TokenError) -> Seq<char> {
    match e {
        TokenError::Expired => "Error validating JWT token - Expired Token"@,
        TokenError::Invalid => "Error validating JWT token - Invalid Token"@,
        TokenError::InvalidTimestamp => "Error validating JWT token - Invalid timestamp"@,
        TokenError::Signing(m) => rejection_prefix() + m@,
        TokenError::MissingClaims => "Error validating JWT token - Missing claims"@,
        TokenError::Other(m) => rejection_prefix() + m@,
    }
}

/// The guard's message for a token that was not accepted.
pub fn rejection_text(e: TokenError) -> (r: String)
    ensures
        r@ == rejection_message(e),
{
    match e {
        TokenError::Expired => String::from_str("Error validating JWT token - Expired Token"),
        TokenError::Invalid => String::from_str("Error validating JWT token - Invalid Token"),
        TokenError::InvalidTimestamp => String::from_str(
            "Error validating JWT token - Invalid timestamp",
        ),
        TokenError::MissingClaims => String::from_str(
            "Error validating JWT token - Missing claims",
        ),
        TokenError::Signing(m) => String::from_str("Error validating JWT token - ").concat(
            m.as_str(),
        ),
        TokenError::Other(m) => String::from_str("Error validating JWT token - ").concat(
            m.as_str(),
        ),
    }
}

/// What the guard makes of an optional header value at time `now`: the
/// claims, or the message of the rejection.
pub open spec fn guard_outcome(header: Option<Seq<char>>, secret: Seq<u8>, now: u64) -> Result<
    JWT,
    Seq<char>,
> {
    match header {
        None => Err(no_token_message()),
        Some(h) => match claims_outcome(decoded_claims(header_token(h), secret), now) {
            Ok(claims) => Ok(JWT { claims }),
            Err(e) => Err(rejection_message(e)),
        },
    }
}

/// The view of a guard result: the claims, or the message as characters.
pub open spec fn guard_view(r: Result<JWT, String>) -> Result<JWT, Seq<char>> {
    match r {
        Ok(j) => Ok(j),
        Err(m) => Err(m@),
    }
}

/// The characters of an optional header value.
pub open spec fn header_view(header: Option<&str>) -> Option<Seq<char>> {
    match header {
        Some(h) => Some(h@),
        None => None,
    }
}

/// The guard of protected routes at time `now`: an absent header is rejected,
/// otherwise the token after an optional `Bearer` is verified and its claims
/// checked.
pub fn authorize(header: Option<&str>, secret: &[u8], now: u64) -> (r: Result<JWT, String>)
    ensures
        guard_view(r) == guard_outcome(
            header_view(header),
            secret@,
            now,
        ),
{
    match header {
        None => Err(String::from_str("Error validating JWT token - No token provided")),
        Some(h) => {
            let token = strip_bearer(h);
            match validate_token(token.as_str(), secret, now) {
                Ok(claims) => Ok(JWT { claims }),
                Err(e) => Err(rejection_text(e)),
            }
        },
    }
}

/// The guard at the current time, read from the clock.
pub fn authorize_now(header: Option<&str>, secret: &[u8]) -> (r: Result<JWT, String>)
    ensures
        exists|now: u64|
            guard_view(r) == #[trigger] guard_outcome(
                header_view(header),
                secret@,
                now,
            ),
{
    let now = now_timestamp();
    authorize(header, secret, now as u64)
}

/// A valid token, one that decodes to the claims it was issued with at
/// `issued_at`, sent as `Bearer <token>`, is accepted by the guard while fewer
/// than `TOKEN_LIFETIME` seconds have passed since, and rejected as expired
/// from then on.
pub proof fn lemma_token_lifetime(
    token: Seq<char>,
    secret: Seq<u8>,
    subject_id: i32,
    issued_at: i64,
    now: u64,
)
    requires
        untrimmed_free(token),
        expiry_in_range(issued_at),
        decoded_claims(token, secret) == Ok::<_, DecodeFailure>(
            (
                Some(subject_id as i128),
                Some(issued_claims(subject_id, issued_at).exp as i128),
            ),
        ),
    ensures
        now < issued_at + TOKEN_LIFETIME ==> guard_outcome(Some(bearer_header(token)), secret, now)
            == Ok::<JWT, Seq<char>>(JWT { claims: issued_claims(subject_id, issued_at) }),
        now >= issued_at + TOKEN_LIFETIME ==> guard_outcome(
            Some(bearer_header(token)),
            secret,
            now,
        ) == Err::<JWT, Seq<char>>("Error validating JWT token - Expired Token"@),
{
    lemma_bearer_header_token(token);
}

/// A token whose signature does not match the secret is rejected as invalid,
/// whatever the time.
pub proof fn lemma_bad_signature_rejected(header: Seq<char>, secret: Seq<u8>, now: u64)
    requires
        decoded_claims(header_token(header), secret) == Err::<(Option<i128>, Option<i128>), _>(
            DecodeFailure::BadSignature,
        ),
    ensures
        guard_outcome(Some(header), secret, now) == Err::<JWT, Seq<char>>(
            "Error validating JWT token - Invalid Token"@,
        ),
{
}

} // verus!
