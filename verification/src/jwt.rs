//! Token codec: signed claims (subject and expiry) under a shared secret.

use crate::clock::unix_time_now;
use crate::status::{SERVER_ERROR, UNAUTHORIZED};
use vstd::prelude::*;

verus! {

/// Seconds a token stays valid after it was issued: 24 hours.
pub const TOKEN_VALIDITY_SECS: i64 = 86_400;

/// Why a token was not issued or not accepted.
#[derive(Clone, Copy, Debug, PartialEq, Eq, Structural)]
pub enum JwtFault {
    /// The signature does not match the secret.
    Signature,
    /// The token, or its claims, cannot be parsed.
    Malformed,
    /// The expiry lies at or before the time of verification.
    Expired,
    /// The time of issuance has no expiry that the claims can hold.
    Clock,
    /// The encoder failed.
    Encoding,
}

/// A token error; the cause is for logs, never for the client.
#[derive(Clone, Copy, Debug, PartialEq, Eq, Structural)]
pub struct JwtError(pub JwtFault);

impl JwtError {
    /// Whether the error refuses a token, rather than fails to issue one.
    pub open spec fn is_refusal(&self) -> bool {
        self.0 is Signature || self.0 is Malformed || self.0 is Expired
    }

    /// The status shown to the client: a refused token is unauthorized,
    /// whatever the cause; a token that could not be issued is a failure of
    /// the server.
    pub fn status(&self) -> (code: u16)
        ensures
            code == (if self.is_refusal() {
                UNAUTHORIZED
            } else {
                SERVER_ERROR
            }),
    {
        match self.0 {
            JwtFault::Signature | JwtFault::Malformed | JwtFault::Expired => UNAUTHORIZED,
            JwtFault::Clock | JwtFault::Encoding => SERVER_ERROR,
        }
    }
}

/// What a token authenticates: the subject, and the instant (seconds since
/// the Unix epoch) from which the token is no longer accepted.
#[derive(Debug)]
pub struct Claims {
    pub sub: String,
    pub exp: usize,
}

/// The mathematical content of [`Claims`].
pub struct ClaimsView {
    pub sub: Seq<char>,
    pub exp: nat,
}

impl View for Claims {
    type V = ClaimsView;

    open spec fn view(&self) -> ClaimsView {
        ClaimsView { sub: self.sub@, exp: self.exp as nat }
    }
}

/// The claims found in a token whose signature matched; either may be
/// missing or of the wrong type.
pub struct Payload {
    pub sub: Option<String>,
    pub exp: Option<u64>,
}

/// The mathematical content of a [`Payload`].
pub struct PayloadView {
    pub sub: Option<Seq<char>>,
    pub exp: Option<u64>,
}

impl View for Payload {
    type V = PayloadView;

    open spec fn view(&self) -> PayloadView {
        PayloadView {
            sub: match self.sub {
                Some(s) => Some(s@),
                None => None,
            },
            exp: self.exp,
        }
    }
}

/// The expiry of a token issued at `issued_at`.
pub open spec fn expiry_of(issued_at: int) -> int {
    issued_at + TOKEN_VALIDITY_SECS
}

/// Whether a token can be issued at `now`: the instant is not before the
/// epoch and its expiry fits the claims.
pub open spec fn can_issue_at(now: int) -> bool {
    0 <= now && expiry_of(now) <= usize::MAX
}

/// The outcome of checking a decoded payload at `now`: both claims must be
/// there, the expiry must fit, and it must lie after `now`.
pub open spec fn checked_claims(payload: PayloadView, now: int) -> Result<ClaimsView, JwtError> {
    match (payload.sub, payload.exp) {
        (Some(sub), Some(exp)) => {
            if exp > usize::MAX {
                Err(JwtError(JwtFault::Malformed))
            } else if exp <= now {
                Err(JwtError(JwtFault::Expired))
            } else {
                Ok(ClaimsView { sub, exp: exp as nat })
            }
        },
        _ => Err(JwtError(JwtFault::Malformed)),
    }
}

/// The view of a verification result.
pub open spec fn claims_result_view(r: Result<Claims, JwtError>) -> Result<ClaimsView, JwtError> {
    match r {
        Ok(c) => Ok(c@),
        Err(e) => Err(e),
    }
}

/// Checks the claims of a payload whose signature matched against the
/// clock: accepted exactly when both claims are present and the expiry
/// lies strictly after `now`.
pub fn check_payload(payload: Payload, now: i64) -> (r: Result<Claims, JwtError>)
    ensures
        claims_result_view(r) == checked_claims(payload@, now as int),
{
    match (payload.sub, payload.exp) {
        (Some(sub), Some(exp)) => {
            if exp > usize::MAX as u64 {
                Err(JwtError(JwtFault::Malformed))
            } else if now >= 0 && exp <= now as u64 {
                Err(JwtError(JwtFault::Expired))
            } else {
                Ok(Claims { sub, exp: exp as usize })
            }
        },
        _ => Err(JwtError(JwtFault::Malformed)),
    }
}

/// The compact HS256 token that carries the claims `sub` and `exp`, signed
/// under `secret`.
pub uninterp spec fn signed_token(sub: Seq<char>, exp: u64, secret: Seq<u8>) -> Seq<char>;

/// What decoding `token` under `secret` yields when the expiry is left
/// unchecked: the claims found, or the cause of the failure.
pub uninterp spec fn decoded_payload(token: Seq<char>, secret: Seq<u8>) -> Result<
    PayloadView,
    JwtFault,
>;

/// The view of a decoding result.
pub open spec fn payload_result_view(r: Result<Payload, JwtFault>) -> Result<
    PayloadView,
    JwtFault,
> {
    match r {
        Ok(p) => Ok(p@),
        Err(f) => Err(f),
    }
}

/// Whether `decoded` gives back the claims of `token`, in case `token` is a
/// signed token under `secret`.
pub open spec fn reads_back(
    decoded: Result<PayloadView, JwtFault>,
    token: Seq<char>,
    secret: Seq<u8>,
) -> bool {
    forall|sub: Seq<char>, exp: u64|
        token == #[trigger] signed_token(sub, exp, secret) ==> decoded == Ok::<
            PayloadView,
            JwtFault,
        >(PayloadView { sub: Some(sub), exp: Some(exp) })
}

/// `jsonwebtoken::errors::Error`, carried through as it is: nothing is
/// known of what it holds.
#[verifier::external_type_specification]
#[verifier::external_body]
pub struct ExJwtCrateError(jsonwebtoken::errors::Error);

/// `jsonwebtoken::encode` with the default (HS256) header, a JSON object of
/// the two claims `sub` and `exp`, and `secret` as the HMAC key. The result
/// depends on these three values alone: it is the token that
/// `signed_token` names. The call succeeds on every input: an HMAC key
/// fits the HS256 header, a JSON object of a string and an unsigned
/// integer always serializes, and signing with HMAC does not fail.
#[verifier::external_body]
fn encode_hs256(sub: &str, exp: u64, secret: &[u8]) -> (r: Result<
    String,
    jsonwebtoken::errors::Error,
>)
    ensures
        r is Ok,
        r matches Ok(token) ==> token@ == signed_token(sub@, exp, secret@),
{
    let mut claims = serde_json::Map::new();
    claims.insert(String::from("sub"), serde_json::Value::from(sub));
    claims.insert(String::from("exp"), serde_json::Value::from(exp));
    let key = jsonwebtoken::EncodingKey::from_secret(secret);
    jsonwebtoken::encode(&jsonwebtoken::Header::default(), &claims, &key)
}

/// `jsonwebtoken::decode` for HS256 with `secret` as the HMAC key and the
/// expiry check switched off, so that the result depends on `token` and
/// `secret` alone: it is what `decoded_payload` names. The claims `sub` and
/// `exp` are read from the decoded JSON object as a string and an unsigned
/// integer. A signature that does not match is reported as such, every
/// other failure as a malformed token. Decoding a token that
/// `encode_hs256` made under the same secret gives back its two claims.
#[verifier::external_body]
fn decode_hs256(token: &str, secret: &[u8]) -> (r: Result<Payload, JwtFault>)
    ensures
        payload_result_view(r) == decoded_payload(token@, secret@),
        reads_back(payload_result_view(r), token@, secret@),
{
    let mut rules = jsonwebtoken::Validation::new(jsonwebtoken::Algorithm::HS256);
    rules.validate_exp = false;
    let key = jsonwebtoken::DecodingKey::from_secret(secret);
    match jsonwebtoken::decode::<serde_json::Value>(token, &key, &rules) {
        Ok(data) => Ok(Payload {
            sub: data.claims.get("sub").and_then(serde_json::Value::as_str).map(String::from),
            exp: data.claims.get("exp").and_then(serde_json::Value::as_u64),
        }),
        Err(e) => Err(match e.kind() {
            jsonwebtoken::errors::ErrorKind::InvalidSignature => JwtFault::Signature,
            _ => JwtFault::Malformed,
        }),
    }
}

/// What issuing a token for `sub` at `now` returns: the signed token that
/// expires 24 hours after `now`, whatever the subject; no token, for want
/// of a clock, where the instant has no expiry that the claims can hold.
pub open spec fn issued(sub: Seq<char>, secret: Seq<u8>, now: int) -> Result<Seq<char>, JwtError> {
    if can_issue_at(now) {
        Ok(signed_token(sub, expiry_of(now) as u64, secret))
    } else {
        Err(JwtError(JwtFault::Clock))
    }
}

/// The view of an issuing result.
pub open spec fn token_result_view(r: Result<String, JwtError>) -> Result<Seq<char>, JwtError> {
    match r {
        Ok(token) => Ok(token@),
        Err(e) => Err(e),
    }
}

/// Maps the encoder's result to the library's: the token as it is, any
/// failure to [`JwtFault::Encoding`].
pub fn issued_token(encoded: Result<String, jsonwebtoken::errors::Error>) -> (r: Result<
    String,
    JwtError,
>)
    ensures
        match encoded {
            Ok(token) => r == Ok::<String, JwtError>(token),
            Err(_) => r == Err::<String, JwtError>(JwtError(JwtFault::Encoding)),
        },
{
    match encoded {
        Ok(token) => Ok(token),
        Err(_) => Err(JwtError(JwtFault::Encoding)),
    }
}

/// Issues a token for `username` as of `now`: the claims are the subject
/// and `now` plus 24 hours, signed under `secret`. A token is owed for
/// every subject and every secret, whenever `now` is not before the epoch
/// and its expiry fits the claims; otherwise the clock is at fault.
pub fn generate_jwt_at(username: &str, secret: &[u8], now: i64) -> (r: Result<String, JwtError>)
    ensures
        token_result_view(r) == issued(username@, secret@, now as int),
{
    if now < 0 {
        return Err(JwtError(JwtFault::Clock));
    }
    let expiration: u64 = now as u64 + TOKEN_VALIDITY_SECS as u64;
    if expiration > usize::MAX as u64 {
        return Err(JwtError(JwtFault::Clock));
    }
    issued_token(encode_hs256(username, expiration, secret))
}

/// The outcome of verifying `token` under `secret` at `now`.
pub open spec fn verified_claims(token: Seq<char>, secret: Seq<u8>, now: int) -> Result<
    ClaimsView,
    JwtError,
> {
    match decoded_payload(token, secret) {
        Ok(payload) => checked_claims(payload, now),
        Err(fault) => Err(JwtError(fault)),
    }
}

/// What verification owes to a token that was signed for `sub` with the
/// expiry `exp`: the claims at every instant before `exp`, a refusal as
/// expired from `exp` on.
pub open spec fn verdict_on_signed(sub: Seq<char>, exp: u64, now: int) -> Result<
    ClaimsView,
    JwtError,
> {
    if now < exp {
        Ok(ClaimsView { sub, exp: exp as nat })
    } else {
        Err(JwtError(JwtFault::Expired))
    }
}

/// Issuing, then verifying: where decoding reads back what encoding wrote,
/// as every call of the decoder does, the token signed for `sub` with the
/// expiry `exp` verifies under the same secret with that subject until
/// `exp`, and is refused as expired from then on.
pub proof fn lemma_signed_token_verifies(sub: Seq<char>, exp: u64, secret: Seq<u8>, now: int)
    requires
        exp <= usize::MAX,
        reads_back(
            decoded_payload(signed_token(sub, exp, secret), secret),
            signed_token(sub, exp, secret),
            secret,
        ),
    ensures
        verified_claims(signed_token(sub, exp, secret), secret, now) == verdict_on_signed(
            sub,
            exp,
            now,
        ),
{
}

/// Verifies `token` under `secret` as of `now`. It fails when the
/// signature does not match, when the token or its claims cannot be
/// parsed, and when the expiry is not after `now`.
///
/// A token issued under the same secret for a subject is accepted, with
/// that subject, at every instant before its expiry, and refused as
/// expired from its expiry on.
pub fn validate_jwt_at(token: &str, secret: &[u8], now: i64) -> (r: Result<Claims, JwtError>)
    ensures
        claims_result_view(r) == verified_claims(token@, secret@, now as int),
        forall|sub: Seq<char>, exp: u64|
            token@ == #[trigger] signed_token(sub, exp, secret@) && exp <= usize::MAX
                ==> claims_result_view(r) == verdict_on_signed(sub, exp, now as int),
{
    let decoded = decode_hs256(token, secret);
    proof {
        let verdict = verified_claims(token@, secret@, now as int);
        assert forall|sub: Seq<char>, exp: u64|
            token@ == #[trigger] signed_token(sub, exp, secret@) && exp <= usize::MAX implies verdict
            == verdict_on_signed(sub, exp, now as int) by {
            lemma_signed_token_verifies(sub, exp, secret@, now as int);
        }
    }
    match decoded {
        Ok(payload) => check_payload(payload, now),
        Err(fault) => Err(JwtError(fault)),
    }
}

/// Issues a token for `username` as of the system clock's present time;
/// see [`generate_jwt_at`]. Only the clock can make it fail, never the
/// subject or the secret; and a token is the one signed for this subject
/// under this secret, with an expiry 24 hours after an instant at which a
/// token can be issued.
pub fn generate_jwt(username: &str, secret: &[u8]) -> (r: Result<String, JwtError>)
    ensures
        exists|now: i64| token_result_view(r) == issued(username@, secret@, now as int),
        r matches Err(e) ==> e == JwtError(JwtFault::Clock),
        r matches Ok(token) ==> exists|now: i64|
            can_issue_at(now as int) && token@ == signed_token(
                username@,
                expiry_of(now as int) as u64,
                secret@,
            ),
{
    let now = unix_time_now();
    let r = generate_jwt_at(username, secret, now);
    assert(token_result_view(r) == issued(username@, secret@, now as int));
    r
}

/// Verifies `token` under `secret` as of the system clock's present time;
/// see [`validate_jwt_at`]. Whatever the time, a token that does not decode
/// is refused with the cause of that, and accepted claims are the decoded
/// ones.
pub fn validate_jwt(token: &str, secret: &[u8]) -> (r: Result<Claims, JwtError>)
    ensures
        exists|now: i64| claims_result_view(r) == verified_claims(token@, secret@, now as int),
{
    let now = unix_time_now();
    let r = validate_jwt_at(token, secret, now);
    assert(claims_result_view(r) == verified_claims(token@, secret@, now as int));
    r
}

/// The payload of a token issued for `sub` at `issued_at`.
pub open spec fn issued_payload(sub: Seq<char>, issued_at: int) -> PayloadView {
    PayloadView { sub: Some(sub), exp: Some(expiry_of(issued_at) as u64) }
}

/// The claims of a token are accepted, with the subject it was issued for,
/// at every instant before its expiry, 24 hours after issuance, and refused
/// as expired at that instant and at every later one.
pub proof fn lemma_validity_window(sub: Seq<char>, issued_at: int, now: int)
    requires
        can_issue_at(issued_at),
    ensures
        now < expiry_of(issued_at) ==> checked_claims(issued_payload(sub, issued_at), now) == Ok::<
            ClaimsView,
            JwtError,
        >(ClaimsView { sub, exp: expiry_of(issued_at) as nat }),
        now >= expiry_of(issued_at) ==> checked_claims(issued_payload(sub, issued_at), now) == Err::<
            ClaimsView,
            JwtError,
        >(JwtError(JwtFault::Expired)),
{
}

/// One second before the end of the 24 hours the claims are still accepted,
/// one second after it no longer.
pub proof fn lemma_expiry_boundary(sub: Seq<char>, issued_at: int)
    requires
        can_issue_at(issued_at),
    ensures
        checked_claims(issued_payload(sub, issued_at), issued_at + 86_400 - 1) is Ok,
        checked_claims(issued_payload(sub, issued_at), issued_at + 86_400 + 1) is Err,
{
}

/// Verification never accepts claims whose expiry is not after `now`, and
/// what it accepts is what the token holds.
pub proof fn lemma_accepted_claims_are_live(payload: PayloadView, now: int)
    ensures
        checked_claims(payload, now) matches Ok(claims) ==> now < claims.exp && payload.sub
            == Some(claims.sub) && payload.exp == Some(claims.exp as u64),
{
}

} // verus!
