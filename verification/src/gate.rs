//! Authorization gate: turns the credential header of a request into an
//! authenticated identity or a rejection.

use crate::clock::unix_time_now;
use crate::jwt::{signed_token, validate_jwt_at, verified_claims, JwtError, JwtFault};
use crate::status::UNAUTHORIZED;
use vstd::prelude::*;
use vstd::string::*;

verus! {

/// Why the authorization gate turned a request away. The cause is for logs;
/// the client sees the same response for all three.
#[derive(Clone, Copy, Debug, PartialEq, Eq, Structural)]
pub enum Rejection {
    /// The request has no credential header.
    MissingCredential,
    /// The header is not of the form `Bearer <token>`.
    MalformedCredential,
    /// The token was refused, for the cause given.
    InvalidOrExpired(JwtError),
}

/// The credential header as a request carries it.
#[derive(Clone, Copy, Debug)]
pub enum CredentialHeader<'a> {
    /// The request has no such header.
    Absent,
    /// The request has one, and its value is no text.
    NotText,
    /// The value of the header.
    Text(&'a str),
}

/// The mathematical content of a [`CredentialHeader`].
pub enum HeaderView {
    Absent,
    NotText,
    Text(Seq<char>),
}

impl<'a> View for CredentialHeader<'a> {
    type V = HeaderView;

    open spec fn view(&self) -> HeaderView {
        match *self {
            CredentialHeader::Absent => HeaderView::Absent,
            CredentialHeader::NotText => HeaderView::NotText,
            CredentialHeader::Text(text) => HeaderView::Text(text@),
        }
    }
}

/// The subject of a verified token, bound to the one request that carried
/// it. Only the authorization gate makes one.
#[derive(Debug)]
pub struct AuthenticatedIdentity {
    subject: String,
}

impl View for AuthenticatedIdentity {
    type V = Seq<char>;

    closed spec fn view(&self) -> Seq<char> {
        self.subject@
    }
}

impl AuthenticatedIdentity {
    /// The subject that the token authenticated.
    pub fn subject(&self) -> (s: &str)
        ensures
            s@ == self@,
    {
        self.subject.as_str()
    }
}

/// The scheme that a credential header starts with, the blank included.
pub open spec fn bearer_prefix() -> Seq<char> {
    seq!['B', 'e', 'a', 'r', 'e', 'r', ' ']
}

/// Whether `text` starts with `Bearer `.
pub open spec fn has_bearer_prefix(text: Seq<char>) -> bool {
    text.len() >= 7 && text.subrange(0, 7) == bearer_prefix()
}

/// The token that a credential header carries, if the header has the
/// expected shape: all that follows the first `Bearer `.
pub open spec fn bearer_token_of(header: Seq<char>) -> Option<Seq<char>> {
    if has_bearer_prefix(header) {
        Some(header.skip(7))
    } else {
        None
    }
}

/// What the authorization gate decides for a header, a secret and an
/// instant: the subject to act as, or the rejection.
pub open spec fn gate_decision(header: HeaderView, secret: Seq<u8>, now: int) -> Result<
    Seq<char>,
    Rejection,
> {
    match header {
        HeaderView::Absent => Err(Rejection::MissingCredential),
        HeaderView::NotText => Err(Rejection::MalformedCredential),
        HeaderView::Text(text) => match bearer_token_of(text) {
            None => Err(Rejection::MalformedCredential),
            Some(token) => match verified_claims(token, secret, now) {
                Ok(claims) => Ok(claims.sub),
                Err(e) => Err(Rejection::InvalidOrExpired(e)),
            },
        },
    }
}

/// What the authorization gate owes to a header made of the scheme and a
/// token that was signed for `sub` with the expiry `exp`: the subject at
/// every instant before `exp`, a rejection of the token as expired from
/// `exp` on.
pub open spec fn gate_verdict_on_signed(sub: Seq<char>, exp: u64, now: int) -> Result<
    Seq<char>,
    Rejection,
> {
    if now < exp {
        Ok(sub)
    } else {
        Err(Rejection::InvalidOrExpired(JwtError(JwtFault::Expired)))
    }
}

/// The view of a token read out of a header.
pub open spec fn token_view(token: Option<&str>) -> Option<Seq<char>> {
    match token {
        Some(text) => Some(text@),
        None => None,
    }
}

/// The view of a gate result.
pub open spec fn gate_view(r: Result<AuthenticatedIdentity, Rejection>) -> Result<
    Seq<char>,
    Rejection,
> {
    match r {
        Ok(identity) => Ok(identity@),
        Err(rejection) => Err(rejection),
    }
}

/// Whether `header`, of `len` characters, starts with `Bearer `.
fn starts_with_bearer(header: &str, len: usize) -> (b: bool)
    requires
        len == header@.len(),
    ensures
        b == has_bearer_prefix(header@),
{
    if len < 7 {
        return false;
    }
    let b = header.get_char(0) == 'B' && header.get_char(1) == 'e' && header.get_char(2) == 'a'
        && header.get_char(3) == 'r' && header.get_char(4) == 'e' && header.get_char(5) == 'r'
        && header.get_char(6) == ' ';
    proof {
        let head = header@.subrange(0, 7);
        assert forall|i: int| 0 <= i < 7 implies head[i] == header@[i] by {}
        if b {
            assert(head =~= bearer_prefix());
        } else if head == bearer_prefix() {
            assert(head[0] == 'B' && head[1] == 'e' && head[2] == 'a' && head[3] == 'r'
                && head[4] == 'e' && head[5] == 'r' && head[6] == ' ');
        }
    }
    b
}

/// Reads the token out of a credential header: `None` unless the header
/// starts with `Bearer `, else all that follows this scheme, unchanged.
pub fn bearer_token(header: &str) -> (token: Option<&str>)
    ensures
        token_view(token) == bearer_token_of(header@),
{
    let len = header.unicode_len();
    if !starts_with_bearer(header, len) {
        return None;
    }
    let token = header.substring_char(7, len);
    assert(header@.subrange(7, len as int) =~= header@.skip(7));
    Some(token)
}

/// The authorization gate, as of `now`. No header: the credential is
/// missing. A header that is no text, or does not start with `Bearer `: it
/// is malformed. A token that verification refuses: invalid or expired,
/// with the cause. Otherwise the request goes on as the subject of the
/// token.
///
/// A header made of the scheme and a token issued under the same secret is
/// accepted as the token's subject at every instant before the token's
/// expiry, and rejected as expired from then on.
pub fn authorize_at(header: CredentialHeader, secret: &[u8], now: i64) -> (r: Result<
    AuthenticatedIdentity,
    Rejection,
>)
    ensures
        gate_view(r) == gate_decision(header@, secret@, now as int),
        forall|sub: Seq<char>, exp: u64|
            header@ == HeaderView::Text(bearer_prefix() + #[trigger] signed_token(sub, exp, secret@))
                && exp <= usize::MAX ==> gate_view(r) == gate_verdict_on_signed(sub, exp, now as int),
{
    let text = match header {
        CredentialHeader::Absent => { return Err(Rejection::MissingCredential); },
        CredentialHeader::NotText => { return Err(Rejection::MalformedCredential); },
        CredentialHeader::Text(text) => text,
    };
    let token = match bearer_token(text) {
        Some(token) => token,
        None => {
            proof {
                assert forall|sub: Seq<char>, exp: u64|
                    text@ == bearer_prefix() + #[trigger] signed_token(sub, exp, secret@) implies false by {
                    lemma_bearer_header_carries_token(signed_token(sub, exp, secret@));
                }
            }
            return Err(Rejection::MalformedCredential);
        },
    };
    proof {
        assert forall|sub: Seq<char>, exp: u64|
            text@ == bearer_prefix() + #[trigger] signed_token(sub, exp, secret@) implies token@
            == signed_token(sub, exp, secret@) by {
            lemma_bearer_header_carries_token(signed_token(sub, exp, secret@));
        }
    }
    match validate_jwt_at(token, secret, now) {
        Ok(claims) => Ok(AuthenticatedIdentity { subject: claims.sub }),
        Err(e) => Err(Rejection::InvalidOrExpired(e)),
    }
}

/// The authorization gate, as of the system clock's present time; see
/// [`authorize_at`]. Whatever the time, a request without a header is
/// missing its credential, and one whose header is no text or lacks the
/// scheme is malformed.
pub fn authorize(header: CredentialHeader, secret: &[u8]) -> (r: Result<
    AuthenticatedIdentity,
    Rejection,
>)
    ensures
        exists|now: i64| gate_view(r) == gate_decision(header@, secret@, now as int),
{
    let now = unix_time_now();
    let r = authorize_at(header, secret, now);
    assert(gate_view(r) == gate_decision(header@, secret@, now as int));
    r
}

impl Rejection {
    /// The status that a rejection shows to the client.
    pub open spec fn client_status(&self) -> u16 {
        UNAUTHORIZED
    }

    /// The status shown to the client: the same for every cause.
    pub fn status(&self) -> (code: u16)
        ensures
            code == self.client_status(),
            code == UNAUTHORIZED,
    {
        UNAUTHORIZED
    }
}

/// No two rejections can be told apart by the status they show: a missing
/// credential looks to the client like a malformed one and like a refused
/// token.
pub proof fn lemma_rejections_look_alike(a: Rejection, b: Rejection)
    ensures
        a.client_status() == b.client_status(),
{
}

/// A header made of the scheme and a token carries that token, whatever
/// the token is: the scheme is taken off once.
pub proof fn lemma_bearer_header_carries_token(token: Seq<char>)
    ensures
        has_bearer_prefix(bearer_prefix() + token),
        bearer_token_of(bearer_prefix() + token) == Some(token),
{
    let header = bearer_prefix() + token;
    assert(header.subrange(0, 7) =~= bearer_prefix());
    assert(header.skip(7) =~= token);
}

/// For a header made of the scheme and a token, the authorization gate
/// follows the verification of that token: it accepts the subject of the
/// claims where the token verifies, and rejects with the cause where it
/// does not. The error of verification never becomes an identity.
pub proof fn lemma_gate_follows_verification(token: Seq<char>, secret: Seq<u8>, now: int)
    ensures
        gate_decision(HeaderView::Text(bearer_prefix() + token), secret, now) == (match verified_claims(
            token,
            secret,
            now,
        ) {
            Ok(claims) => Ok::<Seq<char>, Rejection>(claims.sub),
            Err(e) => Err::<Seq<char>, Rejection>(Rejection::InvalidOrExpired(e)),
        }),
{
    lemma_bearer_header_carries_token(token);
}

/// The authorization gate accepts exactly a header that is text, starts
/// with the scheme, and carries behind the scheme a token that verifies;
/// the identity it hands on is the subject of that token.
pub proof fn lemma_accept_needs_verified_token(header: HeaderView, secret: Seq<u8>, now: int)
    ensures
        gate_decision(header, secret, now) is Ok <==> {
            &&& header matches HeaderView::Text(text)
            &&& has_bearer_prefix(text)
            &&& verified_claims(text.skip(7), secret, now) is Ok
        },
        gate_decision(header, secret, now) matches Ok(subject) ==> {
            &&& header matches HeaderView::Text(text)
            &&& verified_claims(text.skip(7), secret, now) matches Ok(claims)
            &&& claims.sub == subject
        },
{
}

} // verus!
