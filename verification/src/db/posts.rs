//! Posts: the record, and the submission of one through the authorization gate.

use crate::clock::{text_view, unix_time_now, utc_date, utc_date_text};
use crate::gate::{
    authorize_at, bearer_prefix, gate_decision, lemma_gate_follows_verification,
    AuthenticatedIdentity, CredentialHeader, HeaderView, Rejection,
};
use crate::jwt::{signed_token, verified_claims, JwtError, JwtFault};
use crate::status::{SERVER_ERROR, UNAUTHORIZED};
use vstd::prelude::*;

verus! {

/// A post as the store keeps it. `context` is the body, `date` the day of
/// submission, `user` the author; `id` is given by the store.
#[derive(Debug)]
pub struct Post {
    pub context: String,
    pub date: String,
    pub id: i32,
    pub user: String,
    pub title: String,
}

/// The mathematical content of a [`Post`].
pub struct PostView {
    pub context: Seq<char>,
    pub date: Seq<char>,
    pub id: int,
    pub user: Seq<char>,
    pub title: Seq<char>,
}

impl View for Post {
    type V = PostView;

    open spec fn view(&self) -> PostView {
        PostView {
            context: self.context@,
            date: self.date@,
            id: self.id as int,
            user: self.user@,
            title: self.title@,
        }
    }
}

/// Why a submission made no post.
#[derive(Clone, Copy, Debug, PartialEq, Eq, Structural)]
pub enum SubmissionError {
    /// The authorization gate turned the request away.
    Rejected(Rejection),
    /// The instant of submission has no calendar date.
    Calendar,
}

impl SubmissionError {
    /// The status that the error shows to the client: a rejection is
    /// unauthorized, whatever its cause; a clock without a date is a
    /// failure of the server.
    pub open spec fn client_status(&self) -> u16 {
        if *self is Rejected {
            UNAUTHORIZED
        } else {
            SERVER_ERROR
        }
    }

    /// The status shown to the client.
    pub fn status(&self) -> (code: u16)
        ensures
            code == self.client_status(),
    {
        match self {
            SubmissionError::Rejected(rejection) => rejection.status(),
            SubmissionError::Calendar => SERVER_ERROR,
        }
    }
}

/// The post that `author` submits: the author is the identity that the
/// gate made, the id is left to the store.
pub open spec fn post_by(
    author: Seq<char>,
    title: Seq<char>,
    content: Seq<char>,
    date: Seq<char>,
) -> PostView {
    PostView { context: content, date, id: 0, user: author, title }
}

/// Makes the post that `author` submits on `date`.
pub fn new_post(author: &AuthenticatedIdentity, title: &str, content: &str, date: String) -> (post:
    Post)
    ensures
        post@ == post_by(author@, title@, content@, date@),
{
    Post {
        context: content.to_owned(),
        date,
        id: 0,
        user: author.subject().to_owned(),
        title: title.to_owned(),
    }
}

/// What a submission comes to for a header, a secret and an instant: the
/// gate's rejection, or the post to insert, written by the subject of the
/// token and dated by the day of `now`.
pub open spec fn submission_decision(
    header: HeaderView,
    title: Seq<char>,
    content: Seq<char>,
    secret: Seq<u8>,
    now: i64,
) -> Result<PostView, SubmissionError> {
    match gate_decision(header, secret, now as int) {
        Err(rejection) => Err(SubmissionError::Rejected(rejection)),
        Ok(author) => match utc_date_text(now) {
            None => Err(SubmissionError::Calendar),
            Some(date) => Ok(post_by(author, title, content, date)),
        },
    }
}

/// What a submission comes to where its header is made of the scheme and
/// a token that was signed for `author` with the expiry `exp`: before
/// `exp` the post by `author`, dated by the day of `now`; from `exp` on a
/// rejection of the token as expired, and no post.
pub open spec fn submission_on_signed(
    author: Seq<char>,
    exp: u64,
    title: Seq<char>,
    content: Seq<char>,
    now: i64,
) -> Result<PostView, SubmissionError> {
    if now < exp {
        match utc_date_text(now) {
            None => Err(SubmissionError::Calendar),
            Some(date) => Ok(post_by(author, title, content, date)),
        }
    } else {
        Err(SubmissionError::Rejected(Rejection::InvalidOrExpired(JwtError(JwtFault::Expired))))
    }
}

/// The view of a submission's result.
pub open spec fn submission_view(r: Result<Post, SubmissionError>) -> Result<
    PostView,
    SubmissionError,
> {
    match r {
        Ok(post) => Ok(post@),
        Err(e) => Err(e),
    }
}

/// Decides a submission as of `now`: the request passes the authorization
/// gate first, and only an accepted one yields a post to insert.
///
/// With a header made of the scheme and a token issued under the same
/// secret, the post is by the token's subject at every instant before the
/// token's expiry; from then on the submission is rejected and yields no
/// post.
pub fn submit_post_at(
    header: CredentialHeader,
    title: &str,
    content: &str,
    secret: &[u8],
    now: i64,
) -> (r: Result<Post, SubmissionError>)
    ensures
        submission_view(r) == submission_decision(header@, title@, content@, secret@, now),
        forall|author: Seq<char>, exp: u64|
            header@ == HeaderView::Text(
                bearer_prefix() + #[trigger] signed_token(author, exp, secret@),
            ) && exp <= usize::MAX ==> submission_view(r) == submission_on_signed(
                author,
                exp,
                title@,
                content@,
                now,
            ),
{
    let author = match authorize_at(header, secret, now) {
        Ok(author) => author,
        Err(rejection) => { return Err(SubmissionError::Rejected(rejection)); },
    };
    match utc_date(now) {
        Some(date) => Ok(new_post(&author, title, content, date)),
        None => Err(SubmissionError::Calendar),
    }
}

/// Decides a submission as of the system clock's present time; see
/// [`submit_post_at`].
pub fn submit_post(header: CredentialHeader, title: &str, content: &str, secret: &[u8]) -> (r:
    Result<Post, SubmissionError>)
    ensures
        exists|now: i64|
            submission_view(r) == submission_decision(header@, title@, content@, secret@, now),
{
    let now = unix_time_now();
    let r = submit_post_at(header, title, content, secret, now);
    assert(submission_view(r) == submission_decision(header@, title@, content@, secret@, now));
    r
}

/// A submission yields a post only where the authorization gate accepts the
/// request, and the author of that post is the subject that the authorization
/// gate accepted: never a value of the request's body.
pub proof fn lemma_post_only_from_gate(
    header: HeaderView,
    title: Seq<char>,
    content: Seq<char>,
    secret: Seq<u8>,
    now: i64,
)
    ensures
        submission_decision(header, title, content, secret, now) matches Ok(post) ==> gate_decision(
            header,
            secret,
            now as int,
        ) == Ok::<Seq<char>, Rejection>(post.user),
        gate_decision(header, secret, now as int) is Err ==> submission_decision(
            header,
            title,
            content,
            secret,
            now,
        ) is Err,
{
}

/// A submission whose header is the scheme and a token that verification
/// refuses (expired, changed, signed under another secret, empty or no
/// token at all) yields no post, whatever title and content: it is
/// rejected with the cause, and answers the client as a submission without
/// any header does.
pub proof fn lemma_refused_token_yields_no_post(
    token: Seq<char>,
    title: Seq<char>,
    content: Seq<char>,
    secret: Seq<u8>,
    now: i64,
)
    requires
        verified_claims(token, secret, now as int) is Err,
    ensures
        submission_decision(
            HeaderView::Text(bearer_prefix() + token),
            title,
            content,
            secret,
            now,
        ) == Err::<PostView, SubmissionError>(
            SubmissionError::Rejected(
                Rejection::InvalidOrExpired(verified_claims(token, secret, now as int)->Err_0),
            ),
        ),
        submission_decision(HeaderView::Absent, title, content, secret, now) == Err::<
            PostView,
            SubmissionError,
        >(SubmissionError::Rejected(Rejection::MissingCredential)),
        submission_decision(
            HeaderView::Text(bearer_prefix() + token),
            title,
            content,
            secret,
            now,
        )->Err_0.client_status() == submission_decision(
            HeaderView::Absent,
            title,
            content,
            secret,
            now,
        )->Err_0.client_status(),
{
    lemma_gate_follows_verification(token, secret, now as int);
}

} // verus!
