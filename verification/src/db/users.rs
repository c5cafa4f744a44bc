//! Accounts: the user record and the hashing of its password.

use crate::status::SERVER_ERROR;
use vstd::prelude::*;

verus! {

/// The number of characters of a password digest.
pub const DIGEST_LEN: usize = 60;

/// An account as the store keeps it. `password` holds the salted digest,
/// never the plaintext; `id` is given by the store.
#[derive(Debug)]
pub struct User {
    pub id: i32,
    pub username: String,
    pub password: String,
}

/// Hashing failed for want of entropy or another resource; the input's
/// shape is never the cause.
#[derive(Clone, Copy, Debug, PartialEq, Eq, Structural)]
pub struct HashingFailure;

impl HashingFailure {
    /// The status shown to the client: the request is given up with a
    /// server error.
    pub fn status(&self) -> (code: u16)
        ensures
            code == SERVER_ERROR,
    {
        SERVER_ERROR
    }
}

/// What every digest starts with: the algorithm's version and its cost.
pub open spec fn digest_prefix() -> Seq<char> {
    seq!['$', '2', 'b', '$', '1', '2', '$']
}

/// Whether `text` has the shape of a password digest.
pub open spec fn is_digest(text: Seq<char>) -> bool {
    text.len() == DIGEST_LEN && text.subrange(0, 7) == digest_prefix()
}

/// The digest that bcrypt computes for `password` at cost 12 under the 16
/// bytes of `salt`, written in the `2b` form: what
/// `bcrypt::hash_with_salt` gives for them, formatted for that version.
pub uninterp spec fn salted_digest(password: Seq<char>, salt: Seq<u8>) -> Seq<char>;

/// Whether `digest` shows its salt: no two salts of 16 bytes lead to it,
/// whatever the passwords. A digest holds its salt in full, as the 22
/// characters behind the cost.
pub open spec fn shows_its_salt(digest: Seq<char>) -> bool {
    forall|one: Seq<char>, s1: Seq<u8>, other: Seq<char>, s2: Seq<u8>|
        s1.len() == 16 && s2.len() == 16 && digest == #[trigger] salted_digest(one, s1) && digest
            == #[trigger] salted_digest(other, s2) ==> s1 == s2
}

/// Whether `digest` is a digest of `password`: it has the shape of one, and
/// it is what hashing `password` gives under some salt of 16 bytes.
pub open spec fn is_digest_of(digest: Seq<char>, password: Seq<char>) -> bool {
    is_digest(digest) && exists|salt: Seq<u8>|
        salt.len() == 16 && digest == #[trigger] salted_digest(password, salt)
}

/// `bcrypt::BcryptError`, carried through as it is: nothing is known of
/// what it holds.
#[verifier::external_type_specification]
#[verifier::external_body]
pub struct ExBcryptError(bcrypt::BcryptError);

/// `bcrypt::hash` at `bcrypt::DEFAULT_COST`, which is 12. It draws 16 bytes
/// of salt at random and fails where that fails; with the salt it does
/// what `bcrypt::hash_with_salt` does and writes the result in the `2b`
/// form. So two calls may differ, and what is claimed holds of each: a
/// digest is `$2b$12$`, then 22 characters of salt and 31 of hash; it is
/// the digest of the password handed in, under some salt; and since it
/// holds that salt in full, encoded one to one, no other salt leads to it.
#[verifier::external_body]
fn bcrypt_hash(password: &str) -> (r: Result<String, bcrypt::BcryptError>)
    ensures
        r matches Ok(digest) ==> is_digest(digest@),
        r matches Ok(digest) ==> exists|salt: Seq<u8>|
            salt.len() == 16 && digest@ == #[trigger] salted_digest(password@, salt),
        r matches Ok(digest) ==> shows_its_salt(digest@),
{
    bcrypt::hash(password, bcrypt::DEFAULT_COST)
}

/// Maps the hasher's result to the library's: the digest as it is, any
/// failure to [`HashingFailure`].
pub fn hashed(outcome: Result<String, bcrypt::BcryptError>) -> (r: Result<String, HashingFailure>)
    ensures
        match outcome {
            Ok(digest) => r == Ok::<String, HashingFailure>(digest),
            Err(_) => r is Err,
        },
{
    match outcome {
        Ok(digest) => Ok(digest),
        Err(_) => Err(HashingFailure),
    }
}

/// Hashes a password with a fresh random salt. Whether it succeeds is for
/// the source of the salt to decide, never for the password. What comes
/// back is a digest of this password under the salt drawn, and under that
/// salt alone: with any other salt the password has another digest, so two
/// calls give one digest only if they drew one salt.
pub fn hash_password(password: &str) -> (r: Result<String, HashingFailure>)
    ensures
        r matches Ok(digest) ==> is_digest_of(digest@, password@),
        r matches Ok(digest) ==> forall|s1: Seq<u8>, s2: Seq<u8>|
            s1.len() == 16 && s2.len() == 16 && s1 != s2 && digest@ == #[trigger] salted_digest(
                password@,
                s1,
            ) ==> digest@ != #[trigger] salted_digest(password@, s2),
{
    let r = hashed(bcrypt_hash(password));
    proof {
        if r is Ok {
            let digest = r->Ok_0@;
            assert forall|s1: Seq<u8>, s2: Seq<u8>|
                s1.len() == 16 && s2.len() == 16 && s1 != s2 && digest == #[trigger] salted_digest(
                    password@,
                    s1,
                ) implies digest != #[trigger] salted_digest(password@, s2) by {
                lemma_distinct_salts_distinct_digests(password@, s1, s2);
            }
        }
    }
    r
}

/// Under two different salts a password has two different digests,
/// wherever the digest under the first shows its salt, as every digest
/// that hashing returns does.
pub proof fn lemma_distinct_salts_distinct_digests(password: Seq<char>, s1: Seq<u8>, s2: Seq<u8>)
    requires
        s1.len() == 16,
        s2.len() == 16,
        s1 != s2,
        shows_its_salt(salted_digest(password, s1)),
    ensures
        salted_digest(password, s1) != salted_digest(password, s2),
{
}

/// The record of a new account, given what hashing its password came to:
/// the name as given, the digest as the password, and no id yet; where
/// hashing failed, that failure and no record.
pub fn enrolled(username: &str, digest: Result<String, HashingFailure>) -> (r: Result<
    User,
    HashingFailure,
>)
    ensures
        match digest {
            Ok(text) => r matches Ok(user) && user.id == 0 && user.username@ == username@
                && user.password@ == text@,
            Err(failure) => r matches Err(e) && e == failure,
        },
{
    match digest {
        Ok(text) => Ok(User { id: 0, username: username.to_owned(), password: text }),
        Err(failure) => Err(failure),
    }
}

/// Makes the record of a new account: the name as given, no id yet, and as
/// the password a digest of the one given, never the plaintext itself
/// unless that has the shape of a digest. It fails only where hashing
/// does.
pub fn new_user(username: &str, password: &str) -> (r: Result<User, HashingFailure>)
    ensures
        r matches Ok(user) ==> user.id == 0 && user.username@ == username@ && is_digest_of(
            user.password@,
            password@,
        ),
        r matches Ok(user) ==> (!is_digest(password@) ==> user.password@ != password@),
{
    enrolled(username, hash_password(password))
}

/// A digest differs from every text that has not itself the shape of one;
/// so a stored password is not the plaintext, whenever the plaintext is no
/// digest.
pub proof fn lemma_digest_is_not_plaintext(digest: Seq<char>, plaintext: Seq<char>)
    requires
        is_digest(digest),
        !is_digest(plaintext),
    ensures
        digest != plaintext,
{
}

} // verus!
