//! The password verifier: decides whether a submitted secret matches a stored
//! password, which is either kept verbatim or as a self-describing hash.

use vstd::prelude::*;
use crate::hash::{accepted_by, first_accepting, names_scheme, phc_parse, HashRecord};
use crate::text::same_text;

verus! {

/// How a user's password is stored.
#[derive(Clone, Debug, PartialEq, Eq)]
pub enum Password {
    /// The password itself.
    Raw(String),
    /// A hash string that embeds scheme, parameters, salt and digest.
    Encrypted(String),
}

/// A stored password, as mathematical values.
pub ghost enum PasswordView {
    Raw(Seq<char>),
    Encrypted(Seq<char>),
}

impl View for Password {
    type V = PasswordView;

    open spec fn view(&self) -> PasswordView {
        match self {
            Password::Raw(text) => PasswordView::Raw(text@),
            Password::Encrypted(hash) => PasswordView::Encrypted(hash@),
        }
    }
}

impl Password {
    /// A copy of this stored password.
    pub fn duplicate(&self) -> (copy: Password)
        ensures
            copy@ == self@,
    {
        match self {
            Password::Raw(text) => Password::Raw(text.clone()),
            Password::Encrypted(hash) => Password::Encrypted(hash.clone()),
        }
    }
}

/// Whether `secret` matches a stored hash string. A string that does not parse
/// as a hash is compared with the secret as it stands; one that parses is
/// matched when the supported scheme that it names accepts the secret.
pub open spec fn matches_hash(secret: Seq<char>, hash: Seq<char>) -> bool {
    match phc_parse(hash) {
        None => secret == hash,
        Some(_) => accepted_by(hash, secret) is Some,
    }
}

/// Whether `secret` matches the stored password `password`.
pub open spec fn verifies(secret: Seq<char>, password: PasswordView) -> bool {
    match password {
        PasswordView::Raw(expected) => secret == expected,
        PasswordView::Encrypted(hash) => matches_hash(secret, hash),
    }
}

/// A password stored verbatim is matched by itself, and not by itself with a
/// character added.
pub proof fn lemma_raw_matches_itself_only(p: Seq<char>, extra: char)
    ensures
        verifies(p, PasswordView::Raw(p)),
        !verifies(p.push(extra), PasswordView::Raw(p)),
        !verifies(p + seq![extra], PasswordView::Raw(p)),
{
    assert(p.push(extra).len() != p.len());
}

/// Decides whether `secret` matches the hash string `hash`, given what `hash`
/// parsed into: with no record the two texts are compared, with a record the
/// scheme that the hash names decides.
pub fn verify_parsed(secret: &str, hash: &str, record: Option<&HashRecord>) -> (ok: bool)
    ensures
        ok == match record {
            None => secret@ == hash@,
            Some(_) => accepted_by(hash@, secret@) is Some,
        },
        ok && record is Some ==> names_scheme(hash@, accepted_by(hash@, secret@)->0),
{
    match record {
        None => same_text(secret, hash),
        Some(_) => first_accepting(hash, secret).is_some(),
    }
}

/// Decides whether `secret` matches the hash string `hash`.
pub fn verify_encrypted(secret: &str, hash: &str) -> (ok: bool)
    ensures
        ok == matches_hash(secret@, hash@),
        ok && phc_parse(hash@) is Some ==> names_scheme(hash@, accepted_by(hash@, secret@)->0),
{
    let record = HashRecord::parse(hash);
    verify_parsed(secret, hash, record.as_ref())
}

/// Decides whether `secret` matches the stored password `password`. Where a
/// hash is matched, the scheme that accepted it is the one it names.
pub fn verify(secret: &str, password: &Password) -> (ok: bool)
    ensures
        ok == verifies(secret@, password@),
        ok ==> match password@ {
            PasswordView::Raw(expected) => secret@ == expected,
            PasswordView::Encrypted(hash) => phc_parse(hash) is Some ==> names_scheme(
                hash,
                accepted_by(hash, secret@)->0,
            ),
        },
{
    match password {
        Password::Raw(expected) => same_text(secret, expected.as_str()),
        Password::Encrypted(hash) => verify_encrypted(secret, hash.as_str()),
    }
}

} // verus!
