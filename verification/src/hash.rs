//! Self-describing password hashes: the record that a hash string parses
//! into, the closed set of supported schemes, and the calls into the crates
//! that implement them.

use vstd::prelude::*;
use argon2::Argon2;
use balloon_hash::Balloon;
use password_hash::{Ident, Output, PasswordHash, PasswordVerifier, Salt};
use pbkdf2::Pbkdf2;
use scrypt::Scrypt;
use sha2::Sha256;
use crate::options::{last_text, text_given};
use crate::text::{pieces, read_number, reading_of, same_bytes, same_text, split, Reading};

verus! {

/// The fields of a hash string, as mathematical values.
pub ghost struct PhcFields {
    /// The identifier of the hashing scheme.
    pub algorithm: Seq<char>,
    /// The version of the scheme, where the string gives one.
    pub version: Option<u32>,
    /// The parameters, as they stand in the string (`name=value`, separated by commas).
    pub params: Seq<char>,
    /// The salt in its textual encoding.
    pub salt: Option<Seq<char>>,
    /// The digest, decoded to bytes.
    pub digest: Option<Seq<u8>>,
}

/// A parsed hash string.
#[derive(Clone, Debug, PartialEq, Eq)]
pub struct HashRecord {
    pub algorithm: String,
    pub version: Option<u32>,
    pub params: String,
    pub salt: Option<String>,
    pub digest: Option<Vec<u8>>,
}

impl View for HashRecord {
    type V = PhcFields;

    open spec fn view(&self) -> PhcFields {
        PhcFields {
            algorithm: self.algorithm@,
            version: self.version,
            params: self.params@,
            salt: match self.salt {
                Some(s) => Some(s@),
                None => None,
            },
            digest: match self.digest {
                Some(d) => Some(d@),
                None => None,
            },
        }
    }
}

/// What `password_hash::PasswordHash::new` makes of a text: the fields of the
/// hash it parses into, or `None` where it rejects the text.
pub uninterp spec fn phc_parse(text: Seq<char>) -> Option<PhcFields>;

/// What `PasswordHash`'s `Display` writes for a hash with the given fields, or
/// `None` where no `PasswordHash` can be built from them.
pub uninterp spec fn phc_string(fields: PhcFields) -> Option<Seq<char>>;

/// Whether the argon2 crate's default `Argon2` verifies `secret` against the hash `hash`.
pub uninterp spec fn argon2_accepts(hash: Seq<char>, secret: Seq<char>) -> bool;

/// Whether the pbkdf2 crate's `Pbkdf2` verifies `secret` against the hash `hash`.
pub uninterp spec fn pbkdf2_accepts(hash: Seq<char>, secret: Seq<char>) -> bool;

/// Whether the scrypt crate's `Scrypt` verifies `secret` against the hash `hash`.
pub uninterp spec fn scrypt_accepts(hash: Seq<char>, secret: Seq<char>) -> bool;

/// Whether the balloon-hash crate's default `Balloon` over SHA-256 verifies
/// `secret` against the hash `hash`.
pub uninterp spec fn balloon_accepts(hash: Seq<char>, secret: Seq<char>) -> bool;

/// The supported hashing schemes.
#[derive(Clone, Copy, Debug, PartialEq, Eq, Structural)]
pub enum SchemeKind {
    Argon2,
    Pbkdf2,
    Scrypt,
    Balloon,
}

/// The scheme that an identifier names, if it names a supported one.
pub open spec fn scheme_named(id: Seq<char>) -> Option<SchemeKind> {
    if id == "argon2d"@ || id == "argon2i"@ || id == "argon2id"@ {
        Some(SchemeKind::Argon2)
    } else if id == "pbkdf2-sha256"@ || id == "pbkdf2-sha512"@ {
        Some(SchemeKind::Pbkdf2)
    } else if id == "scrypt"@ {
        Some(SchemeKind::Scrypt)
    } else if id == "balloon"@ || id == "balloon-m"@ {
        Some(SchemeKind::Balloon)
    } else {
        None
    }
}

/// Whether `hash` parses, and its identifier names the scheme `kind`.
pub open spec fn names_scheme(hash: Seq<char>, kind: SchemeKind) -> bool {
    match phc_parse(hash) {
        Some(fields) => scheme_named(fields.algorithm) == Some(kind),
        None => false,
    }
}

/// The text of parameter `name` in a parameter string: the parameters are
/// separated by commas, each is `name=value`, and of several with one name the
/// last one counts.
pub open spec fn param_text(params: Seq<char>, name: Seq<char>) -> Option<Seq<char>> {
    text_given(pieces(params, ','), name)
}

/// The number that a parameter string gives parameter `name`, read against
/// `limit`; `default` where the string does not hold the parameter.
pub open spec fn param_reading(params: Seq<char>, name: Seq<char>, default: u32, limit: u32) -> Reading {
    match param_text(params, name) {
        Some(text) => reading_of(text, limit),
        None => Reading::Number(default),
    }
}

/// The largest degree of parallelism that Argon2 takes.
pub const MAX_LANES: u32 = 0xFF_FFFF;

/// Whether the degree of parallelism `p` of an Argon2 parameter string is one
/// that Argon2 takes: none is given, or what is given is no number, or a number
/// up to `MAX_LANES`.
pub open spec fn lanes_fit(params: Seq<char>) -> bool {
    param_reading(params, "p"@, 1, MAX_LANES) != Reading::TooLarge
}

/// `x`, doubled `times` times.
pub open spec fn doubled(x: nat, times: nat) -> nat
    decreases times,
{
    if times == 0 {
        x
    } else {
        2 * doubled(x, (times - 1) as nat)
    }
}

/// The bytes of the largest buffer that scrypt allocates for a parameter
/// string, `128 * r * 2^ln`, where both parameters are numbers that scrypt can
/// take (`ln` defaults to 17, `r` to 8).
pub open spec fn scrypt_buffer(params: Seq<char>) -> Option<nat> {
    match (
        param_reading(params, "ln"@, 17, 255),
        param_reading(params, "r"@, 8, u32::MAX),
    ) {
        (Reading::Number(ln), Reading::Number(r)) => Some(doubled(128 * (r as nat), ln as nat)),
        _ => None,
    }
}

/// Whether scrypt's largest buffer for a parameter string is one that can be
/// asked for at all: no allocation can hold more than `isize::MAX` bytes.
pub open spec fn buffer_fits(params: Seq<char>) -> bool {
    match scrypt_buffer(params) {
        Some(bytes) => bytes <= isize::MAX,
        None => true,
    }
}

/// Whether the verifier of scheme `kind` can be run on a parameter string.
pub open spec fn costs_fit(kind: SchemeKind, params: Seq<char>) -> bool {
    match kind {
        SchemeKind::Argon2 => lanes_fit(params),
        SchemeKind::Scrypt => buffer_fits(params),
        _ => true,
    }
}

/// Whether the verifier of scheme `kind`, run on `hash`, accepts `secret`.
pub open spec fn verifier_accepts(kind: SchemeKind, hash: Seq<char>, secret: Seq<char>) -> bool {
    match kind {
        SchemeKind::Argon2 => argon2_accepts(hash, secret),
        SchemeKind::Pbkdf2 => pbkdf2_accepts(hash, secret),
        SchemeKind::Scrypt => scrypt_accepts(hash, secret),
        SchemeKind::Balloon => balloon_accepts(hash, secret),
    }
}

/// Whether the verifier of scheme `kind` can be run on `hash`: the hash
/// parses, names the scheme, and its costs fit.
pub open spec fn runs_on(kind: SchemeKind, hash: Seq<char>) -> bool {
    match phc_parse(hash) {
        Some(fields) => scheme_named(fields.algorithm) == Some(kind) && costs_fit(
            kind,
            fields.params,
        ),
        None => false,
    }
}

/// Whether scheme `kind` accepts `secret` for `hash`: its verifier can be run
/// on the hash, and accepts.
pub open spec fn scheme_accepts(kind: SchemeKind, hash: Seq<char>, secret: Seq<char>) -> bool {
    runs_on(kind, hash) && verifier_accepts(kind, hash, secret)
}

/// The supported schemes, in a fixed order.
pub open spec fn scheme_order() -> Seq<SchemeKind> {
    seq![SchemeKind::Argon2, SchemeKind::Pbkdf2, SchemeKind::Scrypt, SchemeKind::Balloon]
}

/// The scheme that accepts `secret` for `hash`: the one that the hash names,
/// where that scheme accepts.
pub open spec fn accepted_by(hash: Seq<char>, secret: Seq<char>) -> Option<SchemeKind> {
    match phc_parse(hash) {
        Some(fields) => match scheme_named(fields.algorithm) {
            Some(kind) => if scheme_accepts(kind, hash, secret) {
                Some(kind)
            } else {
                None
            },
            None => None,
        },
        None => None,
    }
}

/// A secret is accepted by at most one scheme: the one that the hash names.
pub proof fn lemma_one_scheme_accepts(kind: SchemeKind, hash: Seq<char>, secret: Seq<char>)
    ensures
        scheme_accepts(kind, hash, secret) <==> accepted_by(hash, secret) == Some(kind),
        scheme_accepts(kind, hash, secret) ==> names_scheme(hash, kind),
{
}

/// Doubling more often gives no less.
pub proof fn lemma_doubled_grows(x: nat, fewer: nat, more: nat)
    requires
        fewer <= more,
    ensures
        doubled(x, fewer) <= doubled(x, more),
    decreases more,
{
    if fewer < more {
        lemma_doubled_grows(x, fewer, (more - 1) as nat);
    }
}

/// Whether `text` parses into a hash with the identifier and the digest of `fields`.
pub open spec fn round_trips(fields: PhcFields, text: Seq<char>) -> bool {
    match phc_parse(text) {
        Some(again) => again.algorithm == fields.algorithm && again.digest == fields.digest,
        None => false,
    }
}

/// The hash string of `fields`, as far as it parses back to the same
/// identifier and digest.
pub open spec fn encoding_of(fields: PhcFields) -> Option<Seq<char>> {
    match phc_string(fields) {
        Some(text) => if round_trips(fields, text) {
            Some(text)
        } else {
            None
        },
        None => None,
    }
}

/// Re-parsing an encoding yields the identifier and the digest bytes that
/// were encoded.
pub proof fn lemma_encoding_round_trips(fields: PhcFields, text: Seq<char>)
    requires
        encoding_of(fields) == Some(text),
    ensures
        phc_parse(text) is Some,
        phc_parse(text)->0.algorithm == fields.algorithm,
        phc_parse(text)->0.digest == fields.digest,
{
}

/// Calls `password_hash::PasswordHash::new` on `text` and copies the fields of
/// the hash it returns: identifier, version, parameter string, salt string and
/// digest bytes. Trusted: the result is what that parser makes of `text`.
#[verifier::external_body]
fn parse_phc(text: &str) -> (r: Option<HashRecord>)
    ensures
        match r {
            Some(record) => phc_parse(text@) == Some(record@),
            None => phc_parse(text@) is None,
        },
{
    match PasswordHash::new(text) {
        Ok(hash) => Some(
            HashRecord {
                algorithm: hash.algorithm.as_str().to_owned(),
                version: hash.version,
                params: hash.params.as_str().to_owned(),
                salt: hash.salt.map(|salt| salt.as_str().to_owned()),
                digest: hash.hash.map(|output| output.as_bytes().to_vec()),
            },
        ),
        Err(_) => None,
    }
}

/// Builds a `password_hash::PasswordHash` from the fields of `record` (with
/// `Ident::new`, `str::parse`, `Salt::from_b64` and `Output::new`) and writes
/// it with its `Display`. Trusted: the result is that text, or `None` where one
/// of the fields is refused.
#[verifier::external_body]
fn write_phc(record: &HashRecord) -> (r: Option<String>)
    ensures
        match r {
            Some(text) => phc_string(record@) == Some(text@),
            None => phc_string(record@) is None,
        },
{
    let hash = PasswordHash {
        algorithm: Ident::new(&record.algorithm).ok()?,
        version: record.version,
        params: record.params.parse().ok()?,
        salt: record.salt.as_deref().map(Salt::from_b64).transpose().ok()?,
        hash: record.digest.as_deref().map(Output::new).transpose().ok()?,
    };
    Some(hash.to_string())
}

/// Calls `PasswordVerifier::verify_password` of `argon2::Argon2::default()` on
/// the bytes of `secret` and the hash parsed from `hash`. Trusted: the answer
/// depends on the two texts alone. The call multiplies the degree of
/// parallelism by eight in 32 bits before it tests it, so it is made only
/// where that degree is at most `MAX_LANES`. It takes the memory and the time
/// that the hash's own parameters ask for.
#[verifier::external_body]
fn argon2_verify(hash: &str, secret: &str) -> (ok: bool)
    requires
        runs_on(SchemeKind::Argon2, hash@),
    ensures
        ok == argon2_accepts(hash@, secret@),
{
    match PasswordHash::new(hash) {
        Ok(parsed) => Argon2::default().verify_password(secret.as_bytes(), &parsed).is_ok(),
        Err(_) => false,
    }
}

/// Calls `PasswordVerifier::verify_password` of `pbkdf2::Pbkdf2` on the bytes
/// of `secret` and the hash parsed from `hash`. Trusted: the answer depends on
/// the two texts alone. The call takes the time that the hash's own parameters
/// ask for.
#[verifier::external_body]
fn pbkdf2_verify(hash: &str, secret: &str) -> (ok: bool)
    requires
        runs_on(SchemeKind::Pbkdf2, hash@),
    ensures
        ok == pbkdf2_accepts(hash@, secret@),
{
    match PasswordHash::new(hash) {
        Ok(parsed) => Pbkdf2.verify_password(secret.as_bytes(), &parsed).is_ok(),
        Err(_) => false,
    }
}

/// Calls `PasswordVerifier::verify_password` of `scrypt::Scrypt` on the bytes
/// of `secret` and the hash parsed from `hash`. Trusted: the answer depends on
/// the two texts alone. The call allocates a buffer of `128 * r * 2^ln` bytes,
/// so it is made only where that is at most `isize::MAX`. It takes the memory
/// and the time that the hash's own parameters ask for.
#[verifier::external_body]
fn scrypt_verify(hash: &str, secret: &str) -> (ok: bool)
    requires
        runs_on(SchemeKind::Scrypt, hash@),
    ensures
        ok == scrypt_accepts(hash@, secret@),
{
    match PasswordHash::new(hash) {
        Ok(parsed) => Scrypt.verify_password(secret.as_bytes(), &parsed).is_ok(),
        Err(_) => false,
    }
}

/// Calls `PasswordVerifier::verify_password` of
/// `balloon_hash::Balloon::<Sha256>::default()` on the bytes of `secret` and
/// the hash parsed from `hash`. Trusted: the answer depends on the two texts
/// alone. The call takes the memory and the time that the hash's own
/// parameters ask for.
#[verifier::external_body]
fn balloon_verify(hash: &str, secret: &str) -> (ok: bool)
    requires
        runs_on(SchemeKind::Balloon, hash@),
    ensures
        ok == balloon_accepts(hash@, secret@),
{
    match PasswordHash::new(hash) {
        Ok(parsed) => Balloon::<Sha256>::default().verify_password(secret.as_bytes(), &parsed).is_ok(),
        Err(_) => false,
    }
}

impl SchemeKind {
    /// The scheme that the identifier `id` names, if it names a supported one.
    pub fn from_identifier(id: &str) -> (r: Option<SchemeKind>)
        ensures
            r == scheme_named(id@),
    {
        if same_text(id, "argon2d") || same_text(id, "argon2i") || same_text(id, "argon2id") {
            Some(SchemeKind::Argon2)
        } else if same_text(id, "pbkdf2-sha256") || same_text(id, "pbkdf2-sha512") {
            Some(SchemeKind::Pbkdf2)
        } else if same_text(id, "scrypt") {
            Some(SchemeKind::Scrypt)
        } else if same_text(id, "balloon") || same_text(id, "balloon-m") {
            Some(SchemeKind::Balloon)
        } else {
            None
        }
    }

    /// The supported schemes, in a fixed order.
    pub fn all() -> (order: [SchemeKind; 4])
        ensures
            order@ == scheme_order(),
    {
        [SchemeKind::Argon2, SchemeKind::Pbkdf2, SchemeKind::Scrypt, SchemeKind::Balloon]
    }

    /// Whether this scheme's verifier can be run on a parameter string: for
    /// Argon2 the degree of parallelism must be one that it takes, for scrypt
    /// the buffer one that can be asked for.
    pub fn takes(self, params: &str) -> (ok: bool)
        ensures
            ok == costs_fit(self, params@),
    {
        match self {
            SchemeKind::Argon2 => lanes_are_fit(params),
            SchemeKind::Scrypt => buffer_is_fit(params),
            _ => true,
        }
    }

    /// Decides whether this scheme accepts `secret` for `hash`: the hash must
    /// parse, name this scheme and have costs that fit; then the scheme's
    /// verifier decides.
    pub fn verify(self, hash: &str, secret: &str) -> (ok: bool)
        ensures
            ok == scheme_accepts(self, hash@, secret@),
            ok ==> names_scheme(hash@, self),
    {
        match HashRecord::parse(hash) {
            Some(record) => self.verify_record(&record, hash, secret),
            None => false,
        }
    }

    /// Decides whether this scheme accepts `secret` for `hash`, which parses
    /// into `record`.
    fn verify_record(self, record: &HashRecord, hash: &str, secret: &str) -> (ok: bool)
        requires
            phc_parse(hash@) == Some(record@),
        ensures
            ok == scheme_accepts(self, hash@, secret@),
    {
        if record.scheme() != Some(self) || !self.takes(record.params.as_str()) {
            return false;
        }
        match self {
            SchemeKind::Argon2 => argon2_verify(hash, secret),
            SchemeKind::Pbkdf2 => pbkdf2_verify(hash, secret),
            SchemeKind::Scrypt => scrypt_verify(hash, secret),
            SchemeKind::Balloon => balloon_verify(hash, secret),
        }
    }
}

/// The number that a parameter string gives parameter `name`, read against
/// `limit`; `default` where the string does not hold the parameter.
pub fn read_param(params: &str, name: &str, default: u32, limit: u32) -> (r: Reading)
    ensures
        r == param_reading(params@, name@, default, limit),
{
    let list = split(params, ',');
    match last_text(&list, name) {
        Some(text) => read_number(text.as_str(), limit),
        None => Reading::Number(default),
    }
}

/// Tests the degree of parallelism of an Argon2 parameter string.
fn lanes_are_fit(params: &str) -> (ok: bool)
    ensures
        ok == lanes_fit(params@),
{
    match read_param(params, "p", 1, MAX_LANES) {
        Reading::TooLarge => false,
        _ => true,
    }
}

/// Tests the size of scrypt's largest buffer for a parameter string.
fn buffer_is_fit(params: &str) -> (ok: bool)
    ensures
        ok == buffer_fits(params@),
{
    let ln = read_param(params, "ln", 17, 255);
    let r = read_param(params, "r", 8, u32::MAX);
    match (ln, r) {
        (Reading::Number(ln), Reading::Number(r)) => {
            let limit: u128 = isize::MAX as u128;
            let mut bytes: u128 = 128 * (r as u128);
            let ghost base = 128 * (r as nat);
            if bytes > limit {
                proof {
                    lemma_doubled_grows(base, 0, ln as nat);
                }
                return false;
            }
            let mut i: u32 = 0;
            while i < ln
                invariant
                    i <= ln,
                    limit == isize::MAX,
                    base == 128 * (r as nat),
                    buffer_fits(params@) == (doubled(base, ln as nat) <= isize::MAX),
                    bytes == doubled(base, i as nat),
                    bytes <= limit,
                decreases ln - i,
            {
                if bytes > limit - bytes {
                    proof {
                        lemma_doubled_grows(base, (i + 1) as nat, ln as nat);
                    }
                    return false;
                }
                bytes = bytes + bytes;
                i = i + 1;
            }
            true
        },
        _ => true,
    }
}

/// Finds the scheme that accepts `secret` for `hash`: the hash is parsed, and
/// the scheme that it names decides.
pub fn first_accepting(hash: &str, secret: &str) -> (r: Option<SchemeKind>)
    ensures
        r == accepted_by(hash@, secret@),
        r matches Some(kind) ==> names_scheme(hash@, kind),
{
    match HashRecord::parse(hash) {
        Some(record) => match record.scheme() {
            Some(kind) => if kind.verify_record(&record, hash, secret) {
                Some(kind)
            } else {
                None
            },
            None => None,
        },
        None => None,
    }
}

impl HashRecord {
    /// Parses a hash string.
    pub fn parse(text: &str) -> (r: Option<HashRecord>)
        ensures
            match r {
                Some(record) => phc_parse(text@) == Some(record@),
                None => phc_parse(text@) is None,
            },
    {
        parse_phc(text)
    }

    /// Writes this record as a hash string. The string is handed out only
    /// after it has been parsed again and found to carry this record's
    /// identifier and digest.
    pub fn encode(&self) -> (r: Option<String>)
        ensures
            match r {
                Some(text) => encoding_of(self@) == Some(text@),
                None => encoding_of(self@) is None,
            },
    {
        match write_phc(self) {
            Some(text) => {
                let again = parse_phc(text.as_str());
                self.confirm(text, again)
            },
            None => None,
        }
    }

    /// Given a candidate encoding `text` and what it parses into, hands `text`
    /// out if and only if it parsed into a record with this record's identifier
    /// and digest.
    pub fn confirm(&self, text: String, again: Option<HashRecord>) -> (r: Option<String>)
        ensures
            r is Some <==> (again matches Some(other) && other@.algorithm == self@.algorithm
                && other@.digest == self@.digest),
            r matches Some(t) ==> t@ == text@,
    {
        match again {
            Some(other) => {
                let same_digest = match (&self.digest, &other.digest) {
                    (Some(a), Some(b)) => same_bytes(a, b),
                    (None, None) => true,
                    _ => false,
                };
                if same_text(self.algorithm.as_str(), other.algorithm.as_str()) && same_digest {
                    Some(text)
                } else {
                    None
                }
            },
            None => None,
        }
    }

    /// The supported scheme that this hash names, if it names one.
    pub fn scheme(&self) -> (r: Option<SchemeKind>)
        ensures
            r == scheme_named(self@.algorithm),
    {
        SchemeKind::from_identifier(self.algorithm.as_str())
    }
}

} // verus!
