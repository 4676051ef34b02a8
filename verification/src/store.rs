//! The credential store: the user records of one file, in file order, and the
//! lookup of a user in them. Of several records with one username the last
//! one in the file is the user's record; the earlier ones are never consulted.

use vstd::prelude::*;
use crate::hash::{phc_parse, HashRecord};
use crate::password::{Password, PasswordView};
use crate::text::same_text;

verus! {

/// One user record of the store.
#[derive(Clone, Debug, PartialEq, Eq)]
pub struct UserEntry {
    pub username: String,
    pub password: Password,
    /// `Some(true)` disables the user; an absent field does not.
    pub disabled: Option<bool>,
}

/// A user record, as mathematical values.
pub ghost struct UserEntryView {
    pub username: Seq<char>,
    pub password: PasswordView,
    pub disabled: Option<bool>,
}

impl View for UserEntry {
    type V = UserEntryView;

    open spec fn view(&self) -> UserEntryView {
        UserEntryView {
            username: self.username@,
            password: self.password@,
            disabled: self.disabled,
        }
    }
}

impl UserEntryView {
    /// Whether the record is marked as disabled.
    pub open spec fn is_disabled(self) -> bool {
        self.disabled == Some(true)
    }
}

/// The records of a list, as mathematical values.
pub open spec fn entry_views(entries: Seq<UserEntry>) -> Seq<UserEntryView> {
    Seq::new(entries.len(), |i: int| entries[i]@)
}

/// Whether the password of `entry` is well-formed: a hash must parse.
pub open spec fn hash_parses(entry: UserEntryView) -> bool {
    match entry.password {
        PasswordView::Raw(_) => true,
        PasswordView::Encrypted(hash) => phc_parse(hash) is Some,
    }
}

/// Whether every hash among the records parses.
pub open spec fn hashes_parse(entries: Seq<UserEntryView>) -> bool {
    forall|i: int| 0 <= i < entries.len() ==> hash_parses(#[trigger] entries[i])
}

/// The users of a list of records by name: records are taken in order, so of
/// two with the same username the later one stays.
pub open spec fn users_of(entries: Seq<UserEntryView>) -> Map<Seq<char>, UserEntryView>
    decreases entries.len(),
{
    if entries.len() == 0 {
        Map::empty()
    } else {
        users_of(entries.drop_last()).insert(entries.last().username, entries.last())
    }
}

/// The record of user `name`, if the store knows the user.
pub open spec fn find_user(entries: Seq<UserEntryView>, name: Seq<char>) -> Option<UserEntryView> {
    if users_of(entries).contains_key(name) {
        Some(users_of(entries)[name])
    } else {
        None
    }
}

/// The last record with a username is that user's record.
pub proof fn lemma_last_record_wins(entries: Seq<UserEntryView>, i: int)
    requires
        0 <= i < entries.len(),
        forall|j: int| i < j < entries.len() ==> (#[trigger] entries[j]).username != entries[i].username,
    ensures
        find_user(entries, entries[i].username) == Some(entries[i]),
    decreases entries.len(),
{
    if i < entries.len() - 1 {
        lemma_last_record_wins(entries.drop_last(), i);
    }
}

/// A username that no record carries is unknown to the store.
pub proof fn lemma_absent_user_unknown(entries: Seq<UserEntryView>, name: Seq<char>)
    requires
        forall|i: int| 0 <= i < entries.len() ==> (#[trigger] entries[i]).username != name,
    ensures
        find_user(entries, name) is None,
    decreases entries.len(),
{
    if entries.len() > 0 {
        lemma_absent_user_unknown(entries.drop_last(), name);
    }
}

/// A user that the store knows has a record in the list, under that name.
pub proof fn lemma_known_user_has_record(entries: Seq<UserEntryView>, name: Seq<char>)
    requires
        find_user(entries, name) is Some,
    ensures
        exists|i: int|
            0 <= i < entries.len() && #[trigger] entries[i] == find_user(entries, name)->0
                && entries[i].username == name,
    decreases entries.len(),
{
    if entries.len() > 0 && entries.last().username != name {
        lemma_known_user_has_record(entries.drop_last(), name);
    }
}

/// Why a list of records is no store.
#[derive(Clone, Copy, Debug, PartialEq, Eq, Structural)]
pub enum StoreError {
    /// The record at this position holds a hash string that does not parse.
    InvalidHash(usize),
}

/// The user records of one store file, every hash among them well-formed.
pub struct CredentialStore {
    entries: Vec<UserEntry>,
}

impl View for CredentialStore {
    type V = Seq<UserEntryView>;

    closed spec fn view(&self) -> Seq<UserEntryView> {
        entry_views(self.entries@)
    }
}

impl CredentialStore {
    /// Well-formedness: every hash among the records parses.
    pub open spec fn wf(&self) -> bool {
        hashes_parse(self@)
    }

    /// Takes the records of a file as a store. The records are refused where
    /// one of them holds a hash string that does not parse; the error names
    /// the first such record.
    pub fn new(entries: Vec<UserEntry>) -> (r: Result<CredentialStore, StoreError>)
        ensures
            match r {
                Ok(store) => {
                    &&& store.wf()
                    &&& store@ == entry_views(entries@)
                    &&& hashes_parse(entry_views(entries@))
                },
                Err(StoreError::InvalidHash(i)) => {
                    &&& i < entries@.len()
                    &&& !hash_parses(entries@[i as int]@)
                    &&& forall|j: int| 0 <= j < i ==> hash_parses(#[trigger] entries@[j]@)
                },
            },
    {
        let mut i: usize = 0;
        while i < entries.len()
            invariant
                i <= entries@.len(),
                forall|j: int| 0 <= j < i ==> hash_parses(#[trigger] entries@[j]@),
            decreases entries@.len() - i,
        {
            match &entries[i].password {
                Password::Raw(_) => {},
                Password::Encrypted(hash) => {
                    if HashRecord::parse(hash.as_str()).is_none() {
                        return Err(StoreError::InvalidHash(i));
                    }
                },
            }
            i = i + 1;
        }
        Ok(CredentialStore { entries })
    }

    /// The number of records, duplicates included.
    pub fn len(&self) -> (n: usize)
        ensures
            n == self@.len(),
    {
        self.entries.len()
    }

    /// Looks up the record of user `username`.
    pub fn lookup(&self, username: &str) -> (r: Option<&UserEntry>)
        ensures
            match r {
                Some(entry) => find_user(self@, username@) == Some(entry@) && entry@.username
                    == username@,
                None => find_user(self@, username@) is None,
            },
            self.wf() && r is Some ==> hash_parses(r->0@),
    {
        let ghost views = self@;
        let mut i: usize = self.entries.len();
        while i > 0
            invariant
                i <= self.entries@.len(),
                views == entry_views(self.entries@),
                forall|j: int| i <= j < views.len() ==> (#[trigger] views[j]).username != username@,
            decreases i,
        {
            i = i - 1;
            if same_text(self.entries[i].username.as_str(), username) {
                proof {
                    lemma_last_record_wins(views, i as int);
                }
                return Some(&self.entries[i]);
            }
        }
        proof {
            lemma_absent_user_unknown(views, username@);
        }
        None
    }
}

} // verus!
