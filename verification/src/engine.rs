//! One authentication attempt: the states it passes through, the one thing it
//! asks of its surroundings (the store file's records), and its outcome.

use vstd::prelude::*;
use crate::constants::PamResultCode;
use crate::options::{
    lemma_last_argument_decides, lemma_unnamed_option_absent, option_given, option_name,
    option_value, options_of, parse_options,
};
use crate::text::texts;
use crate::password::{verifies, verify, Password, PasswordView};
use crate::store::{
    entry_views, find_user, hash_parses, hashes_parse, lemma_absent_user_unknown,
    lemma_known_user_has_record, lemma_last_record_wins, CredentialStore, StoreError, UserEntry,
    UserEntryView,
};

verus! {

/// How an attempt ends.
#[derive(Clone, Copy, Debug, PartialEq, Eq, Structural)]
pub enum Outcome {
    /// The user is known, enabled, and the secret matches.
    Success,
    /// The store has no record of the user, or the record is disabled.
    UserNotFound,
    /// The secret does not match the user's stored password.
    WrongSecret,
    /// The store file was read but its content is no store.
    MalformedStore,
    /// The store file could not be opened or read.
    StoreUnreadable,
    /// The options name no store file.
    MissingConfiguration,
}

impl Outcome {
    /// The result code under which the host framework knows this outcome.
    pub open spec fn host_code(self) -> PamResultCode {
        match self {
            Outcome::Success => PamResultCode::PAM_SUCCESS,
            Outcome::UserNotFound => PamResultCode::PAM_USER_UNKNOWN,
            Outcome::WrongSecret => PamResultCode::PAM_AUTH_ERR,
            Outcome::MalformedStore => PamResultCode::PAM_CONV_ERR,
            Outcome::StoreUnreadable => PamResultCode::PAM_SYSTEM_ERR,
            Outcome::MissingConfiguration => PamResultCode::PAM_ABORT,
        }
    }

    /// The result code under which the host framework knows this outcome.
    pub fn result_code(self) -> (code: PamResultCode)
        ensures
            code == self.host_code(),
    {
        match self {
            Outcome::Success => PamResultCode::PAM_SUCCESS,
            Outcome::UserNotFound => PamResultCode::PAM_USER_UNKNOWN,
            Outcome::WrongSecret => PamResultCode::PAM_AUTH_ERR,
            Outcome::MalformedStore => PamResultCode::PAM_CONV_ERR,
            Outcome::StoreUnreadable => PamResultCode::PAM_SYSTEM_ERR,
            Outcome::MissingConfiguration => PamResultCode::PAM_ABORT,
        }
    }
}

/// Only success is reported to the host as success.
pub proof fn lemma_only_success_is_success(outcome: Outcome)
    ensures
        outcome.host_code() == PamResultCode::PAM_SUCCESS <==> outcome == Outcome::Success,
{
}

/// What came of reading the store file.
pub enum StoreLoad {
    /// The file could not be opened or read.
    Unreadable,
    /// The file was read, but its content does not have the layout of a store.
    Malformed,
    /// The records of the file, in file order.
    Loaded(Vec<UserEntry>),
}

/// What came of reading the store file, as mathematical values.
pub ghost enum StoreLoadView {
    Unreadable,
    Malformed,
    Loaded(Seq<UserEntryView>),
}

impl View for StoreLoad {
    type V = StoreLoadView;

    open spec fn view(&self) -> StoreLoadView {
        match self {
            StoreLoad::Unreadable => StoreLoadView::Unreadable,
            StoreLoad::Malformed => StoreLoadView::Malformed,
            StoreLoad::Loaded(entries) => StoreLoadView::Loaded(entry_views(entries@)),
        }
    }
}

/// What the host hands over for one attempt.
pub struct Attempt {
    /// The claimed username.
    pub username: String,
    /// The submitted secret; empty where none was provided.
    pub secret: String,
    /// The configuration strings, `key=value` or bare `key`, in order.
    pub options: Vec<String>,
}

/// An attempt, as mathematical values.
pub ghost struct AttemptView {
    pub username: Seq<char>,
    pub secret: Seq<char>,
    pub options: Seq<Seq<char>>,
}

impl View for Attempt {
    type V = AttemptView;

    open spec fn view(&self) -> AttemptView {
        AttemptView { username: self.username@, secret: self.secret@, options: texts(self.options@) }
    }
}

/// Where an attempt stands.
pub enum State {
    Start,
    ParsingOptions,
    /// Waiting for the records of the store file at `path`.
    LoadingStore { path: String },
    LookingUpUser { store: CredentialStore },
    VerifyingSecret { password: Password },
    Done(Outcome),
}

/// A state, as mathematical values.
pub ghost enum StateView {
    Start,
    ParsingOptions,
    LoadingStore(Seq<char>),
    LookingUpUser(Seq<UserEntryView>),
    VerifyingSecret(PasswordView),
    Done(Outcome),
}

impl View for State {
    type V = StateView;

    open spec fn view(&self) -> StateView {
        match self {
            State::Start => StateView::Start,
            State::ParsingOptions => StateView::ParsingOptions,
            State::LoadingStore { path } => StateView::LoadingStore(path@),
            State::LookingUpUser { store } => StateView::LookingUpUser(store@),
            State::VerifyingSecret { password } => StateView::VerifyingSecret(password@),
            State::Done(outcome) => StateView::Done(*outcome),
        }
    }
}

impl StateView {
    /// How many transitions the state is away from `Done`, at most.
    pub open spec fn rank(self) -> nat {
        match self {
            StateView::Start => 5,
            StateView::ParsingOptions => 4,
            StateView::LoadingStore(_) => 3,
            StateView::LookingUpUser(_) => 2,
            StateView::VerifyingSecret(_) => 1,
            StateView::Done(_) => 0,
        }
    }
}

/// What a state asks of the attempt's surroundings.
pub enum Action {
    /// Nothing: the next transition needs no input.
    Continue,
    /// Read the store file at this path and hand its records over.
    ReadStore(String),
    /// Report this outcome to the host; the attempt is over.
    Report(Outcome),
}

/// The path of the store file that the options name: the value of `db`.
pub open spec fn db_path(options: Seq<Seq<char>>) -> Option<Seq<char>> {
    option_given(options_of(options), "db"@)
}

/// The state that follows `state`. Only `LoadingStore` looks at `load`, and
/// stays as it is until there is one; `Done` is final.
pub open spec fn next(attempt: AttemptView, state: StateView, load: Option<StoreLoadView>) -> StateView {
    match state {
        StateView::Start => StateView::ParsingOptions,
        StateView::ParsingOptions => match db_path(attempt.options) {
            Some(path) => StateView::LoadingStore(path),
            None => StateView::Done(Outcome::MissingConfiguration),
        },
        StateView::LoadingStore(path) => match load {
            None => StateView::LoadingStore(path),
            Some(StoreLoadView::Unreadable) => StateView::Done(Outcome::StoreUnreadable),
            Some(StoreLoadView::Malformed) => StateView::Done(Outcome::MalformedStore),
            Some(StoreLoadView::Loaded(entries)) => if hashes_parse(entries) {
                StateView::LookingUpUser(entries)
            } else {
                StateView::Done(Outcome::MalformedStore)
            },
        },
        StateView::LookingUpUser(entries) => match find_user(entries, attempt.username) {
            None => StateView::Done(Outcome::UserNotFound),
            Some(entry) => if entry.is_disabled() {
                StateView::Done(Outcome::UserNotFound)
            } else {
                StateView::VerifyingSecret(entry.password)
            },
        },
        StateView::VerifyingSecret(password) => if verifies(attempt.secret, password) {
            StateView::Done(Outcome::Success)
        } else {
            StateView::Done(Outcome::WrongSecret)
        },
        StateView::Done(outcome) => StateView::Done(outcome),
    }
}

/// The outcome of an attempt, given what reading the store file yields.
pub open spec fn outcome_of(attempt: AttemptView, load: StoreLoadView) -> Outcome {
    match db_path(attempt.options) {
        None => Outcome::MissingConfiguration,
        Some(_) => match load {
            StoreLoadView::Unreadable => Outcome::StoreUnreadable,
            StoreLoadView::Malformed => Outcome::MalformedStore,
            StoreLoadView::Loaded(entries) => if !hashes_parse(entries) {
                Outcome::MalformedStore
            } else {
                match find_user(entries, attempt.username) {
                    None => Outcome::UserNotFound,
                    Some(entry) => if entry.is_disabled() {
                        Outcome::UserNotFound
                    } else if verifies(attempt.secret, entry.password) {
                        Outcome::Success
                    } else {
                        Outcome::WrongSecret
                    },
                }
            },
        },
    }
}

/// The state after `steps` transitions from `state`, with `load` at hand.
pub open spec fn after(attempt: AttemptView, state: StateView, load: StoreLoadView, steps: nat) -> StateView
    decreases steps,
{
    if steps == 0 {
        state
    } else {
        after(attempt, next(attempt, state, Some(load)), load, (steps - 1) as nat)
    }
}

/// One pass through the machine: five transitions from `Start` end in `Done`
/// with the attempt's outcome.
pub proof fn lemma_one_pass(attempt: AttemptView, load: StoreLoadView)
    ensures
        after(attempt, StateView::Start, load, 5) == StateView::Done(outcome_of(attempt, load)),
{
    reveal_with_fuel(after, 6);
}

/// `Done` is final: no number of transitions leads away from it.
pub proof fn lemma_done_is_final(
    attempt: AttemptView,
    outcome: Outcome,
    load: StoreLoadView,
    steps: nat,
)
    ensures
        after(attempt, StateView::Done(outcome), load, steps) == StateView::Done(outcome),
    decreases steps,
{
    if steps > 0 {
        lemma_done_is_final(attempt, outcome, load, (steps - 1) as nat);
    }
}

/// Every transition with the store's records at hand brings a state that is
/// not `Done` closer to `Done`, and `Done` stays as it is.
pub proof fn lemma_no_state_is_revisited(attempt: AttemptView, state: StateView, load: StoreLoadView)
    ensures
        state is Done ==> next(attempt, state, Some(load)) == state,
        !(state is Done) ==> next(attempt, state, Some(load)).rank() < state.rank(),
{
}

/// An attempt succeeds only where a store file is named, its records are a
/// store, the user's record is found and not disabled, and the secret matches
/// the password of that record.
pub proof fn lemma_success_is_earned(attempt: AttemptView, load: StoreLoadView)
    requires
        outcome_of(attempt, load) == Outcome::Success,
    ensures
        db_path(attempt.options) is Some,
        load is Loaded,
        hashes_parse(load->Loaded_0),
        find_user(load->Loaded_0, attempt.username) is Some,
        find_user(load->Loaded_0, attempt.username)->0.username == attempt.username,
        !find_user(load->Loaded_0, attempt.username)->0.is_disabled(),
        verifies(attempt.secret, find_user(load->Loaded_0, attempt.username)->0.password),
{
    lemma_known_user_has_record(load->Loaded_0, attempt.username);
}

/// A username that no record of the store carries ends the lookup in
/// `UserNotFound`, whatever the secret.
pub proof fn lemma_absent_user_not_found(
    attempt: AttemptView,
    entries: Seq<UserEntryView>,
    load: Option<StoreLoadView>,
)
    requires
        forall|i: int| 0 <= i < entries.len() ==> (#[trigger] entries[i]).username != attempt.username,
    ensures
        next(attempt, StateView::LookingUpUser(entries), load) == StateView::Done(
            Outcome::UserNotFound,
        ),
        outcome_of(attempt, StoreLoadView::Loaded(entries)) != Outcome::WrongSecret,
        outcome_of(attempt, StoreLoadView::Loaded(entries)) != Outcome::Success,
        db_path(attempt.options) is Some && hashes_parse(entries) ==> outcome_of(
            attempt,
            StoreLoadView::Loaded(entries),
        ) == Outcome::UserNotFound,
{
    lemma_absent_user_unknown(entries, attempt.username);
}

/// A user whose record is disabled is not found, even with the right secret.
pub proof fn lemma_disabled_user_not_found(
    attempt: AttemptView,
    entries: Seq<UserEntryView>,
    i: int,
    load: Option<StoreLoadView>,
)
    requires
        0 <= i < entries.len(),
        entries[i].username == attempt.username,
        entries[i].is_disabled(),
        forall|j: int| i < j < entries.len() ==> (#[trigger] entries[j]).username != attempt.username,
    ensures
        next(attempt, StateView::LookingUpUser(entries), load) == StateView::Done(
            Outcome::UserNotFound,
        ),
        outcome_of(attempt, StoreLoadView::Loaded(entries)) != Outcome::WrongSecret,
        outcome_of(attempt, StoreLoadView::Loaded(entries)) != Outcome::Success,
        db_path(attempt.options) is Some && hashes_parse(entries) ==> outcome_of(
            attempt,
            StoreLoadView::Loaded(entries),
        ) == Outcome::UserNotFound,
{
    lemma_last_record_wins(entries, i);
}

/// Without an argument that names `db` the outcome is `MissingConfiguration`,
/// whatever the other options, the user, the secret and the store.
pub proof fn lemma_missing_db(attempt: AttemptView, load: StoreLoadView)
    requires
        forall|i: int|
            0 <= i < attempt.options.len() ==> option_name(#[trigger] attempt.options[i]) != "db"@,
    ensures
        outcome_of(attempt, load) == Outcome::MissingConfiguration,
        next(attempt, StateView::ParsingOptions, Some(load)) == StateView::Done(
            Outcome::MissingConfiguration,
        ),
{
    lemma_unnamed_option_absent(attempt.options, "db"@);
}

/// An argument that names `db` without giving it a value, and is the last to
/// name it, leaves the configuration missing as well.
pub proof fn lemma_db_without_value(attempt: AttemptView, i: int, load: StoreLoadView)
    requires
        0 <= i < attempt.options.len(),
        option_name(attempt.options[i]) == "db"@,
        option_value(attempt.options[i]) is None,
        forall|j: int|
            i < j < attempt.options.len() ==> option_name(#[trigger] attempt.options[j]) != "db"@,
    ensures
        outcome_of(attempt, load) == Outcome::MissingConfiguration,
{
    lemma_last_argument_decides(attempt.options, i);
}

/// With a store file named, a file that cannot be read ends the attempt in
/// `StoreUnreadable`, and content that is no store in `MalformedStore`.
pub proof fn lemma_store_failures(attempt: AttemptView, entries: Seq<UserEntryView>)
    requires
        db_path(attempt.options) is Some,
    ensures
        outcome_of(attempt, StoreLoadView::Unreadable) == Outcome::StoreUnreadable,
        outcome_of(attempt, StoreLoadView::Malformed) == Outcome::MalformedStore,
        !hashes_parse(entries) ==> outcome_of(attempt, StoreLoadView::Loaded(entries))
            == Outcome::MalformedStore,
{
}

impl State {
    /// Well-formedness: a store in a state is a well-formed store.
    pub open spec fn wf(&self) -> bool {
        match self {
            State::LookingUpUser { store } => store.wf(),
            _ => true,
        }
    }

    /// What this state asks of the attempt's surroundings.
    pub fn action(&self) -> (a: Action)
        ensures
            match a {
                Action::Continue => !(self@ is LoadingStore) && !(self@ is Done),
                Action::ReadStore(path) => self@ == StateView::LoadingStore(path@),
                Action::Report(outcome) => self@ == StateView::Done(outcome),
            },
    {
        match self {
            State::LoadingStore { path } => Action::ReadStore(path.clone()),
            State::Done(outcome) => Action::Report(*outcome),
            _ => Action::Continue,
        }
    }

    /// The outcome, once the attempt is over.
    pub fn outcome(&self) -> (r: Option<Outcome>)
        ensures
            match r {
                Some(outcome) => self@ == StateView::Done(outcome),
                None => !(self@ is Done),
            },
    {
        match self {
            State::Done(outcome) => Some(*outcome),
            _ => None,
        }
    }
}

/// The view of an optional store load.
pub open spec fn load_view(load: Option<StoreLoad>) -> Option<StoreLoadView> {
    match load {
        Some(l) => Some(l@),
        None => None,
    }
}

/// The path of the store file that a list of options names, if it names one.
pub fn store_path(options: &Vec<String>) -> (r: Option<String>)
    ensures
        match r {
            Some(path) => db_path(texts(options@)) == Some(path@),
            None => db_path(texts(options@)) is None,
        },
{
    let map = parse_options(options);
    match map.value("db") {
        Some(path) => Some(path.clone()),
        None => None,
    }
}

impl Attempt {
    /// Makes one transition from `state`. `load` is what reading the store
    /// file yielded, for the one state that waits for it.
    pub fn step(&self, state: State, load: Option<StoreLoad>) -> (following: State)
        requires
            state.wf(),
        ensures
            following.wf(),
            following@ == next(self@, state@, load_view(load)),
    {
        match state {
            State::Start => State::ParsingOptions,
            State::ParsingOptions => match store_path(&self.options) {
                Some(path) => State::LoadingStore { path },
                None => State::Done(Outcome::MissingConfiguration),
            },
            State::LoadingStore { path } => match load {
                None => State::LoadingStore { path },
                Some(StoreLoad::Unreadable) => State::Done(Outcome::StoreUnreadable),
                Some(StoreLoad::Malformed) => State::Done(Outcome::MalformedStore),
                Some(StoreLoad::Loaded(entries)) => {
                    let ghost views = entry_views(entries@);
                    match CredentialStore::new(entries) {
                        Ok(store) => State::LookingUpUser { store },
                        Err(StoreError::InvalidHash(i)) => {
                            assert(!hash_parses(views[i as int]));
                            State::Done(Outcome::MalformedStore)
                        },
                    }
                },
            },
            State::LookingUpUser { store } => match store.lookup(self.username.as_str()) {
                None => State::Done(Outcome::UserNotFound),
                Some(entry) => match entry.disabled {
                    Some(true) => State::Done(Outcome::UserNotFound),
                    _ => State::VerifyingSecret { password: entry.password.duplicate() },
                },
            },
            State::VerifyingSecret { password } => if verify(self.secret.as_str(), &password) {
                State::Done(Outcome::Success)
            } else {
                State::Done(Outcome::WrongSecret)
            },
            State::Done(outcome) => State::Done(outcome),
        }
    }

    /// Runs the attempt from `Start` to its outcome, with `load` as what
    /// reading the store file yields.
    pub fn run(&self, load: StoreLoad) -> (outcome: Outcome)
        ensures
            outcome == outcome_of(self@, load@),
    {
        let ghost given = load@;
        let mut state = State::Start;
        let mut load = Some(load);
        proof {
            lemma_one_pass(self@, given);
        }
        while state.outcome().is_none()
            invariant
                state.wf(),
                state@.rank() >= 3 ==> load_view(load) == Some(given),
                after(self@, state@, given, state@.rank()) == StateView::Done(
                    outcome_of(self@, given),
                ),
            decreases state@.rank(),
        {
            let ghost before = state@;
            let hand_over = match state {
                State::LoadingStore { .. } => load.take(),
                _ => None,
            };
            state = self.step(state, hand_over);
            proof {
                if let StateView::Done(outcome) = state@ {
                    lemma_done_is_final(self@, outcome, given, (before.rank() - 1) as nat);
                }
            }
        }
        match state.outcome() {
            Some(outcome) => outcome,
            None => Outcome::MissingConfiguration,
        }
    }
}

} // verus!
