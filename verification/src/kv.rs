//! The authentication hook of the key-value module: everything that the hook
//! decides, as a function of what the host and the store file handed over.

use vstd::prelude::*;
use crate::constants::PamResultCode;
use crate::engine::{
    db_path, lemma_only_success_is_success, outcome_of, store_path, Attempt, AttemptView, Outcome,
    StoreLoad, StoreLoadView,
};
use crate::hash::{accepted_by, encoding_of, phc_parse, PhcFields};
use crate::module::{token_in, user_in, HostReply, PamHandle, PamResult};
use crate::text::texts;
use crate::password::PasswordView;
use crate::store::{hash_parses, hashes_parse, lemma_last_record_wins, UserEntryView};

verus! {

/// The module that authenticates users against a credential store file.
pub struct PamKeyValue;

/// The attempt that the hook makes of the host's answers, where both are
/// usable. No token stands for the empty secret.
pub open spec fn attempt_from(
    user: HostReply,
    authtok: HostReply,
    args: Seq<Seq<char>>,
) -> Option<AttemptView> {
    match (user_in(user), token_in(authtok)) {
        (Ok(name), Ok(token)) => Some(
            AttemptView {
                username: name,
                secret: match token {
                    Some(text) => text,
                    None => Seq::empty(),
                },
                options: args,
            },
        ),
        _ => None,
    }
}

/// What the hook reports. In this order: without a store file named, an
/// abort; where the host fails to name the user, or to hand over the token,
/// the host's code; else the attempt's outcome.
pub open spec fn hook_result(
    user: HostReply,
    authtok: HostReply,
    args: Seq<Seq<char>>,
    load: StoreLoadView,
) -> Result<(), PamResultCode> {
    if db_path(args) is None {
        Err(PamResultCode::PAM_ABORT)
    } else {
        match user_in(user) {
            Err(code) => Err(code),
            Ok(_) => match token_in(authtok) {
                Err(code) => Err(code),
                Ok(_) => {
                    let outcome = outcome_of(attempt_from(user, authtok, args)->0, load);
                    if outcome == Outcome::Success {
                        Ok(())
                    } else {
                        Err(outcome.host_code())
                    }
                },
            },
        }
    }
}

/// Whether the hook has everything that success takes: a store file is named,
/// the host named the user and handed over the token, and the attempt made of
/// them ends in success.
pub open spec fn hook_succeeds(
    user: HostReply,
    authtok: HostReply,
    args: Seq<Seq<char>>,
    load: StoreLoadView,
) -> bool {
    &&& db_path(args) is Some
    &&& user_in(user) is Ok
    &&& token_in(authtok) is Ok
    &&& outcome_of(attempt_from(user, authtok, args)->0, load) == Outcome::Success
}

/// The hook reports success exactly where it has everything that success
/// takes, and no error of the hook carries the code of success.
pub proof fn lemma_hook_success_is_earned(
    user: HostReply,
    authtok: HostReply,
    args: Seq<Seq<char>>,
    load: StoreLoadView,
)
    ensures
        hook_result(user, authtok, args, load) is Ok <==> hook_succeeds(user, authtok, args, load),
        hook_result(user, authtok, args, load) matches Err(code) ==> code
            != PamResultCode::PAM_SUCCESS,
{
    if db_path(args) is Some && user_in(user) is Ok && token_in(authtok) is Ok {
        lemma_only_success_is_success(outcome_of(attempt_from(user, authtok, args)->0, load));
    }
}

/// Where the user's record holds a hash, the verifiers of the supported
/// schemes decide: the hook succeeds if one of them accepts the secret for the
/// hash, and reports an authentication error if none does.
pub proof fn lemma_hook_follows_the_verifiers(
    user: HostReply,
    authtok: HostReply,
    args: Seq<Seq<char>>,
    entries: Seq<UserEntryView>,
    i: int,
    hash: Seq<char>,
)
    requires
        db_path(args) is Some,
        attempt_from(user, authtok, args) is Some,
        hashes_parse(entries),
        0 <= i < entries.len(),
        entries[i].username == attempt_from(user, authtok, args)->0.username,
        forall|j: int|
            i < j < entries.len() ==> (#[trigger] entries[j]).username != entries[i].username,
        !entries[i].is_disabled(),
        entries[i].password == PasswordView::Encrypted(hash),
    ensures
        hook_result(user, authtok, args, StoreLoadView::Loaded(entries)) == (if accepted_by(
            hash,
            attempt_from(user, authtok, args)->0.secret,
        ) is Some {
            Ok::<(), PamResultCode>(())
        } else {
            Err::<(), PamResultCode>(PamResultCode::PAM_AUTH_ERR)
        }),
{
    lemma_last_record_wins(entries, i);
    assert(hash_parses(entries[i]));
}

/// A hash string that the library encoded can stand in a store: it parses.
pub proof fn lemma_encoded_hash_is_storable(fields: PhcFields, text: Seq<char>, entry: UserEntryView)
    requires
        encoding_of(fields) == Some(text),
        entry.password == PasswordView::Encrypted(text),
    ensures
        hash_parses(entry),
        phc_parse(text)->0.algorithm == fields.algorithm,
        phc_parse(text)->0.digest == fields.digest,
{
}

impl PamKeyValue {
    /// The hook's first step: the path of the store file that the options
    /// name, or an abort where they name none.
    pub fn store_file(args: &Vec<String>) -> (r: PamResult<String>)
        ensures
            match r {
                Ok(path) => db_path(texts(args@)) == Some(path@),
                Err(code) => db_path(texts(args@)) is None && code == PamResultCode::PAM_ABORT,
            },
    {
        match store_path(args) {
            Some(path) => Ok(path),
            None => Err(PamResultCode::PAM_ABORT),
        }
    }

    /// Authenticates the user of the session `pamh` under the options `args`,
    /// with `load` as what reading the store file yielded. Success is reported
    /// only where a store file is named, the host named the user and handed
    /// over the token, the store was loaded, and the secret matches the
    /// password of the user's enabled record; every failure carries a code
    /// other than that of success.
    pub fn sm_authenticate(pamh: &PamHandle, args: Vec<String>, load: StoreLoad) -> (r: PamResult<()>)
        ensures
            r == hook_result(pamh.user, pamh.authtok, texts(args@), load@),
            r is Ok <==> hook_succeeds(pamh.user, pamh.authtok, texts(args@), load@),
            r matches Err(code) ==> code != PamResultCode::PAM_SUCCESS,
    {
        proof {
            lemma_hook_success_is_earned(pamh.user, pamh.authtok, texts(args@), load@);
        }
        if let Err(code) = PamKeyValue::store_file(&args) {
            return Err(code);
        }
        let username = match pamh.get_user() {
            Ok(name) => name,
            Err(code) => {
                return Err(code);
            },
        };
        let secret = match pamh.get_authtok() {
            Ok(Some(token)) => token,
            Ok(None) => String::new(),
            Err(code) => {
                return Err(code);
            },
        };
        let attempt = Attempt { username, secret, options: args };
        match attempt.run(load) {
            Outcome::Success => Ok(()),
            outcome => Err(outcome.result_code()),
        }
    }
}

} // verus!
