//! What a module makes of the host's answers: the result of a call into the
//! host is a result code and, sometimes, a value; these functions turn the pair
//! into a `PamResult`.

use vstd::prelude::*;
use vstd::utf8::{decode_utf8, valid_utf8};
use crate::constants::PamResultCode;
use crate::text::{blank, is_blank};

verus! {

/// The result of a call into the host: a value, or the code of the failure.
pub type PamResult<T> = Result<T, PamResultCode>;

/// Log levels as defined in the syslog(3) manual page.
#[derive(Clone, Copy, Debug, PartialEq, Eq, Structural)]
pub enum LogLevel {
    /// System is unusable.
    Emergency,
    /// Action must be taken immediately.
    Alert,
    /// Critical conditions.
    Critical,
    /// Error conditions.
    Error,
    /// Warning conditions.
    Warning,
    /// Normal, but significant, condition.
    Notice,
    /// Informational message.
    Info,
    /// Debug-level message.
    Debug,
}

impl LogLevel {
    /// The priority that syslog gives this level.
    pub open spec fn number(self) -> int {
        match self {
            LogLevel::Emergency => 0,
            LogLevel::Alert => 1,
            LogLevel::Critical => 2,
            LogLevel::Error => 3,
            LogLevel::Warning => 4,
            LogLevel::Notice => 5,
            LogLevel::Info => 6,
            LogLevel::Debug => 7,
        }
    }

    /// The priority that syslog gives this level.
    pub fn priority(self) -> (n: i32)
        ensures
            n == self.number(),
            0 <= n <= 7,
    {
        match self {
            LogLevel::Emergency => 0,
            LogLevel::Alert => 1,
            LogLevel::Critical => 2,
            LogLevel::Error => 3,
            LogLevel::Warning => 4,
            LogLevel::Notice => 5,
            LogLevel::Info => 6,
            LogLevel::Debug => 7,
        }
    }
}

/// The answer of the host to a request for a text: the result code of the
/// call and the bytes that it handed over, where it handed any.
#[derive(Clone, Debug, PartialEq, Eq)]
pub struct HostReply {
    pub code: PamResultCode,
    pub bytes: Option<Vec<u8>>,
}

/// The code of a failure: the code itself, unless it is the code of success,
/// which no failure carries; a service error stands in for that.
pub open spec fn failure_code(code: PamResultCode) -> PamResultCode {
    if code == PamResultCode::PAM_SUCCESS {
        PamResultCode::PAM_SERVICE_ERR
    } else {
        code
    }
}

/// The bytes of an optional answer, or the code in its place.
pub open spec fn bytes_view(reply: PamResult<Option<Vec<u8>>>) -> Result<
    Option<Seq<u8>>,
    PamResultCode,
> {
    match reply {
        Ok(Some(bytes)) => Ok(Some(bytes@)),
        Ok(None) => Ok(None),
        Err(code) => Err(code),
    }
}

/// The user name in an answer of the host. A failed call is an error with its
/// own code; a successful call that hands over no name leaves the user
/// unknown; bytes that are no UTF-8 are a conversation error.
pub open spec fn user_in(reply: HostReply) -> Result<Seq<char>, PamResultCode> {
    if reply.code == PamResultCode::PAM_SUCCESS {
        match reply.bytes {
            Some(bytes) => if valid_utf8(bytes@) {
                Ok(decode_utf8(bytes@))
            } else {
                Err(PamResultCode::PAM_CONV_ERR)
            },
            None => Err(PamResultCode::PAM_USER_UNKNOWN),
        }
    } else {
        Err(reply.code)
    }
}

/// The authentication token in an answer of the host. A successful answer
/// without bytes, or with a blank text, holds no token.
pub open spec fn token_in(reply: HostReply) -> Result<Option<Seq<char>>, PamResultCode> {
    if reply.code == PamResultCode::PAM_SUCCESS {
        match reply.bytes {
            Some(bytes) => if !valid_utf8(bytes@) {
                Err(PamResultCode::PAM_CONV_ERR)
            } else if blank(decode_utf8(bytes@)) {
                Ok(None)
            } else {
                Ok(Some(decode_utf8(bytes@)))
            },
            None => Ok(None),
        }
    } else {
        Err(reply.code)
    }
}

/// Calls `String::from_utf8` on a copy of `bytes`. Trusted: the call succeeds
/// exactly on well-formed UTF-8, and the string then holds the characters that
/// the bytes encode.
#[verifier::external_body]
pub(crate) fn text_from_utf8(bytes: &Vec<u8>) -> (r: Option<String>)
    ensures
        r is Some <==> valid_utf8(bytes@),
        r matches Some(text) ==> text@ == decode_utf8(bytes@),
{
    String::from_utf8(bytes.clone()).ok()
}

impl HostReply {
    /// Reads the answer as a user name. An error never carries the code of
    /// success.
    pub fn user(&self) -> (r: PamResult<String>)
        ensures
            match r {
                Ok(name) => user_in(*self) == Ok::<Seq<char>, PamResultCode>(name@),
                Err(code) => user_in(*self) == Err::<Seq<char>, PamResultCode>(code),
            },
            r is Ok ==> self.code == PamResultCode::PAM_SUCCESS && self.bytes is Some,
            r matches Err(code) ==> code != PamResultCode::PAM_SUCCESS,
    {
        if self.code == PamResultCode::PAM_SUCCESS {
            match &self.bytes {
                Some(bytes) => match text_from_utf8(bytes) {
                    Some(name) => Ok(name),
                    None => Err(PamResultCode::PAM_CONV_ERR),
                },
                None => Err(PamResultCode::PAM_USER_UNKNOWN),
            }
        } else {
            Err(self.code)
        }
    }

    /// Reads the answer as an authentication token. An error never carries
    /// the code of success.
    pub fn token(&self) -> (r: PamResult<Option<String>>)
        ensures
            match r {
                Ok(Some(token)) => token_in(*self) == Ok::<Option<Seq<char>>, PamResultCode>(
                    Some(token@),
                ),
                Ok(None) => token_in(*self) == Ok::<Option<Seq<char>>, PamResultCode>(None),
                Err(code) => token_in(*self) == Err::<Option<Seq<char>>, PamResultCode>(code),
            },
            r is Ok ==> self.code == PamResultCode::PAM_SUCCESS,
            r matches Err(code) ==> code != PamResultCode::PAM_SUCCESS,
    {
        if self.code == PamResultCode::PAM_SUCCESS {
            match &self.bytes {
                Some(bytes) => match text_from_utf8(bytes) {
                    Some(token) => if is_blank(token.as_str()) {
                        Ok(None)
                    } else {
                        Ok(Some(token))
                    },
                    None => Err(PamResultCode::PAM_CONV_ERR),
                },
                None => Ok(None),
            }
        } else {
            Err(self.code)
        }
    }
}

/// What the host session handed over for one attempt: its answers to the
/// requests for the user name and for the authentication token.
pub struct PamHandle {
    pub user: HostReply,
    pub authtok: HostReply,
}

impl PamHandle {
    /// The name of the user who is authenticating.
    pub fn get_user(&self) -> (r: PamResult<String>)
        ensures
            match r {
                Ok(name) => user_in(self.user) == Ok::<Seq<char>, PamResultCode>(name@),
                Err(code) => user_in(self.user) == Err::<Seq<char>, PamResultCode>(code),
            },
            r matches Err(code) ==> code != PamResultCode::PAM_SUCCESS,
    {
        self.user.user()
    }

    /// The authentication token that the user entered, if one was entered.
    pub fn get_authtok(&self) -> (r: PamResult<Option<String>>)
        ensures
            match r {
                Ok(Some(token)) => token_in(self.authtok) == Ok::<Option<Seq<char>>, PamResultCode>(
                    Some(token@),
                ),
                Ok(None) => token_in(self.authtok) == Ok::<Option<Seq<char>>, PamResultCode>(None),
                Err(code) => token_in(self.authtok) == Err::<Option<Seq<char>>, PamResultCode>(
                    code,
                ),
            },
            r matches Err(code) ==> code != PamResultCode::PAM_SUCCESS,
    {
        self.authtok.token()
    }
}

/// The code of a failure: `code`, or a service error in place of the code of
/// success.
pub fn failure(code: PamResultCode) -> (r: PamResultCode)
    ensures
        r == failure_code(code),
        r != PamResultCode::PAM_SUCCESS,
{
    if code == PamResultCode::PAM_SUCCESS {
        PamResultCode::PAM_SERVICE_ERR
    } else {
        code
    }
}

/// The result of a call that hands over an optional value: the value on
/// success, whether or not there is one, else the code.
pub fn item_result<T>(code: PamResultCode, item: Option<T>) -> (r: PamResult<Option<T>>)
    ensures
        r == if code == PamResultCode::PAM_SUCCESS {
            Ok::<Option<T>, PamResultCode>(item)
        } else {
            Err::<Option<T>, PamResultCode>(code)
        },
        r matches Err(e) ==> e != PamResultCode::PAM_SUCCESS,
{
    if code == PamResultCode::PAM_SUCCESS {
        Ok(item)
    } else {
        Err(code)
    }
}

/// The result of a call that must hand over a value: the value where the call
/// succeeded and handed one over; the code of a failed call; and the code for
/// missing module data where the call succeeded and handed nothing over.
pub fn data_result<T>(code: PamResultCode, data: Option<T>) -> (r: PamResult<T>)
    ensures
        r == if code == PamResultCode::PAM_SUCCESS {
            match data {
                Some(value) => Ok::<T, PamResultCode>(value),
                None => Err::<T, PamResultCode>(PamResultCode::PAM_NO_MODULE_DATA),
            }
        } else {
            Err::<T, PamResultCode>(code)
        },
        r matches Err(e) ==> e != PamResultCode::PAM_SUCCESS,
{
    if code == PamResultCode::PAM_SUCCESS {
        match data {
            Some(value) => Ok(value),
            None => Err(PamResultCode::PAM_NO_MODULE_DATA),
        }
    } else {
        Err(code)
    }
}

/// The result of a call that hands nothing over.
pub fn unit_result(code: PamResultCode) -> (r: PamResult<()>)
    ensures
        r is Ok <==> code == PamResultCode::PAM_SUCCESS,
        r matches Err(e) ==> e == code,
{
    if code == PamResultCode::PAM_SUCCESS {
        Ok(())
    } else {
        Err(code)
    }
}

/// The code that a hook reports to the host for its result: success for
/// `Ok`, and for no error.
pub fn hook_code(result: PamResult<()>) -> (code: PamResultCode)
    ensures
        code == match result {
            Ok(_) => PamResultCode::PAM_SUCCESS,
            Err(e) => failure_code(e),
        },
        code == PamResultCode::PAM_SUCCESS <==> result is Ok,
{
    match result {
        Ok(_) => PamResultCode::PAM_SUCCESS,
        Err(e) => failure(e),
    }
}

} // verus!
