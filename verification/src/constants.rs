//! The vocabulary of the host framework: flags, message styles and result codes.

use vstd::prelude::*;

verus! {

/// Flags that the host passes to a module's entry points.
pub type PamFlag = u32;

/// The kind of an item, as the host numbers it.
pub type PamItemType = i32;

/// The style of a message sent through the conversation.
pub type PamMessageStyle = i32;

pub const PAM_SILENT: PamFlag = 0x8000;

pub const PAM_DISALLOW_NULL_AUTHTOK: PamFlag = 0x0001;

pub const PAM_ESTABLISH_CRED: PamFlag = 0x0002;

pub const PAM_DELETE_CRED: PamFlag = 0x0004;

pub const PAM_REINITIALIZE_CRED: PamFlag = 0x0008;

pub const PAM_REFRESH_CRED: PamFlag = 0x0010;

pub const PAM_CHANGE_EXPIRED_AUTHTOK: PamFlag = 0x0020;

pub const PAM_PROMPT_ECHO_OFF: PamMessageStyle = 1;

pub const PAM_PROMPT_ECHO_ON: PamMessageStyle = 2;

pub const PAM_ERROR_MSG: PamMessageStyle = 3;

pub const PAM_TEXT_INFO: PamMessageStyle = 4;

/// Yes/no/maybe conditionals.
pub const PAM_RADIO_TYPE: PamMessageStyle = 5;

pub const PAM_BINARY_PROMPT: PamMessageStyle = 7;

/// Whether the flags ask the module to stay silent.
pub open spec fn silent(flags: PamFlag) -> bool {
    flags & PAM_SILENT != 0
}

/// Tests the flags for `PAM_SILENT`.
pub fn is_silent(flags: PamFlag) -> (r: bool)
    ensures
        r == silent(flags),
{
    (flags & PAM_SILENT) != 0
}

/// The result codes of the host framework.
#[allow(non_camel_case_types)]
#[derive(Clone, Copy, Debug, PartialEq, Eq, Structural)]
pub enum PamResultCode {
    PAM_SUCCESS,
    PAM_OPEN_ERR,
    PAM_SYMBOL_ERR,
    PAM_SERVICE_ERR,
    PAM_SYSTEM_ERR,
    PAM_BUF_ERR,
    PAM_PERM_DENIED,
    PAM_AUTH_ERR,
    PAM_CRED_INSUFFICIENT,
    PAM_AUTHINFO_UNAVAIL,
    PAM_USER_UNKNOWN,
    PAM_MAXTRIES,
    PAM_NEW_AUTHTOK_REQD,
    PAM_ACCT_EXPIRED,
    PAM_SESSION_ERR,
    PAM_CRED_UNAVAIL,
    PAM_CRED_EXPIRED,
    PAM_CRED_ERR,
    PAM_NO_MODULE_DATA,
    PAM_CONV_ERR,
    PAM_AUTHTOK_ERR,
    PAM_AUTHTOK_RECOVERY_ERR,
    PAM_AUTHTOK_LOCK_BUSY,
    PAM_AUTHTOK_DISABLE_AGING,
    PAM_TRY_AGAIN,
    PAM_IGNORE,
    PAM_ABORT,
    PAM_AUTHTOK_EXPIRED,
    PAM_MODULE_UNKNOWN,
    PAM_BAD_ITEM,
    PAM_CONV_AGAIN,
    PAM_INCOMPLETE,
}

impl PamResultCode {
    /// The number that the host framework gives this code.
    pub open spec fn number(self) -> int {
        match self {
            PamResultCode::PAM_SUCCESS => 0,
            PamResultCode::PAM_OPEN_ERR => 1,
            PamResultCode::PAM_SYMBOL_ERR => 2,
            PamResultCode::PAM_SERVICE_ERR => 3,
            PamResultCode::PAM_SYSTEM_ERR => 4,
            PamResultCode::PAM_BUF_ERR => 5,
            PamResultCode::PAM_PERM_DENIED => 6,
            PamResultCode::PAM_AUTH_ERR => 7,
            PamResultCode::PAM_CRED_INSUFFICIENT => 8,
            PamResultCode::PAM_AUTHINFO_UNAVAIL => 9,
            PamResultCode::PAM_USER_UNKNOWN => 10,
            PamResultCode::PAM_MAXTRIES => 11,
            PamResultCode::PAM_NEW_AUTHTOK_REQD => 12,
            PamResultCode::PAM_ACCT_EXPIRED => 13,
            PamResultCode::PAM_SESSION_ERR => 14,
            PamResultCode::PAM_CRED_UNAVAIL => 15,
            PamResultCode::PAM_CRED_EXPIRED => 16,
            PamResultCode::PAM_CRED_ERR => 17,
            PamResultCode::PAM_NO_MODULE_DATA => 18,
            PamResultCode::PAM_CONV_ERR => 19,
            PamResultCode::PAM_AUTHTOK_ERR => 20,
            PamResultCode::PAM_AUTHTOK_RECOVERY_ERR => 21,
            PamResultCode::PAM_AUTHTOK_LOCK_BUSY => 22,
            PamResultCode::PAM_AUTHTOK_DISABLE_AGING => 23,
            PamResultCode::PAM_TRY_AGAIN => 24,
            PamResultCode::PAM_IGNORE => 25,
            PamResultCode::PAM_ABORT => 26,
            PamResultCode::PAM_AUTHTOK_EXPIRED => 27,
            PamResultCode::PAM_MODULE_UNKNOWN => 28,
            PamResultCode::PAM_BAD_ITEM => 29,
            PamResultCode::PAM_CONV_AGAIN => 30,
            PamResultCode::PAM_INCOMPLETE => 31,
        }
    }

    /// The name of this code, as the host framework's headers spell it.
    pub open spec fn label(self) -> Seq<char> {
        match self {
            PamResultCode::PAM_SUCCESS => "PAM_SUCCESS"@,
            PamResultCode::PAM_OPEN_ERR => "PAM_OPEN_ERR"@,
            PamResultCode::PAM_SYMBOL_ERR => "PAM_SYMBOL_ERR"@,
            PamResultCode::PAM_SERVICE_ERR => "PAM_SERVICE_ERR"@,
            PamResultCode::PAM_SYSTEM_ERR => "PAM_SYSTEM_ERR"@,
            PamResultCode::PAM_BUF_ERR => "PAM_BUF_ERR"@,
            PamResultCode::PAM_PERM_DENIED => "PAM_PERM_DENIED"@,
            PamResultCode::PAM_AUTH_ERR => "PAM_AUTH_ERR"@,
            PamResultCode::PAM_CRED_INSUFFICIENT => "PAM_CRED_INSUFFICIENT"@,
            PamResultCode::PAM_AUTHINFO_UNAVAIL => "PAM_AUTHINFO_UNAVAIL"@,
            PamResultCode::PAM_USER_UNKNOWN => "PAM_USER_UNKNOWN"@,
            PamResultCode::PAM_MAXTRIES => "PAM_MAXTRIES"@,
            PamResultCode::PAM_NEW_AUTHTOK_REQD => "PAM_NEW_AUTHTOK_REQD"@,
            PamResultCode::PAM_ACCT_EXPIRED => "PAM_ACCT_EXPIRED"@,
            PamResultCode::PAM_SESSION_ERR => "PAM_SESSION_ERR"@,
            PamResultCode::PAM_CRED_UNAVAIL => "PAM_CRED_UNAVAIL"@,
            PamResultCode::PAM_CRED_EXPIRED => "PAM_CRED_EXPIRED"@,
            PamResultCode::PAM_CRED_ERR => "PAM_CRED_ERR"@,
            PamResultCode::PAM_NO_MODULE_DATA => "PAM_NO_MODULE_DATA"@,
            PamResultCode::PAM_CONV_ERR => "PAM_CONV_ERR"@,
            PamResultCode::PAM_AUTHTOK_ERR => "PAM_AUTHTOK_ERR"@,
            PamResultCode::PAM_AUTHTOK_RECOVERY_ERR => "PAM_AUTHTOK_RECOVERY_ERR"@,
            PamResultCode::PAM_AUTHTOK_LOCK_BUSY => "PAM_AUTHTOK_LOCK_BUSY"@,
            PamResultCode::PAM_AUTHTOK_DISABLE_AGING => "PAM_AUTHTOK_DISABLE_AGING"@,
            PamResultCode::PAM_TRY_AGAIN => "PAM_TRY_AGAIN"@,
            PamResultCode::PAM_IGNORE => "PAM_IGNORE"@,
            PamResultCode::PAM_ABORT => "PAM_ABORT"@,
            PamResultCode::PAM_AUTHTOK_EXPIRED => "PAM_AUTHTOK_EXPIRED"@,
            PamResultCode::PAM_MODULE_UNKNOWN => "PAM_MODULE_UNKNOWN"@,
            PamResultCode::PAM_BAD_ITEM => "PAM_BAD_ITEM"@,
            PamResultCode::PAM_CONV_AGAIN => "PAM_CONV_AGAIN"@,
            PamResultCode::PAM_INCOMPLETE => "PAM_INCOMPLETE"@,
        }
    }

    /// The number that the host framework gives this code.
    pub fn code(self) -> (n: i32)
        ensures
            n == self.number(),
            0 <= n <= 31,
    {
        match self {
            PamResultCode::PAM_SUCCESS => 0,
            PamResultCode::PAM_OPEN_ERR => 1,
            PamResultCode::PAM_SYMBOL_ERR => 2,
            PamResultCode::PAM_SERVICE_ERR => 3,
            PamResultCode::PAM_SYSTEM_ERR => 4,
            PamResultCode::PAM_BUF_ERR => 5,
            PamResultCode::PAM_PERM_DENIED => 6,
            PamResultCode::PAM_AUTH_ERR => 7,
            PamResultCode::PAM_CRED_INSUFFICIENT => 8,
            PamResultCode::PAM_AUTHINFO_UNAVAIL => 9,
            PamResultCode::PAM_USER_UNKNOWN => 10,
            PamResultCode::PAM_MAXTRIES => 11,
            PamResultCode::PAM_NEW_AUTHTOK_REQD => 12,
            PamResultCode::PAM_ACCT_EXPIRED => 13,
            PamResultCode::PAM_SESSION_ERR => 14,
            PamResultCode::PAM_CRED_UNAVAIL => 15,
            PamResultCode::PAM_CRED_EXPIRED => 16,
            PamResultCode::PAM_CRED_ERR => 17,
            PamResultCode::PAM_NO_MODULE_DATA => 18,
            PamResultCode::PAM_CONV_ERR => 19,
            PamResultCode::PAM_AUTHTOK_ERR => 20,
            PamResultCode::PAM_AUTHTOK_RECOVERY_ERR => 21,
            PamResultCode::PAM_AUTHTOK_LOCK_BUSY => 22,
            PamResultCode::PAM_AUTHTOK_DISABLE_AGING => 23,
            PamResultCode::PAM_TRY_AGAIN => 24,
            PamResultCode::PAM_IGNORE => 25,
            PamResultCode::PAM_ABORT => 26,
            PamResultCode::PAM_AUTHTOK_EXPIRED => 27,
            PamResultCode::PAM_MODULE_UNKNOWN => 28,
            PamResultCode::PAM_BAD_ITEM => 29,
            PamResultCode::PAM_CONV_AGAIN => 30,
            PamResultCode::PAM_INCOMPLETE => 31,
        }
    }

    /// The code with the number `n`, if the host framework has one.
    pub fn from_code(n: i32) -> (r: Option<PamResultCode>)
        ensures
            match r {
                Some(code) => code.number() == n,
                None => !(0 <= n <= 31),
            },
    {
        match n {
            0 => Some(PamResultCode::PAM_SUCCESS),
            1 => Some(PamResultCode::PAM_OPEN_ERR),
            2 => Some(PamResultCode::PAM_SYMBOL_ERR),
            3 => Some(PamResultCode::PAM_SERVICE_ERR),
            4 => Some(PamResultCode::PAM_SYSTEM_ERR),
            5 => Some(PamResultCode::PAM_BUF_ERR),
            6 => Some(PamResultCode::PAM_PERM_DENIED),
            7 => Some(PamResultCode::PAM_AUTH_ERR),
            8 => Some(PamResultCode::PAM_CRED_INSUFFICIENT),
            9 => Some(PamResultCode::PAM_AUTHINFO_UNAVAIL),
            10 => Some(PamResultCode::PAM_USER_UNKNOWN),
            11 => Some(PamResultCode::PAM_MAXTRIES),
            12 => Some(PamResultCode::PAM_NEW_AUTHTOK_REQD),
            13 => Some(PamResultCode::PAM_ACCT_EXPIRED),
            14 => Some(PamResultCode::PAM_SESSION_ERR),
            15 => Some(PamResultCode::PAM_CRED_UNAVAIL),
            16 => Some(PamResultCode::PAM_CRED_EXPIRED),
            17 => Some(PamResultCode::PAM_CRED_ERR),
            18 => Some(PamResultCode::PAM_NO_MODULE_DATA),
            19 => Some(PamResultCode::PAM_CONV_ERR),
            20 => Some(PamResultCode::PAM_AUTHTOK_ERR),
            21 => Some(PamResultCode::PAM_AUTHTOK_RECOVERY_ERR),
            22 => Some(PamResultCode::PAM_AUTHTOK_LOCK_BUSY),
            23 => Some(PamResultCode::PAM_AUTHTOK_DISABLE_AGING),
            24 => Some(PamResultCode::PAM_TRY_AGAIN),
            25 => Some(PamResultCode::PAM_IGNORE),
            26 => Some(PamResultCode::PAM_ABORT),
            27 => Some(PamResultCode::PAM_AUTHTOK_EXPIRED),
            28 => Some(PamResultCode::PAM_MODULE_UNKNOWN),
            29 => Some(PamResultCode::PAM_BAD_ITEM),
            30 => Some(PamResultCode::PAM_CONV_AGAIN),
            31 => Some(PamResultCode::PAM_INCOMPLETE),
            _ => None,
        }
    }

    /// The name of this code.
    pub fn name(self) -> (s: String)
        ensures
            s@ == self.label(),
    {
        match self {
            PamResultCode::PAM_SUCCESS => "PAM_SUCCESS".to_owned(),
            PamResultCode::PAM_OPEN_ERR => "PAM_OPEN_ERR".to_owned(),
            PamResultCode::PAM_SYMBOL_ERR => "PAM_SYMBOL_ERR".to_owned(),
            PamResultCode::PAM_SERVICE_ERR => "PAM_SERVICE_ERR".to_owned(),
            PamResultCode::PAM_SYSTEM_ERR => "PAM_SYSTEM_ERR".to_owned(),
            PamResultCode::PAM_BUF_ERR => "PAM_BUF_ERR".to_owned(),
            PamResultCode::PAM_PERM_DENIED => "PAM_PERM_DENIED".to_owned(),
            PamResultCode::PAM_AUTH_ERR => "PAM_AUTH_ERR".to_owned(),
            PamResultCode::PAM_CRED_INSUFFICIENT => "PAM_CRED_INSUFFICIENT".to_owned(),
            PamResultCode::PAM_AUTHINFO_UNAVAIL => "PAM_AUTHINFO_UNAVAIL".to_owned(),
            PamResultCode::PAM_USER_UNKNOWN => "PAM_USER_UNKNOWN".to_owned(),
            PamResultCode::PAM_MAXTRIES => "PAM_MAXTRIES".to_owned(),
            PamResultCode::PAM_NEW_AUTHTOK_REQD => "PAM_NEW_AUTHTOK_REQD".to_owned(),
            PamResultCode::PAM_ACCT_EXPIRED => "PAM_ACCT_EXPIRED".to_owned(),
            PamResultCode::PAM_SESSION_ERR => "PAM_SESSION_ERR".to_owned(),
            PamResultCode::PAM_CRED_UNAVAIL => "PAM_CRED_UNAVAIL".to_owned(),
            PamResultCode::PAM_CRED_EXPIRED => "PAM_CRED_EXPIRED".to_owned(),
            PamResultCode::PAM_CRED_ERR => "PAM_CRED_ERR".to_owned(),
            PamResultCode::PAM_NO_MODULE_DATA => "PAM_NO_MODULE_DATA".to_owned(),
            PamResultCode::PAM_CONV_ERR => "PAM_CONV_ERR".to_owned(),
            PamResultCode::PAM_AUTHTOK_ERR => "PAM_AUTHTOK_ERR".to_owned(),
            PamResultCode::PAM_AUTHTOK_RECOVERY_ERR => "PAM_AUTHTOK_RECOVERY_ERR".to_owned(),
            PamResultCode::PAM_AUTHTOK_LOCK_BUSY => "PAM_AUTHTOK_LOCK_BUSY".to_owned(),
            PamResultCode::PAM_AUTHTOK_DISABLE_AGING => "PAM_AUTHTOK_DISABLE_AGING".to_owned(),
            PamResultCode::PAM_TRY_AGAIN => "PAM_TRY_AGAIN".to_owned(),
            PamResultCode::PAM_IGNORE => "PAM_IGNORE".to_owned(),
            PamResultCode::PAM_ABORT => "PAM_ABORT".to_owned(),
            PamResultCode::PAM_AUTHTOK_EXPIRED => "PAM_AUTHTOK_EXPIRED".to_owned(),
            PamResultCode::PAM_MODULE_UNKNOWN => "PAM_MODULE_UNKNOWN".to_owned(),
            PamResultCode::PAM_BAD_ITEM => "PAM_BAD_ITEM".to_owned(),
            PamResultCode::PAM_CONV_AGAIN => "PAM_CONV_AGAIN".to_owned(),
            PamResultCode::PAM_INCOMPLETE => "PAM_INCOMPLETE".to_owned(),
        }
    }
}

/// Two codes with the same number are the same code, and a code is found
/// again by its number.
pub proof fn lemma_codes_are_distinct(a: PamResultCode, b: PamResultCode)
    ensures
        0 <= a.number() <= 31,
        a.number() == b.number() ==> a == b,
{
}

} // verus!
