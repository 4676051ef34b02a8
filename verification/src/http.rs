//! Authentication over HTTP: the user's name and password are sent to a URL
//! with basic authentication, and the status of the answer decides.

use vstd::prelude::*;
use vstd::utf8::{decode_utf8, valid_utf8};
use crate::constants::{PamMessageStyle, PamResultCode, PAM_PROMPT_ECHO_OFF};
use crate::module::{bytes_view, failure, failure_code, text_from_utf8, PamResult};
use crate::options::{last_text, opt_text, text_given};
use crate::text::texts;

verus! {

/// The module that authenticates over HTTP.
pub struct PamHttp;

/// What is to be asked over HTTP: for whom, and where.
pub struct Request {
    pub user: String,
    pub url: String,
}

/// Whether an HTTP status stands for success: 200 to 299.
pub open spec fn success(status: u16) -> bool {
    200 <= status < 300
}

/// Tests an HTTP status for success.
pub fn is_success(status: u16) -> (r: bool)
    ensures
        r == success(status),
{
    300 > status && status >= 200
}

/// The request that the hook makes, as (user, url). A host that fails to name
/// the user decides with the code of its failure; options without `url` are an
/// authentication error.
pub open spec fn request_for(
    user: Result<Seq<char>, PamResultCode>,
    args: Seq<Seq<char>>,
) -> Result<(Seq<char>, Seq<char>), PamResultCode> {
    match user {
        Err(code) => Err(failure_code(code)),
        Ok(name) => match text_given(args, "url"@) {
            Some(url) => Ok((name, url)),
            None => Err(PamResultCode::PAM_AUTH_ERR),
        },
    }
}

/// The password in the host's answer to the prompt. A failed conversation
/// decides with the code of its failure; an answer that is no UTF-8 is an
/// authentication error; no answer is no password.
pub open spec fn password_in(reply: Result<Option<Seq<u8>>, PamResultCode>) -> Result<
    Option<Seq<char>>,
    PamResultCode,
> {
    match reply {
        Err(code) => Err(failure_code(code)),
        Ok(None) => Ok(None),
        Ok(Some(bytes)) => if valid_utf8(bytes) {
            Ok(Some(decode_utf8(bytes)))
        } else {
            Err(PamResultCode::PAM_AUTH_ERR)
        },
    }
}

/// What the hook reports for the status of the HTTP answer, where there was
/// one: success for a status of success, an authentication error otherwise.
pub open spec fn verdict_on(status: Option<u16>) -> PamResultCode {
    match status {
        Some(s) => if success(s) {
            PamResultCode::PAM_SUCCESS
        } else {
            PamResultCode::PAM_AUTH_ERR
        },
        None => PamResultCode::PAM_AUTH_ERR,
    }
}

/// What the hook reports, all things considered, in this order: the user, the
/// `url` option, the password, the status.
pub open spec fn http_result(
    user: Result<Seq<char>, PamResultCode>,
    args: Seq<Seq<char>>,
    reply: Result<Option<Seq<u8>>, PamResultCode>,
    status: Option<u16>,
) -> PamResultCode {
    match request_for(user, args) {
        Err(code) => code,
        Ok(_) => match password_in(reply) {
            Err(code) => code,
            Ok(_) => verdict_on(status),
        },
    }
}

/// The characters of a user name, or the code in its place.
pub open spec fn name_view(user: PamResult<String>) -> Result<Seq<char>, PamResultCode> {
    match user {
        Ok(name) => Ok(name@),
        Err(code) => Err(code),
    }
}

impl PamHttp {
    /// What the hook asks of the user, once: the password, with the style
    /// that shows no echo of what is typed.
    pub fn prompt() -> (r: (PamMessageStyle, String))
        ensures
            r.0 == PAM_PROMPT_ECHO_OFF,
            r.1@ == "Word, yo: "@,
    {
        (PAM_PROMPT_ECHO_OFF, "Word, yo: ".to_owned())
    }

    /// The request to make for `user` under the options `args`.
    pub fn request(user: PamResult<String>, args: &Vec<String>) -> (r: PamResult<Request>)
        ensures
            match r {
                Ok(request) => request_for(name_view(user), texts(args@)) == Ok::<
                    (Seq<char>, Seq<char>),
                    PamResultCode,
                >((request.user@, request.url@)),
                Err(code) => request_for(name_view(user), texts(args@)) == Err::<
                    (Seq<char>, Seq<char>),
                    PamResultCode,
                >(code),
            },
            r matches Err(code) ==> code != PamResultCode::PAM_SUCCESS,
    {
        match user {
            Err(code) => Err(failure(code)),
            Ok(name) => match last_text(args, "url") {
                Some(url) => Ok(Request { user: name, url }),
                None => Err(PamResultCode::PAM_AUTH_ERR),
            },
        }
    }

    /// The password in the host's answer to the prompt.
    pub fn password(reply: PamResult<Option<Vec<u8>>>) -> (r: PamResult<Option<String>>)
        ensures
            match r {
                Ok(password) => password_in(bytes_view(reply)) == Ok::<
                    Option<Seq<char>>,
                    PamResultCode,
                >(opt_text(password)),
                Err(code) => password_in(bytes_view(reply)) == Err::<
                    Option<Seq<char>>,
                    PamResultCode,
                >(code),
            },
            r matches Err(code) ==> code != PamResultCode::PAM_SUCCESS,
    {
        match reply {
            Err(code) => Err(failure(code)),
            Ok(None) => Ok(None),
            Ok(Some(bytes)) => match text_from_utf8(&bytes) {
                Some(password) => Ok(Some(password)),
                None => Err(PamResultCode::PAM_AUTH_ERR),
            },
        }
    }

    /// What to report for the status of the HTTP answer; `None` stands for a
    /// request that brought no answer.
    pub fn verdict(status: Option<u16>) -> (code: PamResultCode)
        ensures
            code == verdict_on(status),
            code == PamResultCode::PAM_SUCCESS <==> status is Some && success(status->0),
    {
        match status {
            Some(s) => if is_success(s) {
                PamResultCode::PAM_SUCCESS
            } else {
                PamResultCode::PAM_AUTH_ERR
            },
            None => PamResultCode::PAM_AUTH_ERR,
        }
    }

    /// What the hook reports, given all that the host and the HTTP request
    /// handed over.
    pub fn sm_authenticate(
        user: PamResult<String>,
        args: &Vec<String>,
        reply: PamResult<Option<Vec<u8>>>,
        status: Option<u16>,
    ) -> (code: PamResultCode)
        ensures
            code == http_result(name_view(user), texts(args@), bytes_view(reply), status),
            code == PamResultCode::PAM_SUCCESS <==> {
                &&& user is Ok
                &&& text_given(texts(args@), "url"@) is Some
                &&& password_in(bytes_view(reply)) is Ok
                &&& status is Some
                &&& success(status->0)
            },
    {
        match PamHttp::request(user, args) {
            Err(code) => code,
            Ok(_) => match PamHttp::password(reply) {
                Err(code) => code,
                Ok(_) => PamHttp::verdict(status),
            },
        }
    }
}

} // verus!
