//! The authorization response, as the redirected URI carries it.

use io_oauth::rfc6749::auth_response::Oauth20AuthParams;
use url::Url;
use vstd::prelude::*;

use crate::auth::error::{ErrorParams, ErrorParamsView};
use crate::auth::state::{first_non_vschar, State};
use crate::uri::{parse_url, url_parse};

verus! {

/// An authorization response: the authorization code, or an error.
pub enum AuthParams {
    /// The request succeeded.
    Success {
        /// The authorization code to exchange for an access token.
        code: String,
        /// The state echoed by the server.
        state: Option<State>,
    },
    /// The request was denied or failed.
    Error(ErrorParams),
}

/// What [`AuthParams`] is, as contracts speak of it.
pub enum AuthParamsView {
    Success { code: Seq<char>, state: Option<Seq<u8>> },
    Error(ErrorParamsView),
}

impl View for AuthParams {
    type V = AuthParamsView;

    open spec fn view(&self) -> AuthParamsView {
        match self {
            AuthParams::Success { code, state } => AuthParamsView::Success {
                code: code@,
                state: state.deep_view(),
            },
            AuthParams::Error(params) => AuthParamsView::Error(params@),
        }
    }
}

/// What keeps an authorization response from being accepted.
pub enum AuthParamsValidationError {
    /// The authorization server returned an error response.
    Server(ErrorParams),
    /// A state was expected in the response but none was returned.
    StateMissing,
    /// The state returned by the server is not the expected one.
    StateMismatch,
}

/// What [`AuthParamsValidationError`] is, as contracts speak of it.
pub enum AuthParamsValidationErrorView {
    Server(ErrorParamsView),
    StateMissing,
    StateMismatch,
}

impl View for AuthParamsValidationError {
    type V = AuthParamsValidationErrorView;

    open spec fn view(&self) -> AuthParamsValidationErrorView {
        match self {
            AuthParamsValidationError::Server(
                params,
            ) => AuthParamsValidationErrorView::Server(params@),
            AuthParamsValidationError::StateMissing => AuthParamsValidationErrorView::StateMissing,
            AuthParamsValidationError::StateMismatch => AuthParamsValidationErrorView::StateMismatch,
        }
    }
}

impl AuthParamsView {
    /// The authorization code of a response, where the response is a success
    /// that carries the expected state, or where no state is expected.
    pub open spec fn validated(self, expected: Option<Seq<u8>>) -> Result<
        Seq<char>,
        AuthParamsValidationErrorView,
    > {
        match self {
            AuthParamsView::Error(params) => Err(AuthParamsValidationErrorView::Server(params)),
            AuthParamsView::Success { code, state } => if expected is None || state == expected {
                Ok(code)
            } else if state is None {
                Err(AuthParamsValidationErrorView::StateMissing)
            } else {
                Err(AuthParamsValidationErrorView::StateMismatch)
            },
        }
    }
}

impl AuthParams {
    /// The authorization code of the response. Where a state is expected the
    /// response must carry that state; where none is, the state goes unchecked.
    pub fn validate(self, expected: Option<&State>) -> (r: Result<String, AuthParamsValidationError>)
        ensures
            match self@.validated(
                match expected {
                    Some(state) => Some(state@),
                    None => None,
                },
            ) {
                Ok(code) => r matches Ok(c) && c@ == code,
                Err(err) => r matches Err(e) && e@ == err,
            },
    {
        match self {
            AuthParams::Error(params) => Err(AuthParamsValidationError::Server(params)),
            AuthParams::Success { code, state } => {
                if let Some(expected) = expected {
                    match state {
                        None => {
                            return Err(AuthParamsValidationError::StateMissing);
                        },
                        Some(got) => {
                            if *expected != got {
                                return Err(AuthParamsValidationError::StateMismatch);
                            }
                        },
                    }
                }
                Ok(code)
            },
        }
    }
}

/// The names of the error codes that an authorization response can have.
pub open spec fn is_auth_error_code(s: Seq<char>) -> bool {
    ||| s == "InvalidRequest"@
    ||| s == "UnauthorizedClient"@
    ||| s == "AccessDenied"@
    ||| s == "UnsupportedResponseType"@
    ||| s == "InvalidScope"@
    ||| s == "ServerError"@
    ||| s == "TemporarilyUnavailable"@
    ||| s == "InvalidTarget"@
    ||| s == "Unknown"@
}

/// What the conversion of `Oauth20AuthParams` from a URL reads in the URL that
/// a text parses to.
pub uninterp spec fn auth_response(uri: Seq<char>) -> AuthParamsView;

/// Calls the `From<&Url>` impl of `Oauth20AuthParams` on the URL that the text
/// parses to. An error code is taken by its name (`Debug`), a URI by its
/// serialization (`Display`), a state by its bytes. The contract names what is
/// read, and says that the error code is one of those that
/// `Oauth20AuthErrorCode` has and that a state holds only bytes that a state may
/// hold.
#[verifier::external_body]
fn auth_params(uri: &str) -> (r: AuthParams)
    requires
        url_parse(uri@) is Ok,
    ensures
        r@ == auth_response(uri@),
        match r {
            AuthParams::Success { code, state } => state matches Some(st)
                ==> first_non_vschar(st@) is None,
            AuthParams::Error(params) => is_auth_error_code(params@.error),
        },
{
    let url = Url::parse(uri).unwrap();
    match Oauth20AuthParams::from(&url) {
        Oauth20AuthParams::Success(params) => AuthParams::Success {
            code: params.code.into_owned(),
            state: params.state.map(|state| State { bytes: state.expose().to_vec() }),
        },
        Oauth20AuthParams::Error(params) => AuthParams::Error(ErrorParams {
            error: format!("{:?}", params.error),
            error_description: params.error_description.map(|text| text.into_owned()),
            error_uri: params.error_uri.map(|uri| uri.to_string()),
        }),
    }
}

/// What a redirected URI holds: the authorization response, or the text of the
/// error that parsing it ends in.
pub open spec fn redirect_response(uri: Seq<char>) -> Result<AuthParamsView, Seq<char>> {
    match url_parse(uri) {
        Ok(_) => Ok(auth_response(uri)),
        Err(err) => Err(err),
    }
}

/// Reads the authorization response that a redirected URI carries.
pub fn read_redirect(uri: &str) -> (r: Result<AuthParams, String>)
    ensures
        match r {
            Ok(params) => redirect_response(uri@) == Ok::<AuthParamsView, Seq<char>>(params@),
            Err(err) => redirect_response(uri@) == Err::<AuthParamsView, Seq<char>>(err@),
        },
        match r {
            Ok(AuthParams::Error(params)) => is_auth_error_code(params@.error),
            Ok(_) => true,
            Err(err) => crate::uri::is_parse_error_text(err@),
        },
{
    match parse_url(uri) {
        Ok(_) => Ok(auth_params(uri)),
        Err(err) => Err(err),
    }
}

} // verus!
