//! Why a grant cannot be completed.

use vstd::prelude::*;
use vstd::string::StringExecFns;

verus! {

/// An error response of the server.
#[derive(Debug)]
pub struct ErrorParams {
    /// The name of the error code.
    pub error: String,
    /// Human-readable text explaining the error.
    pub error_description: Option<String>,
    /// A URI to a human-readable page about the error.
    pub error_uri: Option<String>,
}

/// What [`ErrorParams`] is, as contracts speak of it.
pub struct ErrorParamsView {
    pub error: Seq<char>,
    pub error_description: Option<Seq<char>>,
    pub error_uri: Option<Seq<char>>,
}

impl View for ErrorParams {
    type V = ErrorParamsView;

    open spec fn view(&self) -> ErrorParamsView {
        ErrorParamsView {
            error: self.error@,
            error_description: self.error_description.deep_view(),
            error_uri: self.error_uri.deep_view(),
        }
    }
}

impl ErrorParamsView {
    /// What the server says of the error, beside its code.
    pub open spec fn explanation(self) -> Option<Seq<char>> {
        match (self.error_description, self.error_uri) {
            (None, None) => None,
            (Some(desc), None) => Some(desc),
            (None, Some(uri)) => Some(uri),
            (Some(desc), Some(uri)) => Some(desc + ": "@ + uri),
        }
    }
}

impl ErrorParams {
    /// What the server says of the error, beside its code.
    pub fn explanation(&self) -> (r: Option<String>)
        ensures
            r.deep_view() == self@.explanation(),
    {
        match (&self.error_description, &self.error_uri) {
            (None, None) => None,
            (Some(desc), None) => Some(desc.clone()),
            (None, Some(uri)) => Some(uri.clone()),
            (Some(desc), Some(uri)) => {
                let mut text = desc.clone();
                text.append(": ");
                text.append(uri.as_str());
                Some(text)
            },
        }
    }
}

/// Why a grant cannot be completed.
#[derive(Debug)]
pub enum ResumeError {
    /// The device grant was given flags of the authorization-code grant.
    DeviceGrantFlags,
    /// The device code is blank.
    MissingDeviceCode,
    /// The account has no token endpoint.
    MissingTokenEndpoint,
    /// The redirected URI is blank.
    MissingRedirectedUri,
    /// The redirected URI does not parse; the text says why.
    InvalidRedirectedUri(String),
    /// The authorization server returned an error response.
    Authorization(ErrorParams),
    /// The authorization response carries no state.
    StateMissing,
    /// The authorization response carries another state than the expected one.
    StateMismatch,
    /// The PKCE code verifier is turned down; the text says why.
    InvalidPkceCodeVerifier(String),
    /// The token endpoint returned an error response.
    IssueAccessToken(ErrorParams),
}

/// What [`ResumeError`] is, as contracts speak of it.
pub enum ResumeErrorView {
    DeviceGrantFlags,
    MissingDeviceCode,
    MissingTokenEndpoint,
    MissingRedirectedUri,
    InvalidRedirectedUri(Seq<char>),
    Authorization(ErrorParamsView),
    StateMissing,
    StateMismatch,
    InvalidPkceCodeVerifier(Seq<char>),
    IssueAccessToken(ErrorParamsView),
}

impl View for ResumeError {
    type V = ResumeErrorView;

    open spec fn view(&self) -> ResumeErrorView {
        match self {
            ResumeError::DeviceGrantFlags => ResumeErrorView::DeviceGrantFlags,
            ResumeError::MissingDeviceCode => ResumeErrorView::MissingDeviceCode,
            ResumeError::MissingTokenEndpoint => ResumeErrorView::MissingTokenEndpoint,
            ResumeError::MissingRedirectedUri => ResumeErrorView::MissingRedirectedUri,
            ResumeError::InvalidRedirectedUri(err) => ResumeErrorView::InvalidRedirectedUri(err@),
            ResumeError::Authorization(params) => ResumeErrorView::Authorization(params@),
            ResumeError::StateMissing => ResumeErrorView::StateMissing,
            ResumeError::StateMismatch => ResumeErrorView::StateMismatch,
            ResumeError::InvalidPkceCodeVerifier(
                err,
            ) => ResumeErrorView::InvalidPkceCodeVerifier(err@),
            ResumeError::IssueAccessToken(params) => ResumeErrorView::IssueAccessToken(params@),
        }
    }
}

impl ResumeErrorView {
    /// The text of the error.
    pub open spec fn message(self) -> Seq<char> {
        match self {
            ResumeErrorView::DeviceGrantFlags =>
                "The --state, --pkce and --redirect-uri flags are only valid for the authorization-code grant"@,
            ResumeErrorView::MissingDeviceCode => "Missing device code"@,
            ResumeErrorView::MissingTokenEndpoint =>
                "Missing endpoints.token in the account config"@,
            ResumeErrorView::MissingRedirectedUri =>
                "Missing redirected URI (pass it as the positional URI|DEVICE_CODE)"@,
            ResumeErrorView::InvalidRedirectedUri(err) => "Invalid redirected URI: "@ + err,
            ResumeErrorView::Authorization(params) => "Authorization error (code "@ + params.error
                + ")"@,
            ResumeErrorView::StateMissing => "Authorization response is missing state"@,
            ResumeErrorView::StateMismatch =>
                "Authorization request and response states do not match"@,
            ResumeErrorView::InvalidPkceCodeVerifier(err) => err,
            ResumeErrorView::IssueAccessToken(params) => "Issue access token error (code "@
                + params.error + ")"@,
        }
    }

    /// The text of what the error comes from, where the server gave one.
    pub open spec fn cause(self) -> Option<Seq<char>> {
        match self {
            ResumeErrorView::Authorization(params) => params.explanation(),
            ResumeErrorView::IssueAccessToken(params) => params.explanation(),
            _ => None,
        }
    }
}

impl ResumeError {
    /// The text of the error.
    pub fn message(&self) -> (r: String)
        ensures
            r@ == self@.message(),
    {
        match self {
            ResumeError::DeviceGrantFlags =>
                "The --state, --pkce and --redirect-uri flags are only valid for the authorization-code grant".to_owned(),
            ResumeError::MissingDeviceCode => "Missing device code".to_owned(),
            ResumeError::MissingTokenEndpoint =>
                "Missing endpoints.token in the account config".to_owned(),
            ResumeError::MissingRedirectedUri =>
                "Missing redirected URI (pass it as the positional URI|DEVICE_CODE)".to_owned(),
            ResumeError::InvalidRedirectedUri(err) => {
                let mut text = "Invalid redirected URI: ".to_owned();
                text.append(err.as_str());
                text
            },
            ResumeError::Authorization(params) => {
                let mut text = "Authorization error (code ".to_owned();
                text.append(params.error.as_str());
                text.append(")");
                text
            },
            ResumeError::StateMissing => "Authorization response is missing state".to_owned(),
            ResumeError::StateMismatch =>
                "Authorization request and response states do not match".to_owned(),
            ResumeError::InvalidPkceCodeVerifier(err) => err.clone(),
            ResumeError::IssueAccessToken(params) => {
                let mut text = "Issue access token error (code ".to_owned();
                text.append(params.error.as_str());
                text.append(")");
                text
            },
        }
    }

    /// The text of what the error comes from, where the server gave one.
    pub fn cause(&self) -> (r: Option<String>)
        ensures
            r.deep_view() == self@.cause(),
    {
        match self {
            ResumeError::Authorization(params) => params.explanation(),
            ResumeError::IssueAccessToken(params) => params.explanation(),
            _ => None,
        }
    }
}

} // verus!
