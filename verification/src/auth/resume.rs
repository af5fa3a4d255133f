//! The `auth resume` command: complete an OAuth 2.0 grant.
//!
//! A grant is completed in steps. [`AuthResumeCommand::execute`] checks the
//! command against the account and says what to do next: poll the token endpoint
//! with a device code, or resolve the client secret. With the secret,
//! [`CodeGrant::request`] gives the request to send to the token endpoint, and
//! [`conclude`] says what to do with the response.

use vstd::prelude::*;
use vstd::string::StringExecFns;
use vstd::utf8::encode_utf8;

use crate::account::{Account, AccountView, GrantConfig};
use crate::auth::error::{ErrorParams, ResumeError, ResumeErrorView};
use crate::auth::pkce::{first_reserved, PkceCodeVerifier};
use crate::auth::response::{
    is_auth_error_code, read_redirect, redirect_response, AuthParams, AuthParamsValidationError,
    AuthParamsValidationErrorView, AuthParamsView,
};
use crate::auth::state::{first_non_vschar, invalid_state_text, State};
use crate::text::{append_lower_hex, lower_hex, trim, trimmed};
use crate::token::params::AccessTokenSuccessParams;
use crate::uri::{is_parse_error_text, parse_url, url_parse, Uri, UriView};

verus! {

/// Resume an existing OAuth 2.0 grant flow.
///
/// Positional input is the redirected URI (authorization-code) or the device
/// code (device grant). The command has no `Debug`; [`AuthResumeCommand::fmt`]
/// describes it without its secrets.
pub struct AuthResumeCommand {
    /// Redirected URI or device code.
    pub input: String,
    /// State of the authorization request (authorization-code only).
    pub state: Option<State>,
    /// PKCE code verifier, not validated yet (authorization-code only).
    pub pkce: Option<String>,
    /// Redirect URI of the authorization request (authorization-code only).
    pub redirect_uri: Option<Uri>,
}

/// What [`AuthResumeCommand`] is, as contracts speak of it.
pub struct AuthResumeCommandView {
    pub input: Seq<char>,
    pub state: Option<Seq<u8>>,
    pub pkce: Option<Seq<char>>,
    pub redirect_uri: Option<UriView>,
}

impl View for AuthResumeCommand {
    type V = AuthResumeCommandView;

    open spec fn view(&self) -> AuthResumeCommandView {
        AuthResumeCommandView {
            input: self.input@,
            state: self.state.deep_view(),
            pkce: self.pkce.deep_view(),
            redirect_uri: self.redirect_uri.deep_view(),
        }
    }
}

/// A device authorization, as the token endpoint is polled with it. It has no
/// `Debug`: it holds a secret.
pub struct DeviceAuthSuccessParams {
    /// The device code the token endpoint is polled with.
    pub device_code: String,
    /// The user code the end user types at the verification URI.
    pub user_code: String,
    /// The verification URI shown to the end user.
    pub verification_uri: String,
    /// The verification URI with the user code embedded.
    pub verification_uri_complete: Option<String>,
    /// The lifetime of the device code, in seconds.
    pub expires_in: usize,
    /// The seconds to wait between polls.
    pub interval: usize,
}

/// What [`DeviceAuthSuccessParams`] is, as contracts speak of it.
pub struct DeviceAuthSuccessParamsView {
    pub device_code: Seq<char>,
    pub user_code: Seq<char>,
    pub verification_uri: Seq<char>,
    pub verification_uri_complete: Option<Seq<char>>,
    pub expires_in: usize,
    pub interval: usize,
}

impl View for DeviceAuthSuccessParams {
    type V = DeviceAuthSuccessParamsView;

    open spec fn view(&self) -> DeviceAuthSuccessParamsView {
        DeviceAuthSuccessParamsView {
            device_code: self.device_code@,
            user_code: self.user_code@,
            verification_uri: self.verification_uri@,
            verification_uri_complete: self.verification_uri_complete.deep_view(),
            expires_in: self.expires_in,
            interval: self.interval,
        }
    }
}

/// An authorization code that passed validation, with what goes along with it to
/// the token endpoint. It has no `Debug`: it holds secrets.
pub struct CodeGrant {
    token_endpoint: Uri,
    client_id: String,
    code: String,
    redirect_uri: Option<String>,
    pkce: Option<String>,
}

/// What [`CodeGrant`] is, as contracts speak of it.
pub struct CodeGrantView {
    pub token_endpoint: UriView,
    pub client_id: Seq<char>,
    pub code: Seq<char>,
    pub redirect_uri: Option<Seq<char>>,
    pub pkce: Option<Seq<char>>,
}

impl View for CodeGrant {
    type V = CodeGrantView;

    closed spec fn view(&self) -> CodeGrantView {
        CodeGrantView {
            token_endpoint: self.token_endpoint@,
            client_id: self.client_id@,
            code: self.code@,
            redirect_uri: self.redirect_uri.deep_view(),
            pkce: self.pkce.deep_view(),
        }
    }
}

/// A grant is seen by contracts with all its fields as they are.
proof fn law_view_keeps_grant(grant: CodeGrant)
    ensures
        grant@.token_endpoint == grant.token_endpoint@,
        grant@.client_id == grant.client_id@,
        grant@.code == grant.code@,
        grant@.redirect_uri == grant.redirect_uri.deep_view(),
        grant@.pkce == grant.pkce.deep_view(),
{
}

/// What to do next to complete a grant.
pub enum ResumeStep {
    /// Poll the token endpoint until the device authorization is settled.
    PollDevice {
        /// The endpoint to poll.
        token_endpoint: Uri,
        /// The device authorization to poll with.
        device: DeviceAuthSuccessParams,
    },
    /// Resolve the client secret of the account, if it has one.
    ResolveClientSecret(CodeGrant),
}

/// What [`ResumeStep`] is, as contracts speak of it.
pub enum ResumeStepView {
    PollDevice { token_endpoint: UriView, device: DeviceAuthSuccessParamsView },
    ResolveClientSecret(CodeGrantView),
}

impl View for ResumeStep {
    type V = ResumeStepView;

    open spec fn view(&self) -> ResumeStepView {
        match self {
            ResumeStep::PollDevice { token_endpoint, device } => ResumeStepView::PollDevice {
                token_endpoint: token_endpoint@,
                device: device@,
            },
            ResumeStep::ResolveClientSecret(grant) => ResumeStepView::ResolveClientSecret(grant@),
        }
    }
}

/// The device authorization that a device code alone stands for: the lifetime
/// and the interval are half an hour and five seconds, the rest is empty.
pub open spec fn device_authorization(device_code: Seq<char>) -> DeviceAuthSuccessParamsView {
    DeviceAuthSuccessParamsView {
        device_code,
        user_code: seq![],
        verification_uri: seq![],
        verification_uri_complete: None,
        expires_in: 1800,
        interval: 5,
    }
}

impl AuthResumeCommandView {
    /// Whether a flag of the authorization-code grant is set.
    pub open spec fn has_code_flags(self) -> bool {
        self.state is Some || self.pkce is Some || self.redirect_uri is Some
    }

    /// The redirect URI that goes to the token endpoint: that of the command,
    /// else that of the account.
    pub open spec fn effective_redirect_uri(self, account: AccountView) -> Option<Seq<char>> {
        match (self.redirect_uri, account.redirection_endpoint) {
            (Some(uri), _) => Some(uri.text),
            (None, Some(uri)) => Some(uri.text),
            (None, None) => None,
        }
    }

    /// What comes of the response that the redirected URI holds.
    pub open spec fn authorized(
        self,
        account: AccountView,
        token_endpoint: UriView,
        redirect: Result<AuthParamsView, Seq<char>>,
    ) -> Result<CodeGrantView, ResumeErrorView> {
        match redirect {
            Err(err) => Err(ResumeErrorView::InvalidRedirectedUri(err)),
            Ok(params) => match params.validated(self.state) {
                Ok(code) => Ok(
                    CodeGrantView {
                        token_endpoint,
                        client_id: account.client_id,
                        code,
                        redirect_uri: self.effective_redirect_uri(account),
                        pkce: self.pkce,
                    },
                ),
                Err(AuthParamsValidationErrorView::Server(params)) => Err(
                    ResumeErrorView::Authorization(params),
                ),
                Err(AuthParamsValidationErrorView::StateMissing) => Err(
                    ResumeErrorView::StateMissing,
                ),
                Err(AuthParamsValidationErrorView::StateMismatch) => Err(
                    ResumeErrorView::StateMismatch,
                ),
            },
        }
    }

    /// What comes of the command for an account.
    pub open spec fn resumed(self, account: AccountView) -> Result<ResumeStepView, ResumeErrorView> {
        let input = trimmed(self.input);
        match (account.grant, account.token_endpoint) {
            (GrantConfig::Device, token_endpoint) => if self.has_code_flags() {
                Err(ResumeErrorView::DeviceGrantFlags)
            } else if input.len() == 0 {
                Err(ResumeErrorView::MissingDeviceCode)
            } else {
                match token_endpoint {
                    None => Err(ResumeErrorView::MissingTokenEndpoint),
                    Some(token_endpoint) => Ok(
                        ResumeStepView::PollDevice {
                            token_endpoint,
                            device: device_authorization(input),
                        },
                    ),
                }
            },
            (GrantConfig::AuthorizationCode, None) => Err(ResumeErrorView::MissingTokenEndpoint),
            (GrantConfig::AuthorizationCode, Some(token_endpoint)) => if input.len() == 0 {
                Err(ResumeErrorView::MissingRedirectedUri)
            } else {
                match self.authorized(account, token_endpoint, redirect_response(input)) {
                    Ok(grant) => Ok(ResumeStepView::ResolveClientSecret(grant)),
                    Err(err) => Err(err),
                }
            },
        }
    }
}

/// Whether the message of an error is one of a fixed list: what varies in it is
/// the reason that a URI does not parse for, or the error code that the
/// authorization server answers with, and both come from fixed lists.
pub open spec fn has_fixed_message(err: ResumeErrorView) -> bool {
    match err {
        ResumeErrorView::InvalidRedirectedUri(reason) => is_parse_error_text(reason),
        ResumeErrorView::Authorization(params) => is_auth_error_code(params.error),
        ResumeErrorView::InvalidPkceCodeVerifier(_) => false,
        ResumeErrorView::IssueAccessToken(_) => false,
        _ => true,
    }
}

impl AuthResumeCommand {
    /// Checks the command against the account and says what to do next.
    ///
    /// White space around the input is ignored. The message of an error repeats
    /// nothing of the command: what varies in it is the reason that the URI does
    /// not parse for, or the error code of the authorization server.
    pub fn execute(self, account: &Account) -> (r: Result<ResumeStep, ResumeError>)
        ensures
            match self@.resumed(account@) {
                Ok(step) => r matches Ok(s) && s@ == step,
                Err(err) => r matches Err(e) && e@ == err,
            },
            r matches Err(e) ==> has_fixed_message(e@),
    {
        if account.grant == GrantConfig::Device {
            if self.state.is_some() || self.pkce.is_some() || self.redirect_uri.is_some() {
                return Err(ResumeError::DeviceGrantFlags);
            }
            let device_code = trim(self.input.as_str());
            if device_code.is_empty() {
                return Err(ResumeError::MissingDeviceCode);
            }
            let Some(token_endpoint) = &account.token_endpoint else {
                return Err(ResumeError::MissingTokenEndpoint);
            };
            let device = DeviceAuthSuccessParams {
                device_code: device_code.to_owned(),
                user_code: String::new(),
                verification_uri: String::new(),
                verification_uri_complete: None,
                expires_in: 1800,
                interval: 5,
            };
            return Ok(ResumeStep::PollDevice { token_endpoint: token_endpoint.clone(), device });
        }
        let Some(token_endpoint) = &account.token_endpoint else {
            return Err(ResumeError::MissingTokenEndpoint);
        };
        let input = trim(self.input.as_str());
        if input.is_empty() {
            return Err(ResumeError::MissingRedirectedUri);
        }
        let redirect = read_redirect(input);
        match self.authorize(account, token_endpoint, redirect) {
            Ok(grant) => Ok(ResumeStep::ResolveClientSecret(grant)),
            Err(err) => Err(err),
        }
    }

    /// Validates the response that the redirected URI holds, where the URI
    /// parses, against the state of the command.
    pub fn authorize(
        self,
        account: &Account,
        token_endpoint: &Uri,
        redirect: Result<AuthParams, String>,
    ) -> (r: Result<CodeGrant, ResumeError>)
        ensures
            match self@.authorized(
                account@,
                token_endpoint@,
                match redirect {
                    Ok(params) => Ok(params@),
                    Err(err) => Err(err@),
                },
            ) {
                Ok(grant) => r matches Ok(g) && g@ == grant,
                Err(err) => r matches Err(e) && e@ == err,
            },
    {
        let params = match redirect {
            Ok(params) => params,
            Err(err) => {
                return Err(ResumeError::InvalidRedirectedUri(err));
            },
        };
        let code = match params.validate(self.state.as_ref()) {
            Ok(code) => code,
            Err(AuthParamsValidationError::Server(params)) => {
                return Err(ResumeError::Authorization(params));
            },
            Err(AuthParamsValidationError::StateMissing) => {
                return Err(ResumeError::StateMissing);
            },
            Err(AuthParamsValidationError::StateMismatch) => {
                return Err(ResumeError::StateMismatch);
            },
        };
        let redirect_uri = match (&self.redirect_uri, &account.redirection_endpoint) {
            (Some(uri), _) => Some(uri.as_str().to_owned()),
            (None, Some(uri)) => Some(uri.as_str().to_owned()),
            (None, None) => None,
        };
        Ok(
            CodeGrant {
                token_endpoint: token_endpoint.clone(),
                client_id: account.client_id.clone(),
                code,
                redirect_uri,
                pkce: self.pkce,
            },
        )
    }
}

/// An optional value, as diagnostics show it.
pub open spec fn shown_option(value: Option<Seq<char>>) -> Seq<char> {
    match value {
        Some(value) => "Some("@ + value + ")"@,
        None => "None"@,
    }
}

impl AuthResumeCommandView {
    /// The command as diagnostics show it: of the input nothing is told, of the
    /// state and of the PKCE code verifier only whether they are there. A state
    /// shows as `Oauth20State` does, which is the same for every state; a
    /// redirect URI shows by the listing of its components.
    pub open spec fn shown(self) -> Seq<char> {
        "AuthResumeCommand { input: \"[REDACTED]\", state: "@ + shown_option(
            match self.state {
                Some(_) => Some("Oauth20State(SecretBox<[u8]>([REDACTED]))"@),
                None => None,
            },
        ) + ", pkce: "@ + shown_option(
            match self.pkce {
                Some(_) => Some("\"[REDACTED]\""@),
                None => None,
            },
        ) + ", redirect_uri: "@ + shown_option(
            match self.redirect_uri {
                Some(uri) => Some(uri.listing),
                None => None,
            },
        ) + " }"@
    }
}

fn append_option(out: &mut String, value: Option<&str>)
    ensures
        final(out)@ == old(out)@ + shown_option(
            match value {
                Some(value) => Some(value@),
                None => None,
            },
        ),
{
    match value {
        Some(value) => {
            out.append("Some(");
            out.append(value);
            out.append(")");
            assert(out@ =~= old(out)@ + ("Some("@ + value@ + ")"@));
        },
        None => {
            out.append("None");
        },
    }
}

impl AuthResumeCommand {
    /// Describes the command for diagnostics, without its secrets.
    pub fn fmt(&self) -> (out: String)
        ensures
            out@ == self@.shown(),
    {
        let mut out = "AuthResumeCommand { input: \"[REDACTED]\", state: ".to_owned();
        append_option(
            &mut out,
            match &self.state {
                Some(_) => Some("Oauth20State(SecretBox<[u8]>([REDACTED]))"),
                None => None,
            },
        );
        out.append(", pkce: ");
        append_option(
            &mut out,
            match &self.pkce {
                Some(_) => Some("\"[REDACTED]\""),
                None => None,
            },
        );
        out.append(", redirect_uri: ");
        append_option(
            &mut out,
            match &self.redirect_uri {
                Some(uri) => Some(uri.listing()),
                None => None,
            },
        );
        out.append(" }");
        out
    }
}

/// The parameters of an access token request. They have no `Debug`: they hold
/// secrets.
pub struct AccessTokenRequestParams {
    /// The authorization code.
    pub code: String,
    /// The redirect URI, when it was part of the authorization request.
    pub redirect_uri: Option<String>,
    /// The client identifier.
    pub client_id: String,
    /// The client secret, where it travels in the body of the request.
    pub client_secret: Option<String>,
    /// The PKCE code verifier, when the flow uses PKCE.
    pub pkce_code_verifier: Option<PkceCodeVerifier>,
}

/// What [`AccessTokenRequestParams`] is, as contracts speak of it.
pub struct AccessTokenRequestParamsView {
    pub code: Seq<char>,
    pub redirect_uri: Option<Seq<char>>,
    pub client_id: Seq<char>,
    pub client_secret: Option<Seq<char>>,
    pub pkce_code_verifier: Option<Seq<u8>>,
}

impl View for AccessTokenRequestParams {
    type V = AccessTokenRequestParamsView;

    open spec fn view(&self) -> AccessTokenRequestParamsView {
        AccessTokenRequestParamsView {
            code: self.code@,
            redirect_uri: self.redirect_uri.deep_view(),
            client_id: self.client_id@,
            client_secret: self.client_secret.deep_view(),
            pkce_code_verifier: self.pkce_code_verifier.deep_view(),
        }
    }
}

/// An access token request, and the client that sends it.
pub struct TokenRequest {
    /// The endpoint to send the request to.
    pub token_endpoint: Uri,
    /// The identifier of the client.
    pub client_id: String,
    /// The secret that the client authenticates with.
    pub client_secret: Option<String>,
    /// The parameters of the request.
    pub params: AccessTokenRequestParams,
}

/// What [`TokenRequest`] is, as contracts speak of it.
pub struct TokenRequestView {
    pub token_endpoint: UriView,
    pub client_id: Seq<char>,
    pub client_secret: Option<Seq<char>>,
    pub params: AccessTokenRequestParamsView,
}

impl View for TokenRequest {
    type V = TokenRequestView;

    open spec fn view(&self) -> TokenRequestView {
        TokenRequestView {
            token_endpoint: self.token_endpoint@,
            client_id: self.client_id@,
            client_secret: self.client_secret.deep_view(),
            params: self.params@,
        }
    }
}

/// The text that turns a PKCE code verifier down for one of its bytes.
pub open spec fn invalid_pkce_text(b: u8) -> Seq<char> {
    "Invalid 0x"@ + lower_hex(b) + " found in PKCE code verifier"@
}

impl CodeGrantView {
    /// The first byte of the PKCE code verifier that it may not hold, if any.
    pub open spec fn rejected_pkce_byte(self) -> Option<u8> {
        match self.pkce {
            Some(pkce) => first_reserved(encode_utf8(pkce)),
            None => None,
        }
    }

    /// The request that exchanges the code, once the client secret is known.
    pub open spec fn requested(self, client_secret: Option<Seq<char>>) -> Result<
        TokenRequestView,
        ResumeErrorView,
    > {
        match self.rejected_pkce_byte() {
            Some(b) => Err(ResumeErrorView::InvalidPkceCodeVerifier(invalid_pkce_text(b))),
            None => Ok(
                TokenRequestView {
                    token_endpoint: self.token_endpoint,
                    client_id: self.client_id,
                    client_secret,
                    params: AccessTokenRequestParamsView {
                        code: self.code,
                        redirect_uri: self.redirect_uri,
                        client_id: self.client_id,
                        client_secret: None,
                        pkce_code_verifier: match self.pkce {
                            Some(pkce) => Some(encode_utf8(pkce)),
                            None => None,
                        },
                    },
                },
            ),
        }
    }
}

impl CodeGrant {
    /// The request that exchanges the code, once the client secret is known. The
    /// secret authenticates the client; it does not travel in the body.
    pub fn request(self, client_secret: Option<String>) -> (r: Result<TokenRequest, ResumeError>)
        ensures
            match self@.requested(client_secret.deep_view()) {
                Ok(request) => r matches Ok(q) && q@ == request,
                Err(err) => r matches Err(e) && e@ == err,
            },
    {
        let pkce_code_verifier = match &self.pkce {
            None => None,
            Some(raw) => match pkce_code_verifier_parser(raw.as_str()) {
                Ok(verifier) => Some(verifier),
                Err(err) => {
                    return Err(ResumeError::InvalidPkceCodeVerifier(err));
                },
            },
        };
        Ok(
            TokenRequest {
                token_endpoint: self.token_endpoint,
                client_id: self.client_id.clone(),
                client_secret,
                params: AccessTokenRequestParams {
                    code: self.code,
                    redirect_uri: self.redirect_uri,
                    client_id: self.client_id,
                    client_secret: None,
                    pkce_code_verifier,
                },
            },
        )
    }
}

/// What to do with the response of the token endpoint.
pub enum Conclusion {
    /// Store and report the issued token.
    ReportIssued(AccessTokenSuccessParams),
    /// Run the hook on issue errors of the account, then fail.
    RunIssueErrorHook(ResumeError),
}

/// What to do with the response of the token endpoint.
pub fn conclude(response: Result<AccessTokenSuccessParams, ErrorParams>) -> (r: Conclusion)
    ensures
        match response {
            Ok(params) => r == Conclusion::ReportIssued(params),
            Err(params) => r == Conclusion::RunIssueErrorHook(ResumeError::IssueAccessToken(params)),
        },
{
    match response {
        Ok(params) => Conclusion::ReportIssued(params),
        Err(params) => Conclusion::RunIssueErrorHook(ResumeError::IssueAccessToken(params)),
    }
}

/// Parses a URI given on the command line.
pub fn uri_parser(url: &str) -> (r: Result<Uri, String>)
    ensures
        match r {
            Ok(uri) => url_parse(url@) == Ok::<UriView, Seq<char>>(uri@),
            Err(err) => url_parse(url@) == Err::<UriView, Seq<char>>(err@) && is_parse_error_text(
                err@,
            ),
        },
{
    parse_url(url)
}

/// Parses a state given on the command line.
pub fn state_parser(state: &str) -> (r: Result<State, String>)
    ensures
        match first_non_vschar(encode_utf8(state@)) {
            None => r matches Ok(st) && st@ == encode_utf8(state@),
            Some(b) => r matches Err(err) && err@ == invalid_state_text(b),
        },
{
    State::parse(state)
}

/// Parses a PKCE code verifier given on the command line. The text of an error
/// quotes one byte of the verifier and nothing else of it.
pub fn pkce_code_verifier_parser(verifier: &str) -> (r: Result<PkceCodeVerifier, String>)
    ensures
        match first_reserved(encode_utf8(verifier@)) {
            None => r matches Ok(v) && v@ == encode_utf8(verifier@),
            Some(b) => r matches Err(err) && err@ == invalid_pkce_text(b),
        },
{
    match PkceCodeVerifier::parse(verifier) {
        Ok(verifier) => Ok(verifier),
        Err(b) => {
            let mut text = "Invalid 0x".to_owned();
            append_lower_hex(&mut text, b);
            text.append(" found in PKCE code verifier");
            Err(text)
        },
    }
}

} // verus!
