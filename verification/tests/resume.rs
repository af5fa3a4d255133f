use io_oauth::rfc6749::auth_response::Oauth20AuthParams;
use io_oauth::rfc6749::state::Oauth20State;
use ortie::account::{Account, GrantConfig};
use ortie::auth::error::{ErrorParams, ResumeError};
use ortie::auth::response::{read_redirect, AuthParams, AuthParamsValidationError};
use ortie::auth::resume::{
    conclude, pkce_code_verifier_parser, state_parser, uri_parser, AuthResumeCommand, CodeGrant,
    Conclusion, DeviceAuthSuccessParams, ResumeStep, TokenRequest,
};
use ortie::auth::state::State;
use ortie::token::params::AccessTokenSuccessParams;
use ortie::uri::Uri;
use url::Url;

const VERIFIER: &str = "abcdefghijklmnopqrstuvwxyzABCDEFGHIJKLMNOP01234";

fn command(input: &str) -> AuthResumeCommand {
    AuthResumeCommand {
        input: input.into(),
        state: None,
        pkce: None,
        redirect_uri: None,
    }
}

fn state(text: &str) -> State {
    state_parser(text).unwrap_or_else(|err| panic!("{err}"))
}

fn account(grant: GrantConfig) -> Account {
    Account {
        grant,
        client_id: "c".into(),
        token_endpoint: Some(uri_parser("http://127.0.0.1:8080/token").unwrap()),
        redirection_endpoint: Some(uri_parser("http://127.0.0.1/cb").unwrap()),
    }
}

fn error_of(cmd: AuthResumeCommand, account: &Account) -> ResumeError {
    match cmd.execute(account) {
        Ok(_) => panic!("the command should fail"),
        Err(err) => err,
    }
}

fn grant_of(cmd: AuthResumeCommand, account: &Account) -> CodeGrant {
    match cmd.execute(account) {
        Ok(ResumeStep::ResolveClientSecret(grant)) => grant,
        Ok(ResumeStep::PollDevice { .. }) => panic!("not a device grant"),
        Err(err) => panic!("{err:?}"),
    }
}

fn poll_of(cmd: AuthResumeCommand, account: &Account) -> (Uri, DeviceAuthSuccessParams) {
    match cmd.execute(account) {
        Ok(ResumeStep::PollDevice { token_endpoint, device }) => (token_endpoint, device),
        Ok(ResumeStep::ResolveClientSecret(_)) => panic!("not an authorization-code grant"),
        Err(err) => panic!("{err:?}"),
    }
}

fn request_of(grant: CodeGrant, secret: Option<String>) -> TokenRequest {
    match grant.request(secret) {
        Ok(request) => request,
        Err(err) => panic!("{err:?}"),
    }
}

#[test]
fn authorization_code_input_is_redirected_uri_string() {
    let redirected = "  http://127.0.0.1/cb?code=abc&state=s  ";
    let cmd = AuthResumeCommand {
        input: redirected.into(),
        state: None,
        pkce: None,
        redirect_uri: None,
    };
    let trimmed = cmd.input.trim();
    assert!(!trimmed.is_empty());
    assert!(uri_parser(trimmed).is_ok());
    assert!(cmd.state.is_none());
    assert!(cmd.pkce.is_none());
    assert!(cmd.redirect_uri.is_none());
}

#[test]
fn authorization_code_await_redirect_chain_fields() {
    let redirected = "http://127.0.0.1:9/?code=c&state=s";
    let registered = uri_parser("http://127.0.0.1:9/").unwrap();
    let random = Oauth20State::default();
    let cmd = AuthResumeCommand {
        input: redirected.into(),
        state: Some(state(std::str::from_utf8(random.expose()).unwrap())),
        pkce: Some("abcdefghijklmnopqrstuvwxyzABCDEFGHIJKLMNOP01234".into()),
        redirect_uri: Some(registered.clone()),
    };
    assert_eq!(cmd.input, redirected);
    assert!(cmd.state.is_some());
    assert!(cmd.pkce.is_some());
    assert_eq!(cmd.redirect_uri.as_ref(), Some(&registered));
    assert!(uri_parser(&cmd.input).is_ok());
}

#[test]
fn pkce_code_verifier_parser_error_omits_verifier_body() {
    let secret = "pkce-secret-value-with space";
    let err = pkce_code_verifier_parser(secret).err().unwrap();
    assert!(!err.contains(secret), "{err}");
    assert!(err.contains("Invalid 0x"), "{err}");
}

#[test]
fn auth_resume_debug_redacts_positional_input() {
    let cmd = AuthResumeCommand {
        input: "device-code-super-secret".into(),
        state: None,
        pkce: None,
        redirect_uri: None,
    };
    let rendered = cmd.fmt();
    assert!(!rendered.contains("device-code-super-secret"), "{rendered}");
    assert!(rendered.contains("[REDACTED]"), "{rendered}");
}

#[test]
fn description_shows_what_is_not_secret() {
    let cmd = command("secret");
    assert_eq!(
        cmd.fmt(),
        "AuthResumeCommand { input: \"[REDACTED]\", state: None, pkce: None, redirect_uri: None }"
    );

    let redirect_uri = "https://user@example.org:444/a?b=c#d";
    let cmd = AuthResumeCommand {
        input: "secret".into(),
        state: Some(state("secret")),
        pkce: Some("secret".into()),
        redirect_uri: Some(uri_parser(redirect_uri).unwrap()),
    };
    let expected = format!(
        "AuthResumeCommand {{ input: {:?}, state: {:?}, pkce: {:?}, redirect_uri: {:?} }}",
        "[REDACTED]",
        Some(Oauth20State::default()),
        Some("[REDACTED]"),
        Some(Url::parse(redirect_uri).unwrap()),
    );
    assert_eq!(cmd.fmt(), expected);
    assert!(!cmd.fmt().contains("secret"));
}

#[test]
fn uri_parser_normalises() {
    let uri = uri_parser("HTTP://Example.org").unwrap();
    assert_eq!(uri.as_str(), "http://example.org/");
    assert_eq!(uri, uri_parser("http://example.org:80/").unwrap());
    assert_ne!(uri, uri_parser("http://example.org/a").unwrap());
    assert_eq!(uri.listing(), format!("{:?}", Url::parse("http://example.org").unwrap()));
}

#[test]
fn uri_parser_errors_are_fixed_texts() {
    assert_eq!(uri_parser("not a url").unwrap_err(), "relative URL without a base");
    assert_eq!(uri_parser("http://").unwrap_err(), "empty host");
    assert_eq!(uri_parser("http://a:b/").unwrap_err(), "invalid port number");
    assert_eq!(uri_parser("http://1.2.3.256/").unwrap_err(), "invalid IPv4 address");
    assert_eq!(uri_parser("http://[::1/").unwrap_err(), "invalid IPv6 address");
    assert_eq!(uri_parser("http://a b/").unwrap_err(), "invalid international domain name");
}

#[test]
fn state_parser_takes_visible_ascii_and_space() {
    for b in 0u8..0x80 {
        let text = format!("a{}z", b as char);
        match state_parser(&text) {
            Ok(state) => {
                assert!((0x20..=0x7E).contains(&b));
                assert_eq!(state.expose(), text.as_bytes());
            }
            Err(err) => {
                assert!(!(0x20..=0x7E).contains(&b));
                assert_eq!(err, format!("invalid byte 0x{b:x} found in state"));
            }
        }
    }
    assert_eq!(
        state_parser("caf\u{e9}\t").err().unwrap(),
        "invalid byte 0xc3 found in state"
    );
    assert!(state_parser("").unwrap_or_else(|err| panic!("{err}")).expose().is_empty());
}

#[test]
fn states_compare_by_their_bytes() {
    assert!(state("abc") == state("abc"));
    assert!(state("abc") != state("abd"));
    assert!(state("abc") != state("ab"));
    assert!(state("abc") == state("abc").clone());
}

#[test]
fn pkce_code_verifier_parser_takes_unreserved_bytes() {
    for b in 0u8..0x80 {
        let c = b as char;
        let text = format!("a{c}z");
        match pkce_code_verifier_parser(&text) {
            Ok(verifier) => {
                assert!(c.is_ascii_alphanumeric() || "-._~".contains(c));
                assert_eq!(verifier.expose(), text.as_bytes());
            }
            Err(err) => {
                assert!(!c.is_ascii_alphanumeric() && !"-._~".contains(c));
                assert_eq!(err, format!("Invalid 0x{b:x} found in PKCE code verifier"));
            }
        }
    }
    assert_eq!(
        pkce_code_verifier_parser("\u{1F600}").err().unwrap(),
        "Invalid 0xf0 found in PKCE code verifier"
    );
}

#[test]
fn pkce_error_depends_on_one_byte() {
    assert_eq!(
        pkce_code_verifier_parser("secret+one").err(),
        pkce_code_verifier_parser("another+ secret").err()
    );
    // A verifier that is a piece of the message is the exception.
    assert!(pkce_code_verifier_parser("found in").err().unwrap().contains("found in"));
    assert!(!pkce_code_verifier_parser("found+in").err().unwrap().contains("found+in"));
}

#[test]
fn device_grant_polls_the_token_endpoint() {
    let account = account(GrantConfig::Device);
    let (token_endpoint, device) = poll_of(command("\t dc-test\n"), &account);
    assert_eq!(token_endpoint.as_str(), "http://127.0.0.1:8080/token");
    assert_eq!(device.device_code, "dc-test");
    assert_eq!(device.user_code, "");
    assert_eq!(device.verification_uri, "");
    assert_eq!(device.verification_uri_complete, None);
    assert_eq!(device.expires_in, 1800);
    assert_eq!(device.interval, 5);
}

#[test]
fn device_grant_refuses_flags_of_the_other_grant() {
    let account = account(GrantConfig::Device);
    let mut with_state = command("dc");
    with_state.state = Some(state("s"));
    let mut with_pkce = command("dc");
    with_pkce.pkce = Some(VERIFIER.into());
    let mut with_redirect_uri = command("");
    with_redirect_uri.redirect_uri = Some(uri_parser("http://127.0.0.1/").unwrap());

    for cmd in [with_state, with_pkce, with_redirect_uri] {
        let err = error_of(cmd, &account);
        assert!(matches!(err, ResumeError::DeviceGrantFlags));
        assert_eq!(
            err.message(),
            "The --state, --pkce and --redirect-uri flags are only valid for the \
             authorization-code grant"
        );
        assert_eq!(err.cause(), None);
    }
}

#[test]
fn missing_pieces_are_reported_in_order() {
    let mut device = account(GrantConfig::Device);
    device.token_endpoint = None;
    let err = error_of(command(" \u{3000} "), &device);
    assert_eq!(err.message(), "Missing device code");
    let err = error_of(command("dc"), &device);
    assert_eq!(err.message(), "Missing endpoints.token in the account config");

    let mut code = account(GrantConfig::AuthorizationCode);
    let err = error_of(command("\u{85}"), &code);
    assert_eq!(
        err.message(),
        "Missing redirected URI (pass it as the positional URI|DEVICE_CODE)"
    );
    code.token_endpoint = None;
    let err = error_of(command(""), &code);
    assert_eq!(err.message(), "Missing endpoints.token in the account config");
}

#[test]
fn white_space_is_what_unicode_says() {
    let account = account(GrantConfig::Device);
    for c in '\0'..=char::MAX {
        let u = c as u32;
        let expected = (0x9..=0xD).contains(&u)
            || (0x2000..=0x200A).contains(&u)
            || [0x20, 0x85, 0xA0, 0x1680, 0x2028, 0x2029, 0x202F, 0x205F, 0x3000].contains(&u);
        let blank = matches!(
            command(&c.to_string()).execute(&account),
            Err(ResumeError::MissingDeviceCode)
        );
        assert_eq!(blank, expected, "{u:x}");
    }
    let (_, device) = poll_of(command("\u{2003}\r\na b\u{a0}\t"), &account);
    assert_eq!(device.device_code, "a b");
}

#[test]
fn authorization_code_input_exchanges_code() {
    let account = account(GrantConfig::AuthorizationCode);
    let mut cmd = command("  http://127.0.0.1/cb?code=auth-code-xyz&state=mystate  ");
    cmd.state = Some(state("mystate"));
    let request = request_of(grant_of(cmd, &account), Some("shh".into()));
    assert_eq!(request.token_endpoint.as_str(), "http://127.0.0.1:8080/token");
    assert_eq!(request.client_id, "c");
    assert_eq!(request.client_secret.as_deref(), Some("shh"));
    assert_eq!(request.params.code, "auth-code-xyz");
    assert_eq!(request.params.redirect_uri.as_deref(), Some("http://127.0.0.1/cb"));
    assert_eq!(request.params.client_id, "c");
    assert_eq!(request.params.client_secret, None);
    assert!(request.params.pkce_code_verifier.is_none());
}

#[test]
fn redirect_uri_flag_overrides_the_account() {
    let mut account = account(GrantConfig::AuthorizationCode);
    let mut cmd = command("http://127.0.0.1/cb?code=x");
    cmd.redirect_uri = Some(uri_parser("http://127.0.0.1:9").unwrap());
    let request = request_of(grant_of(cmd, &account), None);
    assert_eq!(request.params.redirect_uri.as_deref(), Some("http://127.0.0.1:9/"));
    assert_eq!(request.client_secret, None);

    account.redirection_endpoint = None;
    let request = request_of(grant_of(command("http://127.0.0.1/cb?code=x"), &account), None);
    assert_eq!(request.params.redirect_uri, None);
}

#[test]
fn pkce_verifier_goes_along_with_the_code() {
    let account = account(GrantConfig::AuthorizationCode);
    let mut cmd = command("http://127.0.0.1/cb?code=pkce-code&state=s1");
    cmd.state = Some(state("s1"));
    cmd.pkce = Some(VERIFIER.into());
    let request = request_of(grant_of(cmd, &account), None);
    let verifier = request.params.pkce_code_verifier.unwrap();
    assert_eq!(verifier.expose(), VERIFIER.as_bytes());
}

#[test]
fn invalid_pkce_verifier_stays_off_the_error() {
    let account = account(GrantConfig::AuthorizationCode);
    let secret = "pkce-verifier-with space-secret";
    let mut cmd = command("http://127.0.0.1/cb?code=x&state=y");
    cmd.pkce = Some(secret.into());
    let err = match grant_of(cmd, &account).request(None) {
        Ok(_) => panic!("the verifier should be turned down"),
        Err(err) => err,
    };
    assert!(matches!(err, ResumeError::InvalidPkceCodeVerifier(_)));
    assert_eq!(err.message(), "Invalid 0x20 found in PKCE code verifier");
    assert!(!format!("{err:?}").contains(secret));
}

#[test]
fn invalid_redirect_stays_off_the_error() {
    let account = account(GrantConfig::AuthorizationCode);
    let err = error_of(command("not a url?code=auth-code-must-not-leak&state=s"), &account);
    assert!(matches!(err, ResumeError::InvalidRedirectedUri(_)));
    assert_eq!(err.message(), "Invalid redirected URI: relative URL without a base");
    assert_eq!(err.cause(), None);
    assert!(!format!("{err:?}").contains("auth-code-must-not-leak"));
}

#[test]
fn state_mismatch_stays_off_the_error() {
    let account = account(GrantConfig::AuthorizationCode);
    let mut cmd = command("http://127.0.0.1/cb?code=x&state=from-server");
    cmd.state = Some(state("from-client"));
    let err = error_of(cmd, &account);
    assert!(matches!(err, ResumeError::StateMismatch));
    assert_eq!(err.message(), "Authorization request and response states do not match");

    let mut cmd = command("http://127.0.0.1/cb?code=x");
    cmd.state = Some(state("from-client"));
    let err = error_of(cmd, &account);
    assert!(matches!(err, ResumeError::StateMissing));
    assert_eq!(err.message(), "Authorization response is missing state");

    // Without an expected state, that of the response goes unchecked.
    grant_of(command("http://127.0.0.1/cb?code=x&state=from-server"), &account);
}

#[test]
fn server_error_is_reported_with_its_explanation() {
    let account = account(GrantConfig::AuthorizationCode);
    let cases = [
        ("error=access_denied", "AccessDenied", None),
        ("error=access_denied&error_description=no+way", "AccessDenied", Some("no way")),
        ("error=server_error&error_uri=http://e.org", "ServerError", Some("http://e.org/")),
        (
            "ERROR=invalid_scope&error_description=d&error_uri=http://e.org/x",
            "InvalidScope",
            Some("d: http://e.org/x"),
        ),
        ("error=made_up&error_uri=nope", "Unknown", None),
        ("state=s", "InvalidRequest", None),
    ];
    for (query, code, cause) in cases {
        let mut cmd = command(&format!("http://127.0.0.1/cb?{query}"));
        cmd.state = Some(state("s"));
        let err = error_of(cmd, &account);
        assert!(matches!(err, ResumeError::Authorization(_)));
        assert_eq!(err.message(), format!("Authorization error (code {code})"));
        assert_eq!(err.cause().as_deref(), cause);
    }
}

#[test]
fn redirect_is_read_like_the_authorization_response() {
    let uri = "http://127.0.0.1/cb?Code=a%20b&code=c+d&state=ok&STATE=%00";
    match read_redirect(uri) {
        Ok(AuthParams::Success { code, state: Some(got) }) => {
            assert_eq!(code, "c d");
            assert!(got == state("ok"));
        }
        _ => panic!("a code and a state should be found"),
    }
    let url = Url::parse(uri).unwrap();
    let ours = read_redirect(uri).unwrap_or_else(|err| panic!("{err}"));
    let theirs = Oauth20AuthParams::from(&url).validate(None).unwrap();
    assert_eq!(ours.validate(None).ok().unwrap(), theirs);
}

#[test]
fn validation_accepts_the_expected_state_only() {
    let success = |state: Option<State>| AuthParams::Success { code: "c".into(), state };
    let expected = state("s");
    assert_eq!(success(Some(state("s"))).validate(Some(&expected)).ok().unwrap(), "c");
    assert!(matches!(
        success(None).validate(Some(&expected)),
        Err(AuthParamsValidationError::StateMissing)
    ));
    assert!(matches!(
        success(Some(state("t"))).validate(Some(&expected)),
        Err(AuthParamsValidationError::StateMismatch)
    ));
    assert_eq!(success(None).validate(None).ok().unwrap(), "c");
    let error = AuthParams::Error(ErrorParams {
        error: "AccessDenied".into(),
        error_description: None,
        error_uri: None,
    });
    assert!(matches!(error.validate(None), Err(AuthParamsValidationError::Server(_))));
}

#[test]
fn authorize_takes_the_response_as_given() {
    let account = account(GrantConfig::AuthorizationCode);
    let endpoint = uri_parser("https://example.org/token").unwrap();
    let response = AuthParams::Success { code: "c".into(), state: None };
    let grant = command("").authorize(&account, &endpoint, Ok(response)).ok().unwrap();
    let request = request_of(grant, None);
    assert_eq!(request.token_endpoint.as_str(), "https://example.org/token");
    assert_eq!(request.params.code, "c");

    let err = command("").authorize(&account, &endpoint, Err("why".into())).err().unwrap();
    assert_eq!(err.message(), "Invalid redirected URI: why");
}

#[test]
fn response_of_the_token_endpoint_is_concluded() {
    let params = AccessTokenSuccessParams {
        access_token: "at-test".into(),
        token_type: "Bearer".into(),
        expires_in: Some(3600),
        refresh_token: None,
        scope: None,
        issued_at: None,
    };
    match conclude(Ok(params)) {
        Conclusion::ReportIssued(params) => assert_eq!(params.access_token, "at-test"),
        Conclusion::RunIssueErrorHook(err) => panic!("{err:?}"),
    }

    let params = ErrorParams {
        error: "InvalidGrant".into(),
        error_description: Some("expired".into()),
        error_uri: Some("http://e.org".into()),
    };
    match conclude(Err(params)) {
        Conclusion::ReportIssued(_) => panic!("not a success"),
        Conclusion::RunIssueErrorHook(err) => {
            assert_eq!(err.message(), "Issue access token error (code InvalidGrant)");
            assert_eq!(err.cause().as_deref(), Some("expired: http://e.org"));
        }
    }
}
