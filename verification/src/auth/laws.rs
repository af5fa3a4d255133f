//! What holds of completing a grant.

use vstd::prelude::*;
use vstd::utf8::{encode_scalar, encode_utf8};

use crate::account::{Account, AccountView, GrantConfig};
use crate::auth::error::{ErrorParams, ErrorParamsView, ResumeError, ResumeErrorView};
use crate::auth::pkce::{first_reserved, is_unreserved};
use crate::auth::response::{
    auth_response, redirect_response, AuthParams, AuthParamsValidationError,
    AuthParamsValidationErrorView, AuthParamsView,
};
use crate::auth::resume::{
    device_authorization, has_fixed_message, invalid_pkce_text, AccessTokenRequestParams,
    AuthResumeCommand, AuthResumeCommandView, CodeGrantView, DeviceAuthSuccessParams, ResumeStep,
    ResumeStepView, TokenRequest, TokenRequestView,
};
use crate::auth::state::{first_non_vschar, invalid_state_text};
use crate::text::{hex_digit, is_blank, is_white_space, lower_hex, trim_end, trim_start, trimmed};
use crate::uri::{url_parse, UriView};

verus! {

proof fn lemma_trim_start_skips_blank(lead: Seq<char>, s: Seq<char>)
    requires
        is_blank(lead),
    ensures
        trim_start(lead + s) == trim_start(s),
    decreases lead.len(),
{
    if lead.len() == 0 {
        assert(lead + s =~= s);
    } else {
        assert((lead + s).drop_first() =~= lead.drop_first() + s);
        assert(is_white_space(lead[0]));
        lemma_trim_start_skips_blank(lead.drop_first(), s);
    }
}

proof fn lemma_trim_end_skips_blank(s: Seq<char>, trail: Seq<char>)
    requires
        is_blank(trail),
    ensures
        trim_end(s + trail) == trim_end(s),
    decreases trail.len(),
{
    if trail.len() == 0 {
        assert(s + trail =~= s);
    } else {
        assert((s + trail).drop_last() =~= s + trail.drop_last());
        assert(is_white_space(trail[trail.len() - 1]));
        lemma_trim_end_skips_blank(s, trail.drop_last());
    }
}

/// Trimming the start of a text leaves blanks at its end, unless nothing but
/// blanks is there.
proof fn lemma_trim_start_keeps_end(s: Seq<char>, trail: Seq<char>)
    requires
        is_blank(trail),
    ensures
        trim_end(trim_start(s + trail)) == trim_end(trim_start(s)),
    decreases s.len(),
{
    if s.len() == 0 {
        assert(s + trail =~= trail);
        lemma_trim_start_skips_blank(trail, s);
        assert(trail + s =~= trail);
    } else if is_white_space(s.first()) {
        assert((s + trail).drop_first() =~= s.drop_first() + trail);
        lemma_trim_start_keeps_end(s.drop_first(), trail);
    } else {
        lemma_trim_end_skips_blank(s, trail);
    }
}

/// White space around the input of a command changes nothing.
pub proof fn law_surrounding_white_space_is_ignored(
    command: AuthResumeCommandView,
    lead: Seq<char>,
    trail: Seq<char>,
    account: AccountView,
)
    requires
        is_blank(lead),
        is_blank(trail),
    ensures
        (AuthResumeCommandView { input: lead + command.input + trail, ..command }).resumed(account)
            == command.resumed(account),
{
    lemma_trim_start_skips_blank(lead, command.input + trail);
    assert(lead + command.input + trail =~= lead + (command.input + trail));
    lemma_trim_start_keeps_end(command.input, trail);
}

/// Where the command knows the state of the authorization request, a code goes
/// on to the token endpoint only from a response that carries that very state.
pub proof fn law_state_guards_exchange(
    command: AuthResumeCommandView,
    account: AccountView,
    grant: CodeGrantView,
)
    requires
        command.state is Some,
        command.resumed(account) == Ok::<ResumeStepView, ResumeErrorView>(
            ResumeStepView::ResolveClientSecret(grant),
        ),
    ensures
        redirect_response(trimmed(command.input)) == Ok::<AuthParamsView, Seq<char>>(
            AuthParamsView::Success { code: grant.code, state: command.state },
        ),
{
}

/// A response that carries the state of the authorization request is accepted:
/// its code goes on to the token endpoint.
pub proof fn law_matching_state_is_accepted(
    command: AuthResumeCommandView,
    account: AccountView,
    code: Seq<char>,
)
    requires
        account.grant == GrantConfig::AuthorizationCode,
        account.token_endpoint is Some,
        trimmed(command.input).len() > 0,
        redirect_response(trimmed(command.input)) == Ok::<AuthParamsView, Seq<char>>(
            AuthParamsView::Success { code, state: command.state },
        ),
    ensures
        command.resumed(account) matches Ok(ResumeStepView::ResolveClientSecret(grant))
            && grant.code == code,
{
}

/// A response without the expected state, or with another one, ends the command,
/// and the message that says so holds nothing of either state.
pub proof fn law_wrong_state_is_refused(
    command: AuthResumeCommandView,
    account: AccountView,
    code: Seq<char>,
    state: Option<Seq<u8>>,
)
    requires
        account.grant == GrantConfig::AuthorizationCode,
        account.token_endpoint is Some,
        trimmed(command.input).len() > 0,
        command.state is Some,
        redirect_response(trimmed(command.input)) == Ok::<AuthParamsView, Seq<char>>(
            AuthParamsView::Success { code, state },
        ),
        state != command.state,
    ensures
        command.resumed(account) matches Err(err) && err.cause() is None && err.message() == (
        if state is None {
            "Authorization response is missing state"@
        } else {
            "Authorization request and response states do not match"@
        }),
{
}

/// Where the command knows no state, the state of the response is not looked at.
pub proof fn law_unknown_state_is_unchecked(
    response: AuthParamsView,
    code: Seq<char>,
    state: Option<Seq<u8>>,
)
    requires
        response == (AuthParamsView::Success { code, state }),
    ensures
        response.validated(None) matches Ok(c) && c == code,
{
}

/// An error response of the authorization server ends the command with that
/// error, whatever state is expected.
pub proof fn law_server_error_is_reported(
    command: AuthResumeCommandView,
    account: AccountView,
    params: ErrorParamsView,
)
    requires
        account.grant == GrantConfig::AuthorizationCode,
        account.token_endpoint is Some,
        trimmed(command.input).len() > 0,
        redirect_response(trimmed(command.input)) == Ok::<AuthParamsView, Seq<char>>(
            AuthParamsView::Error(params),
        ),
    ensures
        command.resumed(account) == Err::<ResumeStepView, ResumeErrorView>(
            ResumeErrorView::Authorization(params),
        ),
{
}

/// The device grant takes none of the flags of the authorization-code grant.
pub proof fn law_device_grant_takes_no_code_flags(
    command: AuthResumeCommandView,
    account: AccountView,
)
    requires
        account.grant == GrantConfig::Device,
        command.has_code_flags(),
    ensures
        command.resumed(account) == Err::<ResumeStepView, ResumeErrorView>(
            ResumeErrorView::DeviceGrantFlags,
        ),
{
}

/// The device grant polls the token endpoint of the account, and no other, with
/// the device code of the command.
pub proof fn law_device_grant_polls_token_endpoint(
    command: AuthResumeCommandView,
    account: AccountView,
    step: ResumeStepView,
)
    requires
        account.grant == GrantConfig::Device,
        command.resumed(account) == Ok::<ResumeStepView, ResumeErrorView>(step),
    ensures
        step matches ResumeStepView::PollDevice { token_endpoint, device } && account.token_endpoint
            == Some(token_endpoint) && device == device_authorization(trimmed(command.input))
            && device.device_code.len() > 0,
{
}

/// The request that ends an authorization-code grant goes to the token endpoint
/// of the account, with the code of the response and the verifier of the command;
/// the client secret authenticates the client and stays out of the body.
pub proof fn law_request_carries_the_grant(
    command: AuthResumeCommandView,
    account: AccountView,
    grant: CodeGrantView,
    client_secret: Option<Seq<char>>,
    request: TokenRequestView,
)
    requires
        command.resumed(account) == Ok::<ResumeStepView, ResumeErrorView>(
            ResumeStepView::ResolveClientSecret(grant),
        ),
        grant.requested(client_secret) == Ok::<TokenRequestView, ResumeErrorView>(request),
    ensures
        account.token_endpoint == Some(request.token_endpoint),
        request.client_id == account.client_id,
        request.params.client_id == account.client_id,
        request.client_secret == client_secret,
        request.params.client_secret is None,
        redirect_response(trimmed(command.input)) matches Ok(
            AuthParamsView::Success { code, state },
        ) && request.params.code == code,
        match (command.redirect_uri, account.redirection_endpoint) {
            (Some(flag), _) => request.params.redirect_uri == Some(flag.text),
            (None, Some(endpoint)) => request.params.redirect_uri == Some(endpoint.text),
            (None, None) => request.params.redirect_uri is None,
        },
        match command.pkce {
            Some(pkce) => {
                &&& request.params.pkce_code_verifier == Some(encode_utf8(pkce))
                &&& first_reserved(encode_utf8(pkce)) is None
            },
            None => request.params.pkce_code_verifier is None,
        },
{
}

/// The description of a command tells nothing of its input, and of its state and
/// its PKCE code verifier only whether they are there.
pub proof fn law_description_hides_secrets(a: AuthResumeCommandView, b: AuthResumeCommandView)
    requires
        a.state is Some == b.state is Some,
        a.pkce is Some == b.pkce is Some,
        a.redirect_uri == b.redirect_uri,
    ensures
        a.shown() == b.shown(),
{
}

/// Whether a text occurs in another one.
pub open spec fn occurs_in(s: Seq<char>, text: Seq<char>) -> bool {
    exists|i: int| 0 <= i <= text.len() - s.len() && #[trigger] text.subrange(i, i + s.len()) == s
}

/// The ASCII characters that a PKCE code verifier may hold, and the space.
spec fn is_message_char(c: char) -> bool {
    let u = c as u32;
    u < 0x80 && (is_unreserved(u as u8) || u == 0x20)
}

proof fn lemma_message_chars_reject_space_only(s: Seq<char>)
    requires
        forall|i: int| 0 <= i < s.len() ==> is_message_char(#[trigger] s[i]),
    ensures
        first_reserved(encode_utf8(s)) is None || first_reserved(encode_utf8(s)) == Some(0x20u8),
    decreases s.len(),
{
    if s.len() > 0 {
        let u = s[0] as u32;
        assert(is_message_char(s[0]));
        lemma_message_chars_reject_space_only(s.drop_first());
        assert(encode_scalar(u) =~= seq![u as u8]) by {
            assert(u < 0x80 ==> (u & 0x7F) as u8 == u as u8) by (bit_vector);
        }
        assert(encode_utf8(s) =~= seq![u as u8] + encode_utf8(s.drop_first()));
        assert(encode_utf8(s).drop_first() =~= encode_utf8(s.drop_first()));
    }
}

proof fn lemma_hex_digit_is_message_char(n: int)
    requires
        0 <= n < 16,
    ensures
        is_message_char(hex_digit(n)),
{
}

proof fn lemma_pkce_message_chars(b: u8)
    ensures
        forall|i: int| 0 <= i < invalid_pkce_text(b).len() ==> is_message_char(
            #[trigger] invalid_pkce_text(b)[i],
        ),
{
    reveal_strlit("Invalid 0x");
    reveal_strlit(" found in PKCE code verifier");
    lemma_hex_digit_is_message_char(b as int / 16);
    lemma_hex_digit_is_message_char(b as int % 16);
    if b < 16 {
        lemma_hex_digit_is_message_char(b as int);
    }
}

/// The message that turns a PKCE code verifier down does not hold the verifier,
/// unless the verifier is itself a piece of the message that quotes a space.
pub proof fn law_pkce_error_omits_verifier(verifier: Seq<char>, b: u8)
    requires
        first_reserved(encode_utf8(verifier)) == Some(b),
        !occurs_in(verifier, "Invalid 0x20 found in PKCE code verifier"@),
    ensures
        !occurs_in(verifier, invalid_pkce_text(b)),
{
    let text = invalid_pkce_text(b);
    if occurs_in(verifier, text) {
        let k = choose|i: int|
            0 <= i <= text.len() - verifier.len() && #[trigger] text.subrange(
                i,
                i + verifier.len(),
            ) == verifier;
        lemma_pkce_message_chars(b);
        assert forall|i: int| 0 <= i < verifier.len() implies is_message_char(
            #[trigger] verifier[i],
        ) by {
            assert(verifier[i] == text[k + i]);
        }
        lemma_message_chars_reject_space_only(verifier);
        assert(b == 0x20);
        reveal_strlit("Invalid 0x");
        reveal_strlit(" found in PKCE code verifier");
        reveal_strlit("Invalid 0x20 found in PKCE code verifier");
        assert(text =~= "Invalid 0x20 found in PKCE code verifier"@);
    }
}

/// The message that turns a PKCE code verifier down depends on one byte of it
/// and on nothing else of the grant.
pub proof fn law_pkce_error_depends_on_one_byte(
    a: CodeGrantView,
    b: CodeGrantView,
    client_secret: Option<Seq<char>>,
    other_secret: Option<Seq<char>>,
)
    requires
        a.rejected_pkce_byte() is Some,
        a.rejected_pkce_byte() == b.rejected_pkce_byte(),
    ensures
        a.requested(client_secret) is Err,
        a.requested(client_secret) == b.requested(other_secret),
{
}

/// The redirect URI of the request is that of the command, whatever the account
/// has; without one it is that of the account, and there is none only where
/// neither has one.
pub proof fn law_redirect_uri_of_the_command_comes_first(
    command: AuthResumeCommandView,
    account: AccountView,
    grant: CodeGrantView,
    client_secret: Option<Seq<char>>,
    request: TokenRequestView,
)
    requires
        command.resumed(account) == Ok::<ResumeStepView, ResumeErrorView>(
            ResumeStepView::ResolveClientSecret(grant),
        ),
        grant.requested(client_secret) == Ok::<TokenRequestView, ResumeErrorView>(request),
    ensures
        command.redirect_uri matches Some(flag) ==> request.params.redirect_uri == Some(flag.text),
        command.redirect_uri is None ==> (account.redirection_endpoint matches Some(endpoint)
            ==> request.params.redirect_uri == Some(endpoint.text)),
        request.params.redirect_uri is None <==> command.redirect_uri is None
            && account.redirection_endpoint is None,
{
}

/// A reserved byte in the PKCE code verifier is the only reason to refuse a
/// request: without one the request is made, whatever the client secret, and it
/// carries the code, the redirect URI and the verifier of the grant unchanged.
pub proof fn law_request_is_made_without_reserved_byte(
    grant: CodeGrantView,
    client_secret: Option<Seq<char>>,
)
    requires
        grant.pkce matches Some(pkce) ==> first_reserved(encode_utf8(pkce)) is None,
    ensures
        grant.requested(client_secret) matches Ok(request) && {
            &&& request.token_endpoint == grant.token_endpoint
            &&& request.client_id == grant.client_id
            &&& request.client_secret == client_secret
            &&& request.params.code == grant.code
            &&& request.params.redirect_uri == grant.redirect_uri
            &&& request.params.client_id == grant.client_id
            &&& request.params.client_secret is None
            &&& grant.pkce is None <==> request.params.pkce_code_verifier is None
            &&& grant.pkce matches Some(pkce) ==> request.params.pkce_code_verifier == Some(
                encode_utf8(pkce),
            )
        },
{
}

/// A reserved byte in the PKCE code verifier refuses the request, whatever else
/// the grant holds, with a message that quotes the first such byte.
pub proof fn law_reserved_byte_refuses_request(
    grant: CodeGrantView,
    client_secret: Option<Seq<char>>,
    pkce: Seq<char>,
    b: u8,
)
    requires
        grant.pkce == Some(pkce),
        first_reserved(encode_utf8(pkce)) == Some(b),
    ensures
        grant.requested(client_secret) matches Err(err) && err is InvalidPkceCodeVerifier
            && err.message() == "Invalid 0x"@ + lower_hex(b) + " found in PKCE code verifier"@
            && err.cause() is None,
{
}

/// A device grant without flags of the other grant and with a device code is
/// polled at the token endpoint of the account, whatever else the account has.
pub proof fn law_device_grant_is_polled(
    command: AuthResumeCommandView,
    account: AccountView,
    endpoint: UriView,
)
    requires
        account.grant == GrantConfig::Device,
        account.token_endpoint == Some(endpoint),
        command.state is None,
        command.pkce is None,
        command.redirect_uri is None,
        trimmed(command.input).len() > 0,
    ensures
        command.resumed(account) matches Ok(ResumeStepView::PollDevice { token_endpoint, device })
            && {
            &&& token_endpoint == endpoint
            &&& device.device_code == trimmed(command.input)
            &&& device.user_code.len() == 0
            &&& device.verification_uri.len() == 0
            &&& device.verification_uri_complete is None
            &&& device.expires_in == 1800
            &&& device.interval == 5
        },
{
}

/// A device grant is refused for three reasons, of which the first that holds is
/// told: a flag of the other grant, a blank device code, no token endpoint.
pub proof fn law_device_grant_refusals(command: AuthResumeCommandView, account: AccountView)
    requires
        account.grant == GrantConfig::Device,
    ensures
        command.resumed(account) matches Err(err) ==> {
            ||| command.state is Some
            ||| command.pkce is Some
            ||| command.redirect_uri is Some
            ||| trimmed(command.input).len() == 0
            ||| account.token_endpoint is None
        },
        command.state is Some || command.pkce is Some || command.redirect_uri is Some
            ==> command.resumed(account) == Err::<ResumeStepView, ResumeErrorView>(
            ResumeErrorView::DeviceGrantFlags,
        ),
        command.state is None && command.pkce is None && command.redirect_uri is None ==> (if trimmed(
            command.input,
        ).len() == 0 {
            command.resumed(account) == Err::<ResumeStepView, ResumeErrorView>(
                ResumeErrorView::MissingDeviceCode,
            )
        } else {
            account.token_endpoint is None ==> command.resumed(account) == Err::<
                ResumeStepView,
                ResumeErrorView,
            >(ResumeErrorView::MissingTokenEndpoint)
        }),
{
}

/// An authorization-code grant is refused, before its response is read, for want
/// of a token endpoint, then for a blank input, then for an input that does not
/// parse, with the reason of the parser.
pub proof fn law_code_grant_refusals(command: AuthResumeCommandView, account: AccountView)
    requires
        account.grant == GrantConfig::AuthorizationCode,
    ensures
        account.token_endpoint is None ==> command.resumed(account) == Err::<
            ResumeStepView,
            ResumeErrorView,
        >(ResumeErrorView::MissingTokenEndpoint),
        account.token_endpoint is Some && trimmed(command.input).len() == 0 ==> command.resumed(
            account,
        ) == Err::<ResumeStepView, ResumeErrorView>(ResumeErrorView::MissingRedirectedUri),
        account.token_endpoint is Some && trimmed(command.input).len() > 0 ==> (url_parse(
            trimmed(command.input),
        ) matches Err(reason) ==> command.resumed(account) == Err::<
            ResumeStepView,
            ResumeErrorView,
        >(ResumeErrorView::InvalidRedirectedUri(reason))),
{
}

/// What comes of the response that a parsed redirected URI carries, for every
/// command and account: an error of the server is told; a code goes on, with what
/// the command and the account hold, exactly where no state is known or the
/// response has the known one; else it is told what is wrong with the state.
pub proof fn law_response_decides_code_grant(
    command: AuthResumeCommandView,
    account: AccountView,
    endpoint: UriView,
)
    requires
        account.grant == GrantConfig::AuthorizationCode,
        account.token_endpoint == Some(endpoint),
        trimmed(command.input).len() > 0,
        url_parse(trimmed(command.input)) is Ok,
    ensures
        auth_response(trimmed(command.input)) matches AuthParamsView::Error(params)
            ==> command.resumed(account) == Err::<ResumeStepView, ResumeErrorView>(
            ResumeErrorView::Authorization(params),
        ),
        auth_response(trimmed(command.input)) matches AuthParamsView::Success { code, state } ==> {
            &&& (command.state is None || command.state == state) ==> (command.resumed(
                account,
            ) matches Ok(ResumeStepView::ResolveClientSecret(grant)) && {
                &&& grant.token_endpoint == endpoint
                &&& grant.client_id == account.client_id
                &&& grant.code == code
                &&& grant.pkce == command.pkce
                &&& command.redirect_uri matches Some(flag) ==> grant.redirect_uri == Some(flag.text)
                &&& command.redirect_uri is None && account.redirection_endpoint is None
                    ==> grant.redirect_uri is None
                &&& command.redirect_uri is None ==> (account.redirection_endpoint matches Some(uri)
                    ==> grant.redirect_uri == Some(uri.text))
            })
            &&& command.state is Some && state is None ==> command.resumed(account) == Err::<
                ResumeStepView,
                ResumeErrorView,
            >(ResumeErrorView::StateMissing)
            &&& command.state is Some && state is Some && state != command.state
                ==> command.resumed(account) == Err::<ResumeStepView, ResumeErrorView>(
                ResumeErrorView::StateMismatch,
            )
        },
{
}

/// A response handed to a command is judged by the state of the command alone,
/// and what goes on is what the command, the account and the response hold.
pub proof fn law_handed_response_is_judged_by_its_state(
    command: AuthResumeCommandView,
    account: AccountView,
    endpoint: UriView,
    code: Seq<char>,
    state: Option<Seq<u8>>,
)
    ensures
        ({
            let outcome = command.authorized(
                account,
                endpoint,
                Ok(AuthParamsView::Success { code, state }),
            );
            &&& outcome is Ok <==> command.state is None || command.state == state
            &&& outcome matches Err(err) ==> (if state is None {
                err is StateMissing
            } else {
                err is StateMismatch
            })
            &&& outcome matches Ok(grant) ==> {
                &&& grant.token_endpoint == endpoint
                &&& grant.client_id == account.client_id
                &&& grant.code == code
                &&& grant.pkce == command.pkce
                &&& command.redirect_uri matches Some(flag) ==> grant.redirect_uri == Some(flag.text)
                &&& command.redirect_uri is None && account.redirection_endpoint is None
                    ==> grant.redirect_uri is None
                &&& command.redirect_uri is None ==> (account.redirection_endpoint matches Some(uri)
                    ==> grant.redirect_uri == Some(uri.text))
            }
        }),
{
}

/// A failed response handed to a command is told as it is, whatever the command
/// and the account hold.
pub proof fn law_handed_failure_is_told(
    command: AuthResumeCommandView,
    account: AccountView,
    endpoint: UriView,
    params: ErrorParamsView,
    reason: Seq<char>,
)
    ensures
        command.authorized(account, endpoint, Ok(AuthParamsView::Error(params))) == Err::<
            CodeGrantView,
            ResumeErrorView,
        >(ResumeErrorView::Authorization(params)),
        command.authorized(account, endpoint, Err(reason)) == Err::<CodeGrantView, ResumeErrorView>(
            ResumeErrorView::InvalidRedirectedUri(reason),
        ),
{
}

/// A response gives its code exactly where no state is expected or it carries the
/// expected one.
pub proof fn law_validation(
    code: Seq<char>,
    state: Option<Seq<u8>>,
    expected: Option<Seq<u8>>,
    params: ErrorParamsView,
)
    ensures
        (AuthParamsView::Success { code, state }).validated(expected) is Ok <==> expected is None
            || state == expected,
        (AuthParamsView::Success { code, state }).validated(expected) matches Ok(c) ==> c == code,
        (AuthParamsView::Success { code, state }).validated(expected) matches Err(err) ==> (
        if state is None {
            err is StateMissing
        } else {
            err is StateMismatch
        }),
        AuthParamsView::Error(params).validated(expected) == Err::<
            Seq<char>,
            AuthParamsValidationErrorView,
        >(AuthParamsValidationErrorView::Server(params)),
{
}

/// A redirected URI is read exactly where it parses, and what is read is what the
/// conversion finds in it.
pub proof fn law_redirect_is_read_where_it_parses(uri: Seq<char>)
    ensures
        redirect_response(uri) is Ok <==> url_parse(uri) is Ok,
        redirect_response(uri) matches Ok(params) ==> params == auth_response(uri),
        redirect_response(uri) matches Err(reason) ==> url_parse(uri) == Err::<UriView, Seq<char>>(
            reason,
        ),
{
}

/// The message of each error.
pub proof fn law_messages(reason: Seq<char>, params: ErrorParamsView)
    ensures
        ResumeErrorView::DeviceGrantFlags.message()
            == "The --state, --pkce and --redirect-uri flags are only valid for the authorization-code grant"@,
        ResumeErrorView::MissingDeviceCode.message() == "Missing device code"@,
        ResumeErrorView::MissingTokenEndpoint.message()
            == "Missing endpoints.token in the account config"@,
        ResumeErrorView::MissingRedirectedUri.message()
            == "Missing redirected URI (pass it as the positional URI|DEVICE_CODE)"@,
        ResumeErrorView::InvalidRedirectedUri(reason).message() == "Invalid redirected URI: "@
            + reason,
        ResumeErrorView::Authorization(params).message() == "Authorization error (code "@
            + params.error + ")"@,
        ResumeErrorView::StateMissing.message() == "Authorization response is missing state"@,
        ResumeErrorView::StateMismatch.message()
            == "Authorization request and response states do not match"@,
        ResumeErrorView::InvalidPkceCodeVerifier(reason).message() == reason,
        ResumeErrorView::IssueAccessToken(params).message() == "Issue access token error (code "@
            + params.error + ")"@,
{
}

/// An error has a cause exactly where the server explains it, by a description, a
/// URI, or both: then the cause begins with the description and ends with the URI,
/// a colon and a space between the two.
pub proof fn law_causes(err: ResumeErrorView)
    ensures
        match err {
            ResumeErrorView::Authorization(params)
            | ResumeErrorView::IssueAccessToken(params) => {
                &&& params.explanation() == err.cause()
                &&& err.cause() is None <==> params.error_description is None
                    && params.error_uri is None
                &&& params.error_uri is None ==> err.cause() == params.error_description
                &&& params.error_description is None ==> err.cause() == params.error_uri
                &&& params.error_description matches Some(desc) ==> (params.error_uri matches Some(
                    uri,
                ) ==> err.cause() == Some(desc + ": "@ + uri))
            },
            _ => err.cause() is None,
        },
{
}

/// The message of an error that the checks of a command end in is one of a fixed
/// list, whatever the command holds.
pub proof fn law_fixed_messages(err: ResumeErrorView)
    requires
        has_fixed_message(err),
    ensures
        err !is InvalidPkceCodeVerifier,
        err !is IssueAccessToken,
        err matches ResumeErrorView::InvalidRedirectedUri(reason) ==> {
            ||| reason == "empty host"@
            ||| reason == "invalid international domain name"@
            ||| reason == "invalid port number"@
            ||| reason == "invalid IPv4 address"@
            ||| reason == "invalid IPv6 address"@
            ||| reason == "invalid domain character"@
            ||| reason == "relative URL without a base"@
            ||| reason == "relative URL with a cannot-be-a-base base"@
            ||| reason == "a cannot-be-a-base URL doesn’t have a host to set"@
            ||| reason == "URLs more than 4 GB are not supported"@
        },
        err matches ResumeErrorView::Authorization(params) ==> {
            ||| params.error == "InvalidRequest"@
            ||| params.error == "UnauthorizedClient"@
            ||| params.error == "AccessDenied"@
            ||| params.error == "UnsupportedResponseType"@
            ||| params.error == "InvalidScope"@
            ||| params.error == "ServerError"@
            ||| params.error == "TemporarilyUnavailable"@
            ||| params.error == "InvalidTarget"@
            ||| params.error == "Unknown"@
        },
{
}

/// The description of a command names its four fields, and shows each of those
/// that may be absent as present or not.
pub proof fn law_description(
    command: AuthResumeCommandView,
    state: Seq<char>,
    pkce: Seq<char>,
    redirect_uri: Seq<char>,
)
    requires
        command.state is Some ==> state == "Some("@ + "Oauth20State(SecretBox<[u8]>([REDACTED]))"@
            + ")"@,
        command.state is None ==> state == "None"@,
        command.pkce is Some ==> pkce == "Some("@ + "\"[REDACTED]\""@ + ")"@,
        command.pkce is None ==> pkce == "None"@,
        command.redirect_uri matches Some(uri) ==> redirect_uri == "Some("@ + uri.listing + ")"@,
        command.redirect_uri is None ==> redirect_uri == "None"@,
    ensures
        command.shown() == "AuthResumeCommand { input: \"[REDACTED]\", state: "@ + state
            + ", pkce: "@ + pkce + ", redirect_uri: "@ + redirect_uri + " }"@,
{
}

/// The first byte that a state may not hold stands behind bytes that it may hold,
/// and there is none exactly where all are visible ASCII or the space.
pub proof fn law_first_non_vschar(bytes: Seq<u8>)
    ensures
        first_non_vschar(bytes) is None <==> forall|i: int|
            0 <= i < bytes.len() ==> 0x20 <= #[trigger] bytes[i] <= 0x7E,
        first_non_vschar(bytes) matches Some(b) ==> exists|k: int|
            {
                &&& 0 <= k < bytes.len()
                &&& #[trigger] bytes[k] == b
                &&& !(0x20 <= b <= 0x7E)
                &&& forall|i: int| 0 <= i < k ==> 0x20 <= #[trigger] bytes[i] <= 0x7E
            },
    decreases bytes.len(),
{
    if bytes.len() > 0 {
        let rest = bytes.drop_first();
        law_first_non_vschar(rest);
        assert(forall|i: int| 0 <= i < rest.len() ==> #[trigger] rest[i] == bytes[i + 1]);
        assert(forall|i: int| 1 <= i < bytes.len() ==> #[trigger] bytes[i] == rest[i - 1]);
        if 0x20 <= bytes[0] <= 0x7E {
            if let Some(b) = first_non_vschar(rest) {
                let k = choose|k: int|
                    {
                        &&& 0 <= k < rest.len()
                        &&& #[trigger] rest[k] == b
                        &&& !(0x20 <= b <= 0x7E)
                        &&& forall|i: int| 0 <= i < k ==> 0x20 <= #[trigger] rest[i] <= 0x7E
                    };
                assert(bytes[k + 1] == b);
            }
        } else {
            assert(bytes[0] == bytes.first());
        }
    }
}

/// The first byte that a PKCE code verifier may not hold stands behind bytes that
/// it may hold, and there is none exactly where all are ASCII letters or digits,
/// `-`, `.`, `_` or `~`.
pub proof fn law_first_reserved(bytes: Seq<u8>)
    ensures
        first_reserved(bytes) is None <==> forall|i: int|
            0 <= i < bytes.len() ==> {
                let c = #[trigger] bytes[i];
                ||| 'A' as int <= c as int <= 'Z' as int
                ||| 'a' as int <= c as int <= 'z' as int
                ||| '0' as int <= c as int <= '9' as int
                ||| c as int == '-' as int
                ||| c as int == '.' as int
                ||| c as int == '_' as int
                ||| c as int == '~' as int
            },
        first_reserved(bytes) matches Some(b) ==> exists|k: int|
            {
                &&& 0 <= k < bytes.len()
                &&& #[trigger] bytes[k] == b
                &&& first_reserved(bytes.take(k)) is None
                &&& first_reserved(seq![b]) is Some
            },
    decreases bytes.len(),
{
    if bytes.len() > 0 {
        let rest = bytes.drop_first();
        law_first_reserved(rest);
        assert(forall|i: int| 0 <= i < rest.len() ==> #[trigger] rest[i] == bytes[i + 1]);
        assert(forall|i: int| 1 <= i < bytes.len() ==> #[trigger] bytes[i] == rest[i - 1]);
        assert(bytes[0] == bytes.first());
        if is_unreserved(bytes[0]) {
            if let Some(b) = first_reserved(rest) {
                let k = choose|k: int|
                    {
                        &&& 0 <= k < rest.len()
                        &&& #[trigger] rest[k] == b
                        &&& first_reserved(rest.take(k)) is None
                        &&& first_reserved(seq![b]) is Some
                    };
                assert(bytes[k + 1] == b);
                assert(bytes.take(k + 1).drop_first() =~= rest.take(k));
                assert(bytes.take(k + 1).first() == bytes[0]);
            }
        } else {
            assert(bytes[0] == bytes[0]);
            assert(first_reserved(bytes.take(0)) is None);
            assert(seq![bytes[0]].first() == bytes[0]);
        }
    }
}

/// The texts that turn a state and a PKCE code verifier down.
pub proof fn law_rejection_texts(b: u8)
    ensures
        invalid_state_text(b) == "invalid byte 0x"@ + lower_hex(b) + " found in state"@,
        invalid_pkce_text(b) == "Invalid 0x"@ + lower_hex(b) + " found in PKCE code verifier"@,
{
}

/// Each of these types is seen by contracts with all its fields as they are.
pub proof fn law_views_keep_requests(
    command: AuthResumeCommand,
    account: Account,
    device: DeviceAuthSuccessParams,
    params: AccessTokenRequestParams,
    request: TokenRequest,
)
    ensures
        command@.input == command.input@,
        command@.state == command.state.deep_view(),
        command@.pkce == command.pkce.deep_view(),
        command@.redirect_uri == command.redirect_uri.deep_view(),
        account@.grant == account.grant,
        account@.client_id == account.client_id@,
        account@.token_endpoint == account.token_endpoint.deep_view(),
        account@.redirection_endpoint == account.redirection_endpoint.deep_view(),
        device@.device_code == device.device_code@,
        device@.user_code == device.user_code@,
        device@.verification_uri == device.verification_uri@,
        device@.verification_uri_complete == device.verification_uri_complete.deep_view(),
        device@.expires_in == device.expires_in,
        device@.interval == device.interval,
        params@.code == params.code@,
        params@.redirect_uri == params.redirect_uri.deep_view(),
        params@.client_id == params.client_id@,
        params@.client_secret == params.client_secret.deep_view(),
        params@.pkce_code_verifier == params.pkce_code_verifier.deep_view(),
        request@.token_endpoint == request.token_endpoint@,
        request@.client_id == request.client_id@,
        request@.client_secret == request.client_secret.deep_view(),
        request@.params == request.params@,
{
}

/// Each of these types is seen by contracts as the variant that it is, with all
/// its fields as they are.
pub proof fn law_views_keep_outcomes(
    params: ErrorParams,
    response: AuthParams,
    invalid: AuthParamsValidationError,
    step: ResumeStep,
    err: ResumeError,
)
    ensures
        params@.error == params.error@,
        params@.error_description == params.error_description.deep_view(),
        params@.error_uri == params.error_uri.deep_view(),
        match response {
            AuthParams::Success { code, state } => response@ == (AuthParamsView::Success {
                code: code@,
                state: state.deep_view(),
            }),
            AuthParams::Error(params) => response@ == AuthParamsView::Error(params@),
        },
        match invalid {
            AuthParamsValidationError::Server(params) => invalid@
                == AuthParamsValidationErrorView::Server(params@),
            AuthParamsValidationError::StateMissing => invalid@ is StateMissing,
            AuthParamsValidationError::StateMismatch => invalid@ is StateMismatch,
        },
        match step {
            ResumeStep::PollDevice { token_endpoint, device } => step@
                == (ResumeStepView::PollDevice { token_endpoint: token_endpoint@, device: device@ }),
            ResumeStep::ResolveClientSecret(grant) => step@ == ResumeStepView::ResolveClientSecret(
                grant@,
            ),
        },
        match err {
            ResumeError::DeviceGrantFlags => err@ is DeviceGrantFlags,
            ResumeError::MissingDeviceCode => err@ is MissingDeviceCode,
            ResumeError::MissingTokenEndpoint => err@ is MissingTokenEndpoint,
            ResumeError::MissingRedirectedUri => err@ is MissingRedirectedUri,
            ResumeError::InvalidRedirectedUri(reason) => err@
                == ResumeErrorView::InvalidRedirectedUri(reason@),
            ResumeError::Authorization(params) => err@ == ResumeErrorView::Authorization(params@),
            ResumeError::StateMissing => err@ is StateMissing,
            ResumeError::StateMismatch => err@ is StateMismatch,
            ResumeError::InvalidPkceCodeVerifier(reason) => err@
                == ResumeErrorView::InvalidPkceCodeVerifier(reason@),
            ResumeError::IssueAccessToken(params) => err@ == ResumeErrorView::IssueAccessToken(
                params@,
            ),
        },
{
}

proof fn lemma_trim_start_splits(s: Seq<char>)
    ensures
        trim_start(s).len() <= s.len(),
        trim_start(s) == s.skip(s.len() - trim_start(s).len()),
        is_blank(s.take(s.len() - trim_start(s).len())),
        trim_start(s).len() > 0 ==> !is_white_space(trim_start(s).first()),
    decreases s.len(),
{
    if s.len() > 0 && is_white_space(s.first()) {
        let rest = s.drop_first();
        lemma_trim_start_splits(rest);
        let k = rest.len() - trim_start(rest).len();
        assert(s.skip(k + 1) =~= rest.skip(k));
        let lead = s.take(k + 1);
        assert forall|i: int| 0 <= i < lead.len() implies is_white_space(#[trigger] lead[i]) by {
            if i > 0 {
                assert(lead[i] == rest.take(k)[i - 1]);
            }
        }
    } else {
        assert(s.skip(0) =~= s);
    }
}

proof fn lemma_trim_end_splits(s: Seq<char>)
    ensures
        trim_end(s).len() <= s.len(),
        trim_end(s) == s.take(trim_end(s).len() as int),
        is_blank(s.skip(trim_end(s).len() as int)),
        trim_end(s).len() > 0 ==> !is_white_space(trim_end(s).last()),
    decreases s.len(),
{
    if s.len() > 0 && is_white_space(s.last()) {
        let rest = s.drop_last();
        lemma_trim_end_splits(rest);
        let k = trim_end(rest).len() as int;
        assert(s.take(k) =~= rest.take(k));
        let trail = s.skip(k);
        assert forall|i: int| 0 <= i < trail.len() implies is_white_space(#[trigger] trail[i]) by {
            if i < trail.len() - 1 {
                assert(trail[i] == rest.skip(k)[i]);
            }
        }
    } else {
        assert(s.take(s.len() as int) =~= s);
    }
}

/// A trimmed text is what is left of a text between two blank ends, and neither
/// begins nor ends with white space.
pub proof fn law_trimming(s: Seq<char>)
    ensures
        exists|lead: Seq<char>, trail: Seq<char>|
            is_blank(lead) && is_blank(trail) && s == #[trigger] (lead + trimmed(s) + trail),
        trimmed(s).len() > 0 ==> !is_white_space(trimmed(s).first()) && !is_white_space(
            trimmed(s).last(),
        ),
        trimmed(s).len() == 0 <==> is_blank(s),
{
    lemma_trim_start_splits(s);
    let mid = trim_start(s);
    lemma_trim_end_splits(mid);
    let lead = s.take(s.len() - mid.len());
    let trail = mid.skip(trimmed(s).len() as int);
    assert(mid =~= trimmed(s) + trail);
    assert(s =~= lead + trimmed(s) + trail);
    if trimmed(s).len() > 0 {
        assert(trimmed(s).first() == mid.first());
        let k = lead.len() as int;
        assert(s[k] == trimmed(s)[0]);
        assert(!is_blank(s));
    } else {
        assert forall|i: int| 0 <= i < s.len() implies is_white_space(#[trigger] s[i]) by {
            if i < lead.len() {
                assert(s[i] == lead[i]);
            } else {
                assert(s[i] == trail[i - lead.len()]);
            }
        }
    }
}

/// A text is blank exactly where it has nothing but white space.
pub proof fn law_blank(s: Seq<char>)
    ensures
        is_blank(s) <==> forall|i: int| 0 <= i < s.len() ==> is_white_space(#[trigger] s[i]),
{
}

/// The white space of Unicode.
pub proof fn law_white_space(c: char)
    ensures
        is_white_space(c) <==> {
            ||| c == '\t'
            ||| c == '\n'
            ||| c == '\u{B}'
            ||| c == '\u{C}'
            ||| c == '\r'
            ||| c == ' '
            ||| c == '\u{85}'
            ||| c == '\u{A0}'
            ||| c == '\u{1680}'
            ||| '\u{2000}' <= c <= '\u{200A}'
            ||| c == '\u{2028}'
            ||| c == '\u{2029}'
            ||| c == '\u{202F}'
            ||| c == '\u{205F}'
            ||| c == '\u{3000}'
        },
{
}

/// What a hexadecimal digit counts.
pub open spec fn hex_value(c: char) -> int {
    if '0' <= c <= '9' {
        c as int - '0' as int
    } else {
        c as int - 'a' as int + 10
    }
}

/// A byte in hexadecimal is made of digits and of letters from `a` to `f`, begins
/// with no zero but for zero itself, and counts the byte.
pub proof fn law_lower_hex(b: u8)
    ensures
        forall|i: int|
            0 <= i < lower_hex(b).len() ==> {
                let c = #[trigger] lower_hex(b)[i];
                '0' <= c <= '9' || 'a' <= c <= 'f'
            },
        lower_hex(b).len() == 1 && hex_value(lower_hex(b)[0]) == b || lower_hex(b).len() == 2
            && lower_hex(b)[0] != '0' && hex_value(lower_hex(b)[0]) * 16 + hex_value(
            lower_hex(b)[1],
        ) == b,
{
}

} // verus!
