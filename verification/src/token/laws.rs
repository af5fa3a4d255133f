//! What holds of token reports.

use vstd::prelude::*;

use crate::text::lowercase;
use crate::token::inspect::{
    duration_text, Expiry, JsonField, JsonFieldView, JsonValue, JsonValueView, Report, ReportView,
};
use crate::token::params::{AccessTokenSuccessParams, AccessTokenSuccessParamsView};

verus! {

/// A report tells nothing of the access token, and of the refresh token only
/// whether there is one: two responses that differ in no more than the tokens
/// have the same report, hence the same text at any time and the same JSON.
pub proof fn law_report_hides_tokens(
    a: AccessTokenSuccessParamsView,
    b: AccessTokenSuccessParamsView,
)
    requires
        a.token_type == b.token_type,
        a.expires_in == b.expires_in,
        a.scope == b.scope,
        a.issued_at == b.issued_at,
        a.refresh_token is Some == b.refresh_token is Some,
    ensures
        a.report() == b.report(),
        forall|now: Option<u64>| a.report().text(now) == b.report().text(now),
        a.report().json() == b.report().json(),
{
}

/// The JSON of a report has no other fields than its type, its two times, the
/// presence of a refresh token and its scope.
pub proof fn law_json_holds_metadata_only(report: ReportView, i: int)
    requires
        0 <= i < report.json().len(),
    ensures
        ({
            let name = report.json()[i].name;
            ||| name == "token-type"@
            ||| name == "issued-at"@
            ||| name == "expires-in"@
            ||| name == "with-refresh-token"@
            ||| name == "scope"@
        }),
{
}

/// A token has expired exactly from the end of its lifetime on.
pub proof fn law_expired_from_end_of_lifetime(
    report: ReportView,
    issued_at: u64,
    expires_in: usize,
    now: u64,
)
    requires
        report.issued_at == Some(issued_at),
        report.expires_in == Some(expires_in),
    ensures
        report.expiry(Some(now)) is Expired <==> issued_at + expires_in <= now,
{
}

/// While a token lives, the time since it was issued and the time until it
/// expires make up its lifetime.
pub proof fn law_elapsed_and_remaining_make_up_lifetime(
    report: ReportView,
    issued_at: u64,
    expires_in: usize,
    now: u64,
)
    requires
        report.has_end(),
        report.issued_at == Some(issued_at),
        report.expires_in == Some(expires_in),
        issued_at <= now < issued_at + expires_in,
    ensures
        report.elapsed(Some(now)) matches Some(elapsed) && report.expiry(Some(now)) matches Expiry::In(
            remaining,
        ) && elapsed + remaining == expires_in,
{
}

/// An expired token stays expired.
pub proof fn law_expired_stays_expired(report: ReportView, now: u64, later: u64)
    requires
        report.expiry(Some(now)) is Expired,
        now <= later,
    ensures
        report.expiry(Some(later)) is Expired,
{
}

/// From the time a token is issued on, the time since then is told to the second;
/// before, it is none.
pub proof fn law_elapsed_counts_from_issue(report: ReportView, issued_at: u64, now: u64)
    requires
        report.issued_at == Some(issued_at),
    ensures
        report.elapsed(Some(now)) matches Some(secs) && {
            &&& issued_at <= now ==> issued_at + secs == now
            &&& now <= issued_at ==> secs == 0
        },
{
}

/// A second later, the time since the issue is a second more, and the time left, if
/// any is left, a second less.
pub proof fn law_a_second_passes(report: ReportView, issued_at: u64, expires_in: usize, now: u64)
    requires
        report.issued_at == Some(issued_at),
        report.expires_in == Some(expires_in),
        issued_at + expires_in <= u64::MAX,
        now < u64::MAX,
    ensures
        issued_at <= now ==> (report.elapsed(Some(now)) matches Some(before) && report.elapsed(
            Some((now + 1) as u64),
        ) matches Some(after) && after == before + 1),
        report.expiry(Some(now)) matches Expiry::In(before) ==> (if before == 1 {
            report.expiry(Some((now + 1) as u64)) is Expired
        } else {
            report.expiry(Some((now + 1) as u64)) matches Expiry::In(after) && after + 1 == before
        }),
{
}

/// The time since the issue is told exactly where both the issue and the clock
/// are known.
pub proof fn law_elapsed_needs_issue_and_clock(report: ReportView, now: Option<u64>)
    ensures
        report.elapsed(now) is None <==> report.issued_at is None || now is None,
{
}

/// A token that lives expires exactly when the time that is left has passed,
/// counted from the issue.
pub proof fn law_remaining_counts_to_end_of_lifetime(
    report: ReportView,
    issued_at: u64,
    expires_in: usize,
    now: u64,
)
    requires
        report.issued_at == Some(issued_at),
        report.expires_in == Some(expires_in),
        issued_at + expires_in <= u64::MAX,
    ensures
        now < issued_at + expires_in ==> (report.expiry(Some(now)) matches Expiry::In(secs) && now
            + secs == issued_at + expires_in),
        now >= issued_at + expires_in ==> report.expiry(Some(now)) is Expired,
{
}

/// Without a lifetime nothing tells when a token expires. Without its issue or
/// without a clock the whole lifetime is left, and none of it where it is nothing.
pub proof fn law_expiry_without_times(report: ReportView, now: Option<u64>)
    ensures
        report.expiry(now) is Unknown <==> report.expires_in is None,
        (report.issued_at is None || now is None) ==> (report.expires_in matches Some(expires_in)
            ==> (if expires_in == 0 {
            report.expiry(now) is Expired
        } else {
            report.expiry(now) matches Expiry::In(secs) && secs == expires_in
        })),
{
}

/// A report has an end exactly where the sum of its issue and its lifetime, if it
/// has both, can be told as a time.
pub proof fn law_end_of_lifetime(report: ReportView)
    ensures
        report.has_end() <==> (report.issued_at matches Some(issued_at)
            ==> (report.expires_in matches Some(expires_in) ==> issued_at + expires_in <= u64::MAX)),
{
}

/// A report keeps the metadata of a response as it is, and of the refresh token
/// whether there is one.
pub proof fn law_report_keeps_metadata(params: AccessTokenSuccessParamsView)
    ensures
        params.report().token_type == params.token_type,
        params.report().issued_at == params.issued_at,
        params.report().expires_in == params.expires_in,
        params.report().with_refresh_token <==> params.refresh_token is Some,
        params.report().scope == params.scope,
{
}

/// The lines of a report that is given its times as texts, each decided by one
/// thing alone.
pub proof fn law_laid_out_lines(
    report: ReportView,
    token_type: Seq<char>,
    elapsed: Option<Seq<char>>,
    expiry: Expiry<Seq<char>>,
    issued_line: Seq<char>,
    expiry_line: Seq<char>,
    refresh_line: Seq<char>,
    scope_line: Seq<char>,
)
    requires
        elapsed is None ==> issued_line.len() == 0,
        elapsed matches Some(time) ==> issued_line == "\nIssued: "@ + time + " ago"@,
        expiry is Unknown ==> expiry_line == "\nExpired: unknown"@,
        expiry is Expired ==> expiry_line == "\nExpired: true"@,
        expiry matches Expiry::In(time) ==> expiry_line == "\nExpires in: "@ + time,
        report.with_refresh_token ==> refresh_line == "\nWith refresh token: true"@,
        !report.with_refresh_token ==> refresh_line == "\nWith refresh token: false"@,
        report.scope is None ==> scope_line.len() == 0,
        report.scope matches Some(scope) ==> scope_line == "\nWith scope: "@ + scope,
    ensures
        report.laid_out(token_type, elapsed, expiry) == "Token type: "@ + token_type + issued_line
            + expiry_line + refresh_line + scope_line,
{
    reveal_strlit("\nWith refresh token: ");
    reveal_strlit("true");
    reveal_strlit("false");
    reveal_strlit("\nWith refresh token: true");
    reveal_strlit("\nWith refresh token: false");
    assert("\nWith refresh token: true"@ =~= "\nWith refresh token: "@ + "true"@);
    assert("\nWith refresh token: false"@ =~= "\nWith refresh token: "@ + "false"@);
    let head = "Token type: "@ + token_type + issued_line + expiry_line;
    if report.with_refresh_token {
        assert(head + "\nWith refresh token: "@ + "true"@ =~= head + refresh_line);
    } else {
        assert(head + "\nWith refresh token: "@ + "false"@ =~= head + refresh_line);
    }
    assert(report.laid_out(token_type, elapsed, expiry) =~= head + refresh_line + scope_line);
}

/// The text of a report at any time: its type in lower case, the time since its
/// issue where that is known, when it expires, whether there is a refresh token,
/// and its scope where it has one.
pub proof fn law_text_lines(
    report: ReportView,
    now: Option<u64>,
    issued_line: Seq<char>,
    expiry_line: Seq<char>,
    refresh_line: Seq<char>,
    scope_line: Seq<char>,
)
    requires
        report.has_end(),
        report.issued_at is None || now is None ==> issued_line.len() == 0,
        report.issued_at matches Some(issued_at) ==> (now matches Some(n) ==> {
            &&& n >= issued_at ==> issued_line == "\nIssued: "@ + duration_text(
                (n - issued_at) as u64,
            ) + " ago"@
            &&& n < issued_at ==> issued_line == "\nIssued: "@ + duration_text(0) + " ago"@
        }),
        report.expires_in is None ==> expiry_line == "\nExpired: unknown"@,
        report.expires_in matches Some(expires_in) ==> {
            let left = match (report.issued_at, now) {
                (Some(issued_at), Some(n)) => issued_at + expires_in - n,
                _ => expires_in as int,
            };
            &&& left <= 0 ==> expiry_line == "\nExpired: true"@
            &&& left > 0 ==> expiry_line == "\nExpires in: "@ + duration_text(left as u64)
        },
        report.with_refresh_token ==> refresh_line == "\nWith refresh token: true"@,
        !report.with_refresh_token ==> refresh_line == "\nWith refresh token: false"@,
        report.scope is None ==> scope_line.len() == 0,
        report.scope matches Some(scope) ==> scope_line == "\nWith scope: "@ + scope,
    ensures
        report.text(now) == "Token type: "@ + lowercase(report.token_type) + issued_line
            + expiry_line + refresh_line + scope_line,
{
    law_laid_out_lines(
        report,
        lowercase(report.token_type),
        match report.elapsed(now) {
            Some(secs) => Some(duration_text(secs)),
            None => None,
        },
        match report.expiry(now) {
            Expiry::Unknown => Expiry::Unknown,
            Expiry::Expired => Expiry::Expired,
            Expiry::In(secs) => Expiry::In(duration_text(secs)),
        },
        issued_line,
        expiry_line,
        refresh_line,
        scope_line,
    );
}

/// At any time, and whenever the token expires, the text of a report ends with the
/// line that says whether there is a refresh token, and behind it the scope, where
/// there is one.
pub proof fn law_text_tells_refresh_token(report: ReportView, now: Option<u64>, scope_line: Seq<char>)
    requires
        report.scope is None ==> scope_line.len() == 0,
        report.scope matches Some(scope) ==> scope_line == "\nWith scope: "@ + scope,
    ensures
        report.with_refresh_token ==> exists|head: Seq<char>|
            report.text(now) == #[trigger] (head + "\nWith refresh token: true"@ + scope_line),
        !report.with_refresh_token ==> exists|head: Seq<char>|
            report.text(now) == #[trigger] (head + "\nWith refresh token: false"@ + scope_line),
{
    let elapsed = match report.elapsed(now) {
        Some(secs) => Some(duration_text(secs)),
        None => None,
    };
    let expiry = match report.expiry(now) {
        Expiry::Unknown => Expiry::Unknown,
        Expiry::Expired => Expiry::Expired,
        Expiry::In(secs) => Expiry::In(duration_text(secs)),
    };
    let issued_line = match elapsed {
        Some(time) => "\nIssued: "@ + time + " ago"@,
        None => seq![],
    };
    let expiry_line = match expiry {
        Expiry::Unknown => "\nExpired: unknown"@,
        Expiry::Expired => "\nExpired: true"@,
        Expiry::In(time) => "\nExpires in: "@ + time,
    };
    let refresh_line = if report.with_refresh_token {
        "\nWith refresh token: true"@
    } else {
        "\nWith refresh token: false"@
    };
    let token_type = lowercase(report.token_type);
    law_laid_out_lines(
        report,
        token_type,
        elapsed,
        expiry,
        issued_line,
        expiry_line,
        refresh_line,
        scope_line,
    );
    let head = "Token type: "@ + token_type + issued_line + expiry_line;
    assert(report.text(now) == head + refresh_line + scope_line);
}

/// The JSON of a report: the type first, then the issue and the lifetime where
/// they are known, then the presence of a refresh token, then the scope where there
/// is one, and nothing else.
pub proof fn law_json_fields(report: ReportView, flag_at: int)
    requires
        flag_at == 1 + (if report.issued_at is Some {
            1int
        } else {
            0
        }) + (if report.expires_in is Some {
            1int
        } else {
            0
        }),
    ensures
        report.json().len() == flag_at + 1 + (if report.scope is Some {
            1int
        } else {
            0
        }),
        report.json()[0] == (JsonFieldView {
            name: "token-type"@,
            value: JsonValueView::Text(report.token_type),
        }),
        report.issued_at matches Some(issued_at) ==> report.json()[1] == (JsonFieldView {
            name: "issued-at"@,
            value: JsonValueView::Number(issued_at),
        }),
        report.expires_in matches Some(expires_in) ==> report.json()[flag_at - 1] == (JsonFieldView {
            name: "expires-in"@,
            value: JsonValueView::Number(expires_in as u64),
        }),
        report.json()[flag_at] == (JsonFieldView {
            name: "with-refresh-token"@,
            value: JsonValueView::Flag(report.with_refresh_token),
        }),
        report.scope matches Some(scope) ==> report.json()[flag_at + 1] == (JsonFieldView {
            name: "scope"@,
            value: JsonValueView::Text(scope),
        }),
{
}

/// Each of these types is seen by contracts with all its fields as they are.
pub proof fn law_views_keep_tokens(
    params: AccessTokenSuccessParams,
    report: Report,
    expiry: Expiry<String>,
    field: JsonField,
)
    ensures
        params@.access_token == params.access_token@,
        params@.token_type == params.token_type@,
        params@.expires_in == params.expires_in,
        params@.refresh_token == params.refresh_token.deep_view(),
        params@.scope == params.scope.deep_view(),
        params@.issued_at == params.issued_at,
        report@.token_type == report.token_type@,
        report@.issued_at == report.issued_at,
        report@.expires_in == report.expires_in,
        report@.with_refresh_token == report.with_refresh_token,
        report@.scope == report.scope.deep_view(),
        match expiry {
            Expiry::Unknown => expiry@ is Unknown,
            Expiry::Expired => expiry@ is Expired,
            Expiry::In(time) => expiry@ == Expiry::In(time@),
        },
        field.deep_view().name == field.name@,
        match field.value {
            JsonValue::Text(text) => field.deep_view().value == JsonValueView::Text(text@),
            JsonValue::Number(n) => field.deep_view().value == JsonValueView::Number(n),
            JsonValue::Flag(b) => field.deep_view().value == JsonValueView::Flag(b),
        },
{
}

} // verus!
