//! The `token inspect` command: print metadata about the access token.

use std::time::{Duration, SystemTime, UNIX_EPOCH};

use humantime::format_duration;
use vstd::prelude::*;
use vstd::string::StringExecFns;

use crate::text::{lowercase, to_lowercase};
use crate::token::params::{AccessTokenSuccessParams, AccessTokenSuccessParamsView};

verus! {

/// Inspect metadata associated to the access token: its type, when it was
/// issued, when it expires, the presence of a refresh token, and the granted
/// scopes.
#[derive(Debug)]
pub struct TokenInspectCommand;

impl TokenInspectCommand {
    /// The metadata to print of the token that was read from storage.
    pub fn execute(self, response: AccessTokenSuccessParams) -> (r: Report)
        ensures
            r@ == response@.report(),
    {
        Report::from_params(response)
    }
}

/// Printable metadata view over the stored token response.
///
/// Holds only non-secret fields, so that neither the text nor the JSON of a
/// report exposes the access or refresh token.
#[derive(Debug)]
pub struct Report {
    /// The type of the token.
    pub token_type: String,
    /// When the token was issued, in seconds since the Unix epoch.
    pub issued_at: Option<u64>,
    /// The lifetime of the token, in seconds.
    pub expires_in: Option<usize>,
    /// Whether a refresh token came with the token.
    pub with_refresh_token: bool,
    /// The granted scope.
    pub scope: Option<String>,
}

/// What [`Report`] is, as contracts speak of it.
pub struct ReportView {
    pub token_type: Seq<char>,
    pub issued_at: Option<u64>,
    pub expires_in: Option<usize>,
    pub with_refresh_token: bool,
    pub scope: Option<Seq<char>>,
}

impl View for Report {
    type V = ReportView;

    open spec fn view(&self) -> ReportView {
        ReportView {
            token_type: self.token_type@,
            issued_at: self.issued_at,
            expires_in: self.expires_in,
            with_refresh_token: self.with_refresh_token,
            scope: self.scope.deep_view(),
        }
    }
}

impl AccessTokenSuccessParamsView {
    /// The metadata of the token.
    pub open spec fn report(self) -> ReportView {
        ReportView {
            token_type: self.token_type,
            issued_at: self.issued_at,
            expires_in: self.expires_in,
            with_refresh_token: self.refresh_token is Some,
            scope: self.scope,
        }
    }
}

impl Report {
    /// The metadata of a token.
    pub fn from_params(params: AccessTokenSuccessParams) -> (r: Self)
        ensures
            r@ == params@.report(),
    {
        Self {
            token_type: params.token_type,
            issued_at: params.issued_at,
            expires_in: params.expires_in,
            with_refresh_token: params.refresh_token.is_some(),
            scope: params.scope,
        }
    }
}

/// When a token expires, `T` standing for a time to come.
#[derive(Debug, PartialEq, Eq)]
pub enum Expiry<T> {
    /// Nothing tells when.
    Unknown,
    /// It has expired.
    Expired,
    /// In some time.
    In(T),
}

impl View for Expiry<String> {
    type V = Expiry<Seq<char>>;

    open spec fn view(&self) -> Expiry<Seq<char>> {
        match self {
            Expiry::Unknown => Expiry::Unknown,
            Expiry::Expired => Expiry::Expired,
            Expiry::In(time) => Expiry::In(time@),
        }
    }
}

impl ReportView {
    /// Whether the end of the lifetime of the token can be told as a time.
    pub open spec fn has_end(self) -> bool {
        match (self.issued_at, self.expires_in) {
            (Some(issued_at), Some(expires_in)) => issued_at + expires_in <= u64::MAX,
            _ => true,
        }
    }

    /// The seconds since the token was issued: none where that is yet to come.
    pub open spec fn elapsed(self, now: Option<u64>) -> Option<u64> {
        match (self.issued_at, now) {
            (Some(issued_at), Some(now)) => Some(
                if now >= issued_at {
                    (now - issued_at) as u64
                } else {
                    0
                },
            ),
            _ => None,
        }
    }

    /// When the token expires. Where nothing tells how much of its lifetime has
    /// gone, the whole of it is left.
    pub open spec fn expiry(self, now: Option<u64>) -> Expiry<u64> {
        match (self.expires_in, self.issued_at, now) {
            (None, _, _) => Expiry::Unknown,
            (Some(expires_in), Some(issued_at), Some(now)) => if now < issued_at + expires_in {
                Expiry::In((issued_at + expires_in - now) as u64)
            } else {
                Expiry::Expired
            },
            (Some(expires_in), _, _) => if expires_in > 0 {
                Expiry::In(expires_in as u64)
            } else {
                Expiry::Expired
            },
        }
    }

    /// The text of the report, given its times as texts.
    pub open spec fn laid_out(
        self,
        token_type: Seq<char>,
        elapsed: Option<Seq<char>>,
        expiry: Expiry<Seq<char>>,
    ) -> Seq<char> {
        "Token type: "@ + token_type + (match elapsed {
            Some(elapsed) => "\nIssued: "@ + elapsed + " ago"@,
            None => seq![],
        }) + (match expiry {
            Expiry::Unknown => "\nExpired: unknown"@,
            Expiry::Expired => "\nExpired: true"@,
            Expiry::In(time) => "\nExpires in: "@ + time,
        }) + "\nWith refresh token: "@ + (if self.with_refresh_token {
            "true"@
        } else {
            "false"@
        }) + (match self.scope {
            Some(scope) => "\nWith scope: "@ + scope,
            None => seq![],
        })
    }

    /// The text of the report, at a time in seconds since the Unix epoch, where
    /// the clock tells one.
    pub open spec fn text(self, now: Option<u64>) -> Seq<char> {
        self.laid_out(
            lowercase(self.token_type),
            match self.elapsed(now) {
                Some(secs) => Some(duration_text(secs)),
                None => None,
            },
            match self.expiry(now) {
                Expiry::Unknown => Expiry::Unknown,
                Expiry::Expired => Expiry::Expired,
                Expiry::In(secs) => Expiry::In(duration_text(secs)),
            },
        )
    }
}

/// What `humantime::format_duration` makes of a whole number of seconds.
pub uninterp spec fn duration_text(secs: u64) -> Seq<char>;

/// Calls `humantime::format_duration`, and takes of what it returns the text
/// (`Display`). The contract names the text and says nothing more of it.
#[verifier::external_body]
fn format_seconds(secs: u64) -> (r: String)
    ensures
        r@ == duration_text(secs),
{
    format_duration(Duration::from_secs(secs)).to_string()
}

/// Calls `SystemTime::now`, and takes of the time the whole seconds since the
/// Unix epoch, where it is not before it. Nothing is claimed of the result: it
/// is the clock's.
#[verifier::external_body]
fn now_epoch() -> Option<u64> {
    SystemTime::now().duration_since(UNIX_EPOCH).map(|d| d.as_secs()).ok()
}

/// Whether a time is one that the clock can tell when it is read.
pub closed spec fn told_by_clock(now: Option<u64>) -> bool {
    call_ensures(now_epoch, (), now)
}

/// Nothing but reading the clock tells a time.
proof fn law_only_the_clock_tells(now: Option<u64>)
    ensures
        told_by_clock(now) <==> call_ensures(now_epoch, (), now),
{
}

impl Report {
    /// The seconds since the token was issued.
    pub fn elapsed(&self, now: Option<u64>) -> (r: Option<u64>)
        ensures
            r == self@.elapsed(now),
    {
        match (self.issued_at, now) {
            (Some(issued_at), Some(now)) => Some(now.saturating_sub(issued_at)),
            _ => None,
        }
    }

    /// When the token expires, in seconds.
    pub fn expiry(&self, now: Option<u64>) -> (r: Expiry<u64>)
        requires
            now is Some ==> self@.has_end(),
        ensures
            r == self@.expiry(now),
    {
        match self.expires_in {
            None => Expiry::Unknown,
            Some(exp) => {
                let remaining: u64 = match (self.issued_at, now) {
                    (Some(issued_at), Some(now)) => (issued_at + exp as u64).saturating_sub(now),
                    _ => exp as u64,
                };
                if remaining == 0 {
                    Expiry::Expired
                } else {
                    Expiry::In(remaining)
                }
            },
        }
    }

    /// Lays the report out as text, given its times as texts.
    pub fn lay_out(&self, token_type: &str, elapsed: Option<String>, expiry: Expiry<String>) -> (out:
        String)
        ensures
            out@ == self@.laid_out(token_type@, elapsed.deep_view(), expiry@),
    {
        let mut out = "Token type: ".to_owned();
        out.append(token_type);
        if let Some(elapsed) = &elapsed {
            let ghost head = out@;
            out.append("\nIssued: ");
            out.append(elapsed.as_str());
            out.append(" ago");
            assert(out@ =~= head + ("\nIssued: "@ + elapsed@ + " ago"@));
        }
        match &expiry {
            Expiry::Unknown => out.append("\nExpired: unknown"),
            Expiry::Expired => out.append("\nExpired: true"),
            Expiry::In(time) => {
                let ghost head = out@;
                out.append("\nExpires in: ");
                out.append(time.as_str());
                assert(out@ =~= head + ("\nExpires in: "@ + time@));
            },
        }
        out.append("\nWith refresh token: ");
        if self.with_refresh_token {
            out.append("true");
        } else {
            out.append("false");
        }
        if let Some(scope) = &self.scope {
            let ghost head = out@;
            out.append("\nWith scope: ");
            out.append(scope.as_str());
            assert(out@ =~= head + ("\nWith scope: "@ + scope@));
        }
        out
    }

    /// The text of the report, at a time in seconds since the Unix epoch, where
    /// the clock tells one.
    pub fn render(&self, now: Option<u64>) -> (out: String)
        requires
            now is Some ==> self@.has_end(),
        ensures
            out@ == self@.text(now),
    {
        let token_type = to_lowercase(self.token_type.as_str());
        let elapsed = match self.elapsed(now) {
            Some(secs) => Some(format_seconds(secs)),
            None => None,
        };
        let expiry = match self.expiry(now) {
            Expiry::Unknown => Expiry::Unknown,
            Expiry::Expired => Expiry::Expired,
            Expiry::In(secs) => Expiry::In(format_seconds(secs)),
        };
        self.lay_out(token_type.as_str(), elapsed, expiry)
    }

    /// The text of the report, at the time that the clock tells.
    pub fn fmt(&self) -> (out: String)
        requires
            self@.has_end(),
        ensures
            exists|now: Option<u64>| told_by_clock(now) && out@ == #[trigger] self@.text(now),
    {
        let now = now_epoch();
        assert(told_by_clock(now));
        self.render(now)
    }
}

/// The value of a JSON field.
#[derive(Debug, PartialEq, Eq)]
pub enum JsonValue {
    /// A string.
    Text(String),
    /// A number.
    Number(u64),
    /// A boolean.
    Flag(bool),
}

/// What [`JsonValue`] is, as contracts speak of it.
pub enum JsonValueView {
    Text(Seq<char>),
    Number(u64),
    Flag(bool),
}

impl View for JsonValue {
    type V = JsonValueView;

    open spec fn view(&self) -> JsonValueView {
        match self {
            JsonValue::Text(text) => JsonValueView::Text(text@),
            JsonValue::Number(n) => JsonValueView::Number(*n),
            JsonValue::Flag(b) => JsonValueView::Flag(*b),
        }
    }
}

/// A field of a JSON object.
#[derive(Debug, PartialEq, Eq)]
pub struct JsonField {
    /// The name of the field.
    pub name: String,
    /// The value of the field.
    pub value: JsonValue,
}

/// What [`JsonField`] is, as contracts speak of it.
pub struct JsonFieldView {
    pub name: Seq<char>,
    pub value: JsonValueView,
}

impl DeepView for JsonField {
    type V = JsonFieldView;

    open spec fn deep_view(&self) -> JsonFieldView {
        JsonFieldView { name: self.name@, value: self.value@ }
    }
}

/// The JSON field that an optional value makes: none where there is no value.
pub open spec fn optional_field(name: Seq<char>, value: Option<JsonValueView>) -> Seq<
    JsonFieldView,
> {
    match value {
        Some(value) => seq![JsonFieldView { name, value }],
        None => seq![],
    }
}

impl ReportView {
    /// The fields of the report as a JSON object, in order.
    pub open spec fn json(self) -> Seq<JsonFieldView> {
        seq![
            JsonFieldView {
                name: "token-type"@,
                value: JsonValueView::Text(self.token_type),
            },
        ] + optional_field(
            "issued-at"@,
            match self.issued_at {
                Some(n) => Some(JsonValueView::Number(n)),
                None => None,
            },
        ) + optional_field(
            "expires-in"@,
            match self.expires_in {
                Some(n) => Some(JsonValueView::Number(n as u64)),
                None => None,
            },
        ) + seq![
            JsonFieldView {
                name: "with-refresh-token"@,
                value: JsonValueView::Flag(self.with_refresh_token),
            },
        ] + optional_field(
            "scope"@,
            match self.scope {
                Some(text) => Some(JsonValueView::Text(text)),
                None => None,
            },
        )
    }
}

fn push_field(fields: &mut Vec<JsonField>, name: &str, value: JsonValue)
    ensures
        final(fields).deep_view() == old(fields).deep_view() + seq![
            JsonFieldView { name: name@, value: value@ },
        ],
{
    fields.push(JsonField { name: name.to_owned(), value });
    assert(fields.deep_view() =~= old(fields).deep_view() + seq![
        fields@[fields@.len() - 1].deep_view(),
    ]);
}

impl Report {
    /// The fields of the report as a JSON object, in order. A field without
    /// value is left out.
    pub fn json_fields(&self) -> (fields: Vec<JsonField>)
        ensures
            fields.deep_view() == self@.json(),
    {
        let mut fields: Vec<JsonField> = Vec::new();
        push_field(&mut fields, "token-type", JsonValue::Text(self.token_type.clone()));
        if let Some(issued_at) = self.issued_at {
            push_field(&mut fields, "issued-at", JsonValue::Number(issued_at));
        }
        if let Some(expires_in) = self.expires_in {
            push_field(&mut fields, "expires-in", JsonValue::Number(expires_in as u64));
        }
        push_field(&mut fields, "with-refresh-token", JsonValue::Flag(self.with_refresh_token));
        if let Some(scope) = &self.scope {
            push_field(&mut fields, "scope", JsonValue::Text(scope.clone()));
        }
        assert(fields.deep_view() =~= self@.json());
        fields
    }
}

} // verus!
