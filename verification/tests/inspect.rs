use std::time::{Duration, SystemTime, UNIX_EPOCH};

use ortie::token::inspect::{
    Expiry, JsonField, JsonValue, Report, TokenInspectCommand,
};
use ortie::token::params::AccessTokenSuccessParams;
use serde_json::Value;

fn params() -> AccessTokenSuccessParams {
    AccessTokenSuccessParams {
        access_token: "access-token-must-not-leak".into(),
        token_type: "Bearer".into(),
        expires_in: Some(3600),
        refresh_token: Some("refresh-token-must-not-leak".into()),
        scope: Some("mail".into()),
        issued_at: Some(1_700_000_000),
    }
}

fn json(report: &Report) -> String {
    let mut object = serde_json::Map::new();
    for field in report.json_fields() {
        let value = match field.value {
            JsonValue::Text(text) => Value::from(text),
            JsonValue::Number(n) => Value::from(n),
            JsonValue::Flag(b) => Value::from(b),
        };
        object.insert(field.name, value);
    }
    serde_json::to_string(&Value::Object(object)).unwrap()
}

#[test]
fn report_json_omits_access_and_refresh_tokens() {
    let report = Report::from_params(AccessTokenSuccessParams {
        access_token: "access-token-must-not-leak".into(),
        token_type: "Bearer".into(),
        expires_in: Some(3600),
        refresh_token: Some("refresh-token-must-not-leak".into()),
        scope: Some("mail".into()),
        issued_at: Some(1_700_000_000),
    });
    let json = json(&report);
    assert!(!json.contains("access-token-must-not-leak"));
    assert!(!json.contains("refresh-token-must-not-leak"));
    assert!(!json.contains("access_token"));
    assert!(!json.contains("refresh_token"));
    assert!(json.contains("with-refresh-token"));
}

#[test]
fn json_fields_are_in_order_and_without_gaps() {
    let text = |name: &str, value: &str| JsonField {
        name: name.into(),
        value: JsonValue::Text(value.into()),
    };
    let number = |name: &str, value: u64| JsonField {
        name: name.into(),
        value: JsonValue::Number(value),
    };
    let flag = |name: &str, value: bool| JsonField {
        name: name.into(),
        value: JsonValue::Flag(value),
    };
    assert_eq!(
        TokenInspectCommand.execute(params()).json_fields(),
        vec![
            text("token-type", "Bearer"),
            number("issued-at", 1_700_000_000),
            number("expires-in", 3600),
            flag("with-refresh-token", true),
            text("scope", "mail"),
        ]
    );
    let bare = AccessTokenSuccessParams {
        access_token: "a".into(),
        token_type: "mac".into(),
        expires_in: None,
        refresh_token: None,
        scope: None,
        issued_at: None,
    };
    assert_eq!(
        TokenInspectCommand.execute(bare).json_fields(),
        vec![text("token-type", "mac"), flag("with-refresh-token", false)]
    );
}

#[test]
fn text_of_a_living_token() {
    let report = Report::from_params(params());
    assert_eq!(
        report.render(Some(1_700_000_000 + 90)),
        "Token type: bearer\n\
         Issued: 1m 30s ago\n\
         Expires in: 58m 30s\n\
         With refresh token: true\n\
         With scope: mail"
    );
}

#[test]
fn text_of_an_expired_token() {
    let mut report = Report::from_params(params());
    report.with_refresh_token = false;
    report.scope = None;
    assert_eq!(
        report.render(Some(1_700_000_000 + 3600)),
        "Token type: bearer\n\
         Issued: 1h ago\n\
         Expired: true\n\
         With refresh token: false"
    );
}

#[test]
fn text_without_times() {
    let mut report = Report::from_params(params());
    assert_eq!(
        report.render(None),
        "Token type: bearer\nExpires in: 1h\nWith refresh token: true\nWith scope: mail"
    );
    report.issued_at = None;
    report.expires_in = None;
    assert_eq!(
        report.render(Some(1)),
        "Token type: bearer\nExpired: unknown\nWith refresh token: true\nWith scope: mail"
    );
}

#[test]
fn token_type_is_lowered_as_unicode_says() {
    let mut report = Report::from_params(params());
    report.token_type = "BEAR\u{c9}R".into();
    assert!(report.render(None).starts_with("Token type: bear\u{e9}r\n"));
}

#[test]
fn durations_are_humantime_s() {
    let mut report = Report::from_params(params());
    report.issued_at = Some(0);
    for secs in [0, 1, 59, 60, 3661, 86_400, 2_630_016, 31_557_600, 100_000_000] {
        let duration = humantime::format_duration(Duration::from_secs(secs));
        let text = report.render(Some(secs));
        assert!(text.contains(&format!("\nIssued: {duration} ago\n")), "{text}");
    }
}

#[test]
fn elapsed_and_expiry() {
    let mut report = Report::from_params(params());
    let issued = 1_700_000_000;
    assert_eq!(report.elapsed(Some(issued + 5)), Some(5));
    assert_eq!(report.elapsed(Some(issued - 5)), Some(0));
    assert_eq!(report.elapsed(None), None);
    assert_eq!(report.expiry(Some(issued - 5)), Expiry::In(3605));
    assert_eq!(report.expiry(Some(issued + 3599)), Expiry::In(1));
    assert_eq!(report.expiry(Some(issued + 3600)), Expiry::Expired);
    assert_eq!(report.expiry(Some(u64::MAX)), Expiry::Expired);
    assert_eq!(report.expiry(None), Expiry::In(3600));
    report.issued_at = None;
    assert_eq!(report.elapsed(Some(issued)), None);
    assert_eq!(report.expiry(Some(issued)), Expiry::In(3600));
    report.expires_in = Some(0);
    assert_eq!(report.expiry(None), Expiry::Expired);
    report.expires_in = None;
    assert_eq!(report.expiry(Some(issued)), Expiry::Unknown);
}

#[test]
fn living_time_makes_up_the_lifetime() {
    let report = Report::from_params(params());
    for past in [0, 1, 1800, 3599] {
        let now = Some(1_700_000_000 + past);
        assert_eq!(report.elapsed(now), Some(past));
        assert_eq!(report.expiry(now), Expiry::In(3600 - past));
    }
}

#[test]
fn lay_out_takes_texts_as_given() {
    let report = Report::from_params(params());
    assert_eq!(
        report.lay_out("T", Some("E".into()), Expiry::In("R".into())),
        "Token type: T\nIssued: E ago\nExpires in: R\nWith refresh token: true\nWith scope: mail"
    );
}

#[test]
fn text_of_now_goes_by_the_clock() {
    let now = SystemTime::now().duration_since(UNIX_EPOCH).unwrap().as_secs();
    let mut report = Report::from_params(params());
    report.issued_at = Some(now - 7_200);
    let text = report.fmt();
    assert!(text.contains("\nIssued: 2h"), "{text}");
    assert!(text.contains("\nExpired: true\n"), "{text}");
    report.issued_at = Some(now);
    report.expires_in = Some(7_205);
    let text = report.fmt();
    assert!(text.contains("\nExpires in: 2h"), "{text}");
}

#[test]
fn reports_of_tokens_alike_are_alike() {
    let mut other = params();
    other.access_token = "another".into();
    other.refresh_token = Some("another".into());
    let (a, b) = (Report::from_params(params()), Report::from_params(other));
    assert_eq!(a.render(Some(1_700_000_001)), b.render(Some(1_700_000_001)));
    assert_eq!(a.json_fields(), b.json_fields());
}
