use duck_observers::builds::{provider_name, status_name, BuildProvider, BuildStatus};
use duck_observers::errors::DuckError;
use duck_observers::text::{dec_string, reason_phrase};

#[test]
fn decimal_rendering_is_exact() {
    assert_eq!("0", &dec_string(0));
    assert_eq!("7", &dec_string(7));
    assert_eq!("42", &dec_string(42));
    assert_eq!("255", &dec_string(255));
    assert_eq!("65535", &dec_string(65535));
}

#[test]
fn reason_phrases_match_the_registry() {
    assert_eq!("OK", reason_phrase(200));
    assert_eq!("Bad Gateway", reason_phrase(502));
    assert_eq!("Service Unavailable", reason_phrase(503));
    assert_eq!("Unknown Status", reason_phrase(599));
}

#[test]
fn status_and_provider_names() {
    assert_eq!("Success", status_name(BuildStatus::Success));
    assert_eq!("Failed", status_name(BuildStatus::Failed));
    assert_eq!("Unknown", status_name(BuildStatus::Unknown));
    assert_eq!("TeamCity", provider_name(BuildProvider::TeamCity));
    assert_eq!("AzureDevOps", provider_name(BuildProvider::AzureDevOps));
}

#[test]
fn error_messages_are_exact() {
    let e = DuckError::HueLight {
        light: "foo".to_string(),
        code: 502,
    };
    assert_eq!(
        "Could not update state for light 'foo' (502 Bad Gateway)",
        &e.message()
    );

    let e = DuckError::SlackSend { code: 502 };
    assert_eq!("Could not send Slack message (502 Bad Gateway)", &e.message());

    let e = DuckError::MattermostSend { code: 404 };
    assert_eq!(
        "Could not send Mattermost message (404 Not Found)",
        &e.message()
    );

    let e = DuckError::Unreachable {
        target: "https://example.com/webhook".to_string(),
    };
    assert_eq!("Could not reach 'https://example.com/webhook'", &e.message());
}
