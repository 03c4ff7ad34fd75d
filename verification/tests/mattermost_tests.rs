use duck_observers::builds::{Build, BuildProvider, BuildStatus, Observation};
use duck_observers::mattermost::{
    MattermostConfiguration, MattermostCredentials, MattermostObserver,
};
use duck_observers::transport::{HttpMethod, RecordingClient};

fn mattermost_config(channel: Option<String>) -> MattermostConfiguration {
    MattermostConfiguration {
        id: "hue".to_string(),
        enabled: Some(true),
        collectors: None,
        channel,
        credentials: MattermostCredentials::Webhook {
            url: "https://example.com/webhook".to_string(),
        },
    }
}

fn mattermost_build(status: BuildStatus) -> Build {
    Build::new(
        "build_id".to_string(),
        BuildProvider::TeamCity,
        "collector".to_string(),
        "project_id".to_string(),
        "project".to_string(),
        "definition_id".to_string(),
        "definition".to_string(),
        "build_number".to_string(),
        status,
        "branch".to_string(),
        "https://example.com/url".to_string(),
        "".to_string(),
        None,
    )
}

#[test]
fn should_post_to_webhook_url() {
    let mut mattermost = MattermostObserver::<RecordingClient>::new(&mattermost_config(None));
    mattermost.http.add_expectation(
        HttpMethod::Post,
        "https://example.com/webhook".to_string(),
        200,
    );

    mattermost
        .observe(&Observation::BuildStatusChanged(mattermost_build(
            BuildStatus::Success,
        )))
        .unwrap();

    let requests = mattermost.get_client().get_sent_requests();
    assert_eq!(1, requests.len());
    assert_eq!(HttpMethod::Post, requests[0].method);
    assert_eq!("https://example.com/webhook", &requests[0].url);
}

#[test]
fn mod_should_send_correct_payload() {
    let mut mattermost = MattermostObserver::<RecordingClient>::new(&mattermost_config(None));
    mattermost.http.add_expectation(
        HttpMethod::Post,
        "https://example.com/webhook".to_string(),
        200,
    );

    mattermost
        .observe(&Observation::BuildStatusChanged(mattermost_build(
            BuildStatus::Success,
        )))
        .unwrap();

    let requests = mattermost.get_client().get_sent_requests();
    assert_eq!(1, requests.len());
    assert!(&requests[0].body.is_some());
    assert_eq!(
        "{\"text\":\"TeamCity build status for project::definition (branch) changed to *Success*\"}",
        &requests[0].body.clone().unwrap()
    );
}

#[test]
fn should_include_channel_in_payload_if_specified() {
    let mut mattermost =
        MattermostObserver::<RecordingClient>::new(&mattermost_config(Some("foo".to_string())));
    mattermost.http.add_expectation(
        HttpMethod::Post,
        "https://example.com/webhook".to_string(),
        200,
    );

    mattermost
        .observe(&Observation::BuildStatusChanged(mattermost_build(
            BuildStatus::Success,
        )))
        .unwrap();

    let requests = mattermost.get_client().get_sent_requests();
    assert_eq!(1, requests.len());
    assert!(&requests[0].body.is_some());
    assert_eq!(
        "{\"channel_id\":\"foo\",\"text\":\"TeamCity build status for project::definition (branch) changed to *Success*\"}",
        &requests[0].body.clone().unwrap()
    );
}

#[test]
fn unknown_status_draws_no_request() {
    let mut mattermost = MattermostObserver::<RecordingClient>::new(&mattermost_config(None));
    mattermost
        .observe(&Observation::BuildStatusChanged(mattermost_build(
            BuildStatus::Unknown,
        )))
        .unwrap();
    assert_eq!(0, mattermost.get_client().get_sent_requests().len());
}

#[test]
fn mattermost_error_names_status() {
    let mut mattermost = MattermostObserver::<RecordingClient>::new(&mattermost_config(None));
    mattermost.http.add_expectation(
        HttpMethod::Post,
        "https://example.com/webhook".to_string(),
        503,
    );

    let err = mattermost
        .observe(&Observation::BuildStatusChanged(mattermost_build(
            BuildStatus::Canceled,
        )))
        .unwrap_err();
    assert!(err
        .message()
        .contains("Could not send Mattermost message (503 Service Unavailable)"));
}
