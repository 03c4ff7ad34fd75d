use duck_observers::builds::{Build, BuildProvider, BuildStatus, Observation};
use duck_observers::slack::{SlackConfiguration, SlackCredentials, SlackObserver};
use duck_observers::transport::{HttpMethod, RecordingClient};

fn slack_config(channel: Option<String>) -> SlackConfiguration {
    SlackConfiguration {
        id: "hue".to_string(),
        enabled: Some(true),
        collectors: None,
        channel,
        credentials: SlackCredentials::Webhook {
            url: "https://example.com/webhook".to_string(),
        },
    }
}

fn sample_build(status: BuildStatus) -> Build {
    Build::new(
        "build_id".to_string(),
        BuildProvider::TeamCity,
        "collector".to_string(),
        "project_id".to_string(),
        "project".to_string(),
        "definition_id".to_string(),
        "definition".to_string(),
        "build_number".to_string(),
        status,
        "branch".to_string(),
        "https://example.com/url".to_string(),
        "".to_string(),
        None,
    )
}

#[test]
fn mod_should_post_to_webhook_url() {
    let mut slack = SlackObserver::<RecordingClient>::new(&slack_config(None));
    slack.http.add_expectation(
        HttpMethod::Post,
        "https://example.com/webhook".to_string(),
        200,
    );

    slack
        .observe(&Observation::BuildStatusChanged(sample_build(
            BuildStatus::Success,
        )))
        .unwrap();

    let requests = slack.get_client().get_sent_requests();
    assert_eq!(1, requests.len());
    assert_eq!(HttpMethod::Post, requests[0].method);
    assert_eq!("https://example.com/webhook", &requests[0].url);
}

#[test]
fn slack_should_send_correct_payload() {
    let mut slack = SlackObserver::<RecordingClient>::new(&slack_config(None));
    slack.http.add_expectation(
        HttpMethod::Post,
        "https://example.com/webhook".to_string(),
        200,
    );

    slack
        .observe(&Observation::BuildStatusChanged(sample_build(
            BuildStatus::Success,
        )))
        .unwrap();

    let requests = slack.get_client().get_sent_requests();
    assert_eq!(1, requests.len());
    assert!(&requests[0].body.is_some());
    assert_eq!(
        "{\"icon_emoji\":\":heavy_check_mark:\",\"text\":\"TeamCity build status for project::definition (branch) changed to *Success*\",\"username\":\"Duck\"}",
        &requests[0].body.clone().unwrap()
    );
}

#[test]
fn slack_error_names_status() {
    let mut slack = SlackObserver::<RecordingClient>::new(&slack_config(None));
    slack.http.add_expectation(
        HttpMethod::Post,
        "https://example.com/webhook".to_string(),
        502,
    );

    let err = slack
        .observe(&Observation::BuildStatusChanged(sample_build(
            BuildStatus::Success,
        )))
        .unwrap_err();
    assert!(err
        .message()
        .contains("Could not send Slack message (502 Bad Gateway)"));
}

#[test]
fn uninteresting_statuses_draw_no_request() {
    for status in [
        BuildStatus::Queued,
        BuildStatus::Running,
        BuildStatus::Unknown,
    ] {
        let mut slack = SlackObserver::<RecordingClient>::new(&slack_config(None));
        slack
            .observe(&Observation::BuildStatusChanged(sample_build(status)))
            .unwrap();
        assert_eq!(0, slack.get_client().get_sent_requests().len());
    }
}

#[test]
fn slack_channel_appears_in_payload() {
    let mut slack =
        SlackObserver::<RecordingClient>::new(&slack_config(Some("builds".to_string())));
    slack.http.add_expectation(
        HttpMethod::Post,
        "https://example.com/webhook".to_string(),
        200,
    );

    slack
        .observe(&Observation::BuildStatusChanged(sample_build(
            BuildStatus::Failed,
        )))
        .unwrap();

    let requests = slack.get_client().get_sent_requests();
    assert_eq!(
        "{\"channel\":\"builds\",\"icon_emoji\":\":heavy_multiplication_x:\",\"text\":\"TeamCity build status for project::definition (branch) changed to *Failed*\",\"username\":\"Duck\"}",
        &requests[0].body.clone().unwrap()
    );
}

#[test]
fn observing_twice_sends_two_requests() {
    let mut slack = SlackObserver::<RecordingClient>::new(&slack_config(None));
    slack.http.add_expectation(
        HttpMethod::Post,
        "https://example.com/webhook".to_string(),
        200,
    );
    slack.http.add_expectation(
        HttpMethod::Post,
        "https://example.com/webhook".to_string(),
        200,
    );

    let observation = Observation::BuildStatusChanged(sample_build(BuildStatus::Success));
    slack.observe(&observation).unwrap();
    slack.observe(&observation).unwrap();

    let requests = slack.get_client().get_sent_requests();
    assert_eq!(2, requests.len());
    assert_eq!(requests[0].body, requests[1].body);
    assert_eq!(requests[0].url, requests[1].url);
}

#[test]
fn mismatched_expectation_draws_no_answer() {
    let mut slack = SlackObserver::<RecordingClient>::new(&slack_config(None));
    slack.http.add_expectation(
        HttpMethod::Post,
        "https://example.com/other".to_string(),
        200,
    );

    let err = slack
        .observe(&Observation::BuildStatusChanged(sample_build(
            BuildStatus::Success,
        )))
        .unwrap_err();
    assert_eq!(
        "Could not reach 'https://example.com/webhook'",
        &err.message()
    );
    // The request was still recorded verbatim.
    assert_eq!(1, slack.get_client().get_sent_requests().len());
}

#[test]
fn quotes_in_branch_names_are_escaped() {
    let mut build = sample_build(BuildStatus::Success);
    build.branch = "a\"b\\c".to_string();
    let mut slack = SlackObserver::<RecordingClient>::new(&slack_config(None));
    slack.http.add_expectation(
        HttpMethod::Post,
        "https://example.com/webhook".to_string(),
        200,
    );
    slack
        .observe(&Observation::BuildStatusChanged(build))
        .unwrap();
    let body = slack.get_client().get_sent_requests()[0]
        .body
        .clone()
        .unwrap();
    assert!(body.contains("(a\\\"b\\\\c)"));
}
