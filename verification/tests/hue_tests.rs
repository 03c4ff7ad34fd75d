use duck_observers::builds::{Build, BuildProvider, BuildStatus, Observation};
use duck_observers::hue::{HueConfiguration, HueObserver};
use duck_observers::transport::{HttpMethod, RecordingClient};

fn hue_config() -> HueConfiguration {
    HueConfiguration {
        id: "hue".to_string(),
        enabled: Some(true),
        brightness: Some(255),
        collectors: None,
        hub_url: "https://example.com".to_string(),
        username: "patrik".to_string(),
        lights: vec!["foo".to_string()],
    }
}

#[test]
fn should_post_to_correct_url() {
    let mut hue = HueObserver::<RecordingClient>::new(&hue_config());
    hue.client.add_expectation(
        HttpMethod::Put,
        "https://example.com/api/patrik/lights/foo/state".to_string(),
        200,
    );

    hue.observe(&Observation::DuckStatusChanged(BuildStatus::Success))
        .unwrap();

    let requests = hue.get_client().get_sent_requests();
    assert_eq!(1, requests.len());
    assert_eq!(HttpMethod::Put, requests[0].method);
    assert_eq!(
        "https://example.com/api/patrik/lights/foo/state",
        &requests[0].url
    );
}

#[test]
fn should_send_correct_payload() {
    let mut hue = HueObserver::<RecordingClient>::new(&hue_config());
    hue.client.add_expectation(
        HttpMethod::Put,
        "https://example.com/api/patrik/lights/foo/state".to_string(),
        200,
    );

    hue.observe(&Observation::DuckStatusChanged(BuildStatus::Success))
        .unwrap();

    let requests = hue.get_client().get_sent_requests();
    assert_eq!(1, requests.len());
    assert!(&requests[0].body.is_some());
    assert_eq!(
        "{\"alert\":\"none\",\"xy\":[0.32114217,0.59787315],\"on\":true,\"bri\":255}",
        &requests[0].body.clone().unwrap()
    );
}

#[test]
fn update_error_names_light_and_status() {
    let mut hue = HueObserver::<RecordingClient>::new(&hue_config());
    hue.client.add_expectation(
        HttpMethod::Put,
        "https://example.com/api/patrik/lights/foo/state".to_string(),
        502,
    );

    let err = hue
        .observe(&Observation::DuckStatusChanged(BuildStatus::Success))
        .unwrap_err();
    let message = err.message();
    assert!(message.contains("Could not update state for light 'foo' (502 Bad Gateway)"));
}

#[test]
fn shutdown_turns_off_every_light_and_reports_first_failure() {
    let mut config = hue_config();
    config.lights = vec!["foo".to_string(), "bar".to_string()];
    let mut hue = HueObserver::<RecordingClient>::new(&config);
    hue.client.add_expectation(
        HttpMethod::Put,
        "https://example.com/api/patrik/lights/foo/state".to_string(),
        502,
    );
    hue.client.add_expectation(
        HttpMethod::Put,
        "https://example.com/api/patrik/lights/bar/state".to_string(),
        200,
    );

    let err = hue.observe(&Observation::ShuttingDown).unwrap_err();

    let requests = hue.get_client().get_sent_requests();
    assert_eq!(2, requests.len());
    assert_eq!("{\"on\":false}", &requests[0].body.clone().unwrap());
    assert_eq!("{\"on\":false}", &requests[1].body.clone().unwrap());
    assert_eq!(
        "https://example.com/api/patrik/lights/bar/state",
        &requests[1].url
    );
    assert!(err
        .message()
        .contains("Could not update state for light 'foo' (502 Bad Gateway)"));
}

#[test]
fn update_stops_at_first_failed_light() {
    let mut config = hue_config();
    config.lights = vec!["foo".to_string(), "bar".to_string()];
    let mut hue = HueObserver::<RecordingClient>::new(&config);
    hue.client.add_expectation(
        HttpMethod::Put,
        "https://example.com/api/patrik/lights/foo/state".to_string(),
        502,
    );

    let err = hue
        .observe(&Observation::DuckStatusChanged(BuildStatus::Failed))
        .unwrap_err();

    let requests = hue.get_client().get_sent_requests();
    assert_eq!(1, requests.len());
    assert!(err.message().contains("'foo' (502 Bad Gateway)"));
}

#[test]
fn build_status_changes_are_ignored_by_hue() {
    let mut hue = HueObserver::<RecordingClient>::new(&hue_config());
    let build = Build::new(
        "build_id".to_string(),
        BuildProvider::TeamCity,
        "collector".to_string(),
        "project_id".to_string(),
        "project".to_string(),
        "definition_id".to_string(),
        "definition".to_string(),
        "build_number".to_string(),
        BuildStatus::Success,
        "branch".to_string(),
        "https://example.com/url".to_string(),
        "".to_string(),
        None,
    );
    hue.observe(&Observation::BuildStatusChanged(build)).unwrap();
    assert_eq!(0, hue.get_client().get_sent_requests().len());
}
