use duck_observers::builds::{Build, BuildProvider, BuildStatus, Observation};
use duck_observers::dispatch::{dispatch, AnyObserver, DispatchOutcome};
use duck_observers::mqtt::{
    MqttBrokerSettings, MqttCredentials, MqttObserver, MqttQoS, MQTTConfiguration,
};
use duck_observers::observers::{info_from_config, should_observe};
use duck_observers::slack::{SlackConfiguration, SlackCredentials, SlackObserver};
use duck_observers::transport::RecordingClient;

fn observed_build(collector: &str) -> Build {
    Build::new(
        "build_id".to_string(),
        BuildProvider::TeamCity,
        collector.to_string(),
        "project_id".to_string(),
        "project".to_string(),
        "definition_id".to_string(),
        "definition".to_string(),
        "build_number".to_string(),
        BuildStatus::Success,
        "branch".to_string(),
        "https://example.com/url".to_string(),
        "".to_string(),
        None,
    )
}

fn slack_observer(enabled: Option<bool>, collectors: Option<Vec<String>>) -> SlackObserver<RecordingClient> {
    SlackObserver::new(&SlackConfiguration {
        id: "slack".to_string(),
        enabled,
        collectors,
        channel: None,
        credentials: SlackCredentials::Webhook {
            url: "https://example.com/webhook".to_string(),
        },
    })
}

#[test]
fn disabled_observer_is_never_invoked() {
    let observers = vec![AnyObserver::Slack(slack_observer(Some(false), None))];
    let observation = Observation::BuildStatusChanged(observed_build("a"));

    let (observers, outcomes) = dispatch(observers, &observation);

    assert!(matches!(outcomes[0], DispatchOutcome::Skipped));
    match &observers[0] {
        AnyObserver::Slack(s) => assert_eq!(0, s.get_client().get_sent_requests().len()),
        _ => panic!("observer changed kind"),
    }
}

#[test]
fn collector_filter_decides_invocation() {
    let allow_a = Some(vec!["a".to_string()]);

    let observers = vec![AnyObserver::Slack(slack_observer(
        Some(true),
        allow_a.clone(),
    ))];
    let (observers, outcomes) = dispatch(
        observers,
        &Observation::BuildStatusChanged(observed_build("b")),
    );
    assert!(matches!(outcomes[0], DispatchOutcome::Skipped));
    match &observers[0] {
        AnyObserver::Slack(s) => assert_eq!(0, s.get_client().get_sent_requests().len()),
        _ => panic!("observer changed kind"),
    }

    let mut invoked = slack_observer(Some(true), allow_a);
    invoked.http.add_expectation(
        duck_observers::transport::HttpMethod::Post,
        "https://example.com/webhook".to_string(),
        200,
    );
    let observers = vec![AnyObserver::Slack(invoked)];
    let (observers, outcomes) = dispatch(
        observers,
        &Observation::BuildStatusChanged(observed_build("a")),
    );
    assert!(matches!(outcomes[0], DispatchOutcome::Done));
    match &observers[0] {
        AnyObserver::Slack(s) => assert_eq!(1, s.get_client().get_sent_requests().len()),
        _ => panic!("observer changed kind"),
    }
}

#[test]
fn one_failure_does_not_stop_the_next_observer() {
    let failing = slack_observer(Some(true), None);
    // No expectations queued: the send draws no answer and the observer fails.
    let mut healthy = slack_observer(Some(true), None);
    healthy.http.add_expectation(
        duck_observers::transport::HttpMethod::Post,
        "https://example.com/webhook".to_string(),
        200,
    );

    let observers = vec![
        AnyObserver::Slack(failing),
        AnyObserver::Slack(healthy),
    ];
    let (observers, outcomes) = dispatch(
        observers,
        &Observation::BuildStatusChanged(observed_build("a")),
    );

    assert!(matches!(outcomes[0], DispatchOutcome::Failed(_)));
    assert!(matches!(outcomes[1], DispatchOutcome::Done));
    match &observers[1] {
        AnyObserver::Slack(s) => assert_eq!(1, s.get_client().get_sent_requests().len()),
        _ => panic!("observer changed kind"),
    }
}

#[test]
fn mqtt_observer_yields_one_publish() {
    let observer = MqttObserver::new(&MQTTConfiguration {
        id: "mqtt".to_string(),
        enabled: None,
        collectors: None,
        broker: MqttBrokerSettings {
            hostname: "localhost".to_string(),
            port: 1883,
        },
        credentials: MqttCredentials {
            username: "user".to_string(),
            password: "SECRET-REDACTED".to_string(),
        },
        topic: "duck/status".to_string(),
    });

    let observers = vec![AnyObserver::<RecordingClient>::Mqtt(observer)];
    let (_observers, outcomes) = dispatch(
        observers,
        &Observation::BuildStatusChanged(observed_build("a")),
    );

    match &outcomes[0] {
        DispatchOutcome::Publish(p) => {
            assert_eq!("duck-mqtt-client", &p.client_id);
            assert_eq!("localhost", &p.hostname);
            assert_eq!(1883, p.port);
            assert_eq!("duck/status", &p.topic);
            assert_eq!("Hi! Build definition has status Success", &p.payload);
            assert_eq!(MqttQoS::AtLeastOnce, p.qos);
            assert_eq!(30, p.wait_seconds);
        }
        other => panic!("expected a publish, got {:?}", kind_of(other)),
    }
}

fn kind_of(outcome: &DispatchOutcome) -> &'static str {
    match outcome {
        DispatchOutcome::Skipped => "Skipped",
        DispatchOutcome::Done => "Done",
        DispatchOutcome::Failed(_) => "Failed",
        DispatchOutcome::Publish(_) => "Publish",
    }
}

#[test]
fn mqtt_observer_ignores_shutdown() {
    let observer = MqttObserver::new(&MQTTConfiguration {
        id: "mqtt".to_string(),
        enabled: None,
        collectors: None,
        broker: MqttBrokerSettings {
            hostname: "localhost".to_string(),
            port: 1883,
        },
        credentials: MqttCredentials {
            username: "user".to_string(),
            password: "SECRET-REDACTED".to_string(),
        },
        topic: "duck/status".to_string(),
    });
    assert!(observer.observe(&Observation::ShuttingDown).is_none());
}

#[test]
fn should_observe_follows_the_filter_rules() {
    let info = info_from_config(
        &"x".to_string(),
        &Some(false),
        &None,
    );
    assert!(!should_observe(
        &info,
        &Observation::DuckStatusChanged(BuildStatus::Success)
    ));

    let info = info_from_config(&"x".to_string(), &None, &None);
    assert!(should_observe(&info, &Observation::ShuttingDown));

    let info = info_from_config(
        &"x".to_string(),
        &None,
        &Some(vec!["a".to_string()]),
    );
    assert!(should_observe(
        &info,
        &Observation::BuildStatusChanged(observed_build("a"))
    ));
    assert!(!should_observe(
        &info,
        &Observation::BuildStatusChanged(observed_build("b"))
    ));
}
