use weather_station::failure::{Failure, FailureKind};
use weather_station::options::Options;
use weather_station::pipeline::{absence_notice, conclude, Action, Event, Run, Stage};
use weather_station::unit::Unit;

const KEY: &str = "6532d6454b8aa370768e63d6ba5a832e";

const METRIC_PAYLOAD: &str = r#"{"observations":[{"stationID":"KCASANFR70","obsTimeUtc":"2020-10-07T10:02:49Z","obsTimeLocal":"2020-10-07 03:02:49","neighborhood":"Mission District","country":"US","solarRadiation":161.3,"lon":-122.41,"epoch":1602064969,"lat":37.76,"uv":2.0,"winddir":265,"humidity":77.0,"metric":{"temp":14.1,"heatIndex":14.1,"dewpt":10.1,"windChill":14.1,"windSpeed":17.2,"windGust":24.1,"pressure":1004.4,"precipRate":0.0,"precipTotal":0.0,"elev":34.1}}]}"#;

const IMPERIAL_PAYLOAD: &str = r#"{"observations":[{"stationID":"KCASANFR70","obsTimeUtc":"2020-10-07T10:02:49Z","obsTimeLocal":"2020-10-07 03:02:49","neighborhood":"Mission District","country":"US","solarRadiation":161.3,"lon":-122.41,"epoch":1602064969,"lat":37.76,"uv":2.0,"winddir":265,"humidity":77.0,"imperial":{"temp":57.4,"heatIndex":57.4,"dewpt":50.2,"windChill":57.4,"windSpeed":10.7,"windGust":15.0,"pressure":29.66,"precipRate":0.0,"precipTotal":0.0,"elev":112.0}}]}"#;

fn options(selector: &str) -> Options {
    Options {
        timeout: 10000,
        unit: Unit::from_str(selector).unwrap(),
        station_id: String::from("KCASANFR70"),
    }
}

/// A service that answers the key request with `key` and the observation
/// request with `observation`, and counts the requests it gets.
fn serve(selector: &str, key: Event, observation: Event) -> (Action, usize, usize) {
    let (mut run, mut action) = Run::start(options(selector));
    let mut key_requests: usize = 0;
    let mut observation_requests: usize = 0;
    loop {
        let event = match &action {
            Action::FetchApiKey => {
                key_requests += 1;
                assert_eq!(key_requests, 1);
                assert_eq!(run.stage(), Stage::AwaitingKey);
                match &key {
                    Event::KeyResolved(text) => Event::KeyResolved(text.clone()),
                    Event::KeyUnavailable(text) => Event::KeyUnavailable(text.clone()),
                    _ => unreachable!(),
                }
            }
            Action::FetchObservation { api_key, station_id, unit } => {
                observation_requests += 1;
                assert_eq!(observation_requests, 1);
                assert_eq!(run.stage(), Stage::AwaitingObservation);
                assert_eq!(api_key, KEY);
                assert_eq!(station_id, "KCASANFR70");
                assert_eq!(unit.as_str(), selector);
                match &observation {
                    Event::ObservationReceived(text) => Event::ObservationReceived(text.clone()),
                    Event::ObservationAbsent => Event::ObservationAbsent,
                    Event::FetchFailed(text) => Event::FetchFailed(text.clone()),
                    _ => unreachable!(),
                }
            }
            _ => {
                assert_eq!(run.stage(), Stage::Finished);
                return (action, key_requests, observation_requests);
            }
        };
        action = run.step(event);
    }
}

fn resolved() -> Event {
    Event::KeyResolved(String::from(KEY))
}

#[test]
fn run_starts_by_asking_for_the_key() {
    let (run, action) = Run::start(options("e"));
    assert_eq!(action, Action::FetchApiKey);
    assert_eq!(run.stage(), Stage::AwaitingKey);
    assert_eq!(run.unit(), Unit::English);
    assert_eq!(run.station_id(), "KCASANFR70");
}

#[test]
fn metric_run_prints_the_metric_observation() {
    let (action, key_requests, observation_requests) =
        serve("m", resolved(), Event::ObservationReceived(String::from(METRIC_PAYLOAD)));
    assert_eq!(key_requests, 1);
    assert_eq!(observation_requests, 1);
    let text = match action {
        Action::Print(text) => text,
        other => panic!("{:?}", other),
    };
    assert_eq!(
        text,
        r#"[{"country":"US","epoch":1602064969,"humidity":77.0,"lat":37.76,"lon":-122.41,"imperial":null,"metric":{"dewpt":10.1,"elev":34.1,"heatIndex":14.1,"precipRate":0.0,"precipTotal":0.0,"pressure":1004.4,"temp":14.1,"windChill":14.1,"windGust":24.1,"windSpeed":17.2},"neighborhood":"Mission District","obsTimeLocal":"2020-10-07 03:02:49","obsTimeUtc":"2020-10-07T10:02:49Z","solarRadiation":161.3,"uv":2.0,"winddir":265.0}]"#
    );
    let value: serde_json::Value = serde_json::from_str(&text).unwrap();
    assert_eq!(value.as_array().unwrap().len(), 1);
    assert!(value[0]["imperial"].is_null());
    assert_eq!(value[0]["humidity"].as_f64(), Some(77.0));
    assert_eq!(value[0]["winddir"].as_f64(), Some(265.0));
    assert_eq!(value[0]["obsTimeUtc"].as_str(), Some("2020-10-07T10:02:49Z"));
    assert_eq!(value[0]["metric"]["temp"].as_f64(), Some(14.1));
    assert_eq!(value[0]["metric"]["pressure"].as_f64(), Some(1004.4));
    assert_eq!(value[0]["metric"]["windSpeed"].as_f64(), Some(17.2));
}

#[test]
fn english_run_prints_the_imperial_observation() {
    let (action, key_requests, observation_requests) =
        serve("e", resolved(), Event::ObservationReceived(String::from(IMPERIAL_PAYLOAD)));
    assert_eq!(key_requests, 1);
    assert_eq!(observation_requests, 1);
    let text = match action {
        Action::Print(text) => text,
        other => panic!("{:?}", other),
    };
    let value: serde_json::Value = serde_json::from_str(&text).unwrap();
    assert_eq!(value.as_array().unwrap().len(), 1);
    assert!(value[0]["metric"].is_null());
    assert_eq!(value[0]["humidity"].as_f64(), Some(77.0));
    assert_eq!(value[0]["imperial"]["temp"].as_f64(), Some(57.4));
    assert_eq!(value[0]["imperial"]["pressure"].as_f64(), Some(29.66));
    assert_eq!(value[0]["imperial"]["windSpeed"].as_f64(), Some(10.7));
}

#[test]
fn run_does_not_relabel_a_payload_of_the_other_unit() {
    let (action, _, _) =
        serve("e", resolved(), Event::ObservationReceived(String::from(METRIC_PAYLOAD)));
    assert_eq!(
        action,
        Action::Fail(Failure::with_detail(
            FailureKind::ConversionFailed,
            "observation carries values of another unit system"
        ))
    );
}

#[test]
fn absent_observation_is_reported_not_converted() {
    for selector in ["m", "e"] {
        let (action, key_requests, observation_requests) =
            serve(selector, resolved(), Event::ObservationAbsent);
        assert_eq!(action, Action::ReportAbsent);
        assert_eq!(key_requests, 1);
        assert_eq!(observation_requests, 1);
    }
    assert_eq!(absence_notice(), "no result...");
}

#[test]
fn unavailable_key_ends_the_run_before_any_observation_request() {
    let (action, key_requests, observation_requests) = serve(
        "m",
        Event::KeyUnavailable(String::from("ApiKeyNotFound")),
        Event::ObservationReceived(String::from(METRIC_PAYLOAD)),
    );
    assert_eq!(
        action,
        Action::Fail(Failure::with_detail(FailureKind::CredentialUnavailable, "ApiKeyNotFound"))
    );
    assert_eq!(key_requests, 1);
    assert_eq!(observation_requests, 0);
}

#[test]
fn timed_out_key_request_is_a_credential_failure() {
    let (mut run, _) = Run::start(options("m"));
    let action = run.step(Event::KeyUnavailable(String::from("operation timed out")));
    let failure = match action {
        Action::Fail(failure) => failure,
        other => panic!("{:?}", other),
    };
    assert_eq!(failure.kind, FailureKind::CredentialUnavailable);
    assert_eq!(failure.message(), "couldn't fetch api key: operation timed out");
    assert_eq!(run.stage(), Stage::Finished);
}

#[test]
fn empty_key_is_a_credential_failure() {
    let (mut run, _) = Run::start(options("m"));
    let action = run.step(Event::KeyResolved(String::new()));
    assert_eq!(
        action,
        Action::Fail(Failure::with_detail(
            FailureKind::CredentialUnavailable,
            "the key is empty"
        ))
    );
    assert_eq!(run.stage(), Stage::Finished);
}

#[test]
fn failed_fetch_is_a_fetch_failure() {
    let (action, _, observation_requests) =
        serve("m", resolved(), Event::FetchFailed(String::from("status 401")));
    assert_eq!(
        action,
        Action::Fail(Failure::with_detail(FailureKind::FetchFailed, "status 401"))
    );
    assert_eq!(observation_requests, 1);
}

#[test]
fn malformed_payload_is_a_conversion_failure() {
    let payload = r#"{"observations":[{"country":"US"}]}"#;
    let (action, _, _) = serve("m", resolved(), Event::ObservationReceived(String::from(payload)));
    let failure = match action {
        Action::Fail(failure) => failure,
        other => panic!("{:?}", other),
    };
    assert_eq!(failure.kind, FailureKind::ConversionFailed);
    assert!(failure.message().starts_with("couldn't parse response: "));
}

#[test]
fn event_that_does_not_answer_the_key_request_is_a_credential_failure() {
    let events = [
        Event::ObservationReceived(String::from(METRIC_PAYLOAD)),
        Event::ObservationAbsent,
        Event::FetchFailed(String::from("status 500")),
    ];
    for event in events {
        let (mut run, _) = Run::start(options("m"));
        let action = run.step(event);
        assert_eq!(
            action,
            Action::Fail(Failure::with_detail(
                FailureKind::CredentialUnavailable,
                "unexpected reply"
            ))
        );
        assert_eq!(run.stage(), Stage::Finished);
    }
}

#[test]
fn event_that_does_not_answer_the_observation_request_is_a_fetch_failure() {
    let events = [
        Event::KeyResolved(String::from(KEY)),
        Event::KeyUnavailable(String::from("ApiKeyNotFound")),
    ];
    for event in events {
        let (mut run, _) = Run::start(options("m"));
        run.step(resolved());
        let action = run.step(event);
        assert_eq!(
            action,
            Action::Fail(Failure::with_detail(FailureKind::FetchFailed, "unexpected reply"))
        );
        assert_eq!(run.stage(), Stage::Finished);
    }
}

#[test]
fn finished_run_does_nothing() {
    let (mut run, _) = Run::start(options("m"));
    run.step(resolved());
    assert_eq!(run.step(Event::ObservationAbsent), Action::ReportAbsent);
    assert_eq!(run.step(resolved()), Action::Halt);
    assert_eq!(
        run.step(Event::ObservationReceived(String::from(METRIC_PAYLOAD))),
        Action::Halt
    );
    assert_eq!(run.step(Event::ObservationAbsent), Action::Halt);
    assert_eq!(run.stage(), Stage::Finished);
    assert_eq!(run.unit(), Unit::Metric);
    assert_eq!(run.station_id(), "KCASANFR70");
}

#[test]
fn conclusion_of_a_rendering() {
    assert_eq!(conclude(Ok(String::from("[]"))), Action::Print(String::from("[]")));
    assert_eq!(
        conclude(Err(Failure::with_detail(FailureKind::SerializationFailed, "nan"))),
        Action::Fail(Failure::with_detail(FailureKind::SerializationFailed, "nan"))
    );
    assert_eq!(
        conclude(Err(Failure::bare(FailureKind::ConversionFailed))),
        Action::Fail(Failure::bare(FailureKind::ConversionFailed))
    );
}
