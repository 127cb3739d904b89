use syncserver::metrics::{MetricValue, Metrics};
use syncserver::rejectua::{
    reject_user_agent, rejects_major, should_reject, verdict_for_major, UaVerdict,
};

#[test]
fn legacy_client_of_major_version_5_is_rejected() {
    assert!(should_reject(
        "Firefox-iOS-Sync/5.0b1 (iPhone; iPhone OS 13.2.2) (Fennec (synctesting))"
    ));
}

#[test]
fn client_of_major_version_20_is_not_rejected() {
    assert!(!should_reject(
        "Firefox-iOS-Sync/20.0b1 (iPhone; iPhone OS 13.2.2) (Fennec (synctesting))"
    ));
}

#[test]
fn versions_from_1_to_19_are_rejected() {
    for major in 1..20 {
        let ua = format!(
            "Firefox-iOS-Sync/{}.0b1 (iPhone; iPhone OS 13.2.2) (Fennec (synctesting))",
            major
        );
        assert!(should_reject(&ua), "{}", ua);
    }
    assert!(should_reject(
        "Firefox-iOS-Sync/18.0b1 (iPhone; iPhone OS 13.2.2) (Fennec (synctesting))"
    ));
    assert!(should_reject("Firefox-iOS-Sync/19.1.2b12345 (iPad; iPhone OS 12.0) ()"));
}

#[test]
fn other_clients_are_not_rejected() {
    for ua in [
        "Firefox-iOS-Sync/0.0b1 (iPhone; iPhone OS 13.2.2) (Fennec (synctesting))",
        "Firefox-iOS-Sync/dev (iPhone; iPhone OS 13.2.2) (Fennec (synctesting))",
        "Firefox-iOS-Sync/21.3b1 (iPhone; iPhone OS 13.2.2) (Fennec)",
        "Firefox-iOS-Sync/99999999999.0b1 (iPhone; iPhone OS 13.2.2) (Fennec)",
        "Firefox-iOS-Sync/5.0 (iPhone; iPhone OS 13.2.2) (Fennec)",
        "Firefox-iOS-Sync/5.0b1 (iPhone; Android 13.2.2) (Fennec)",
        " Firefox-iOS-Sync/5.0b1 (iPhone; iPhone OS 13.2.2) (Fennec)",
        "Mozilla/5.0 (Windows NT 10.0; Win64; x64; rv:72.0) Gecko/20100101 Firefox/72.0",
        "",
    ] {
        assert!(!should_reject(ua), "{:?}", ua);
    }
}

#[test]
fn major_versions_are_judged_as_numbers() {
    assert!(rejects_major(Some("5")));
    assert!(rejects_major(Some("19")));
    assert!(rejects_major(Some("1")));
    assert!(rejects_major(Some("007")));
    assert!(!rejects_major(Some("0")));
    assert!(!rejects_major(Some("20")));
    assert!(!rejects_major(Some("4294967296")));
    assert!(!rejects_major(Some("five")));
    assert!(!rejects_major(Some("")));
    assert!(!rejects_major(None));
}

#[test]
fn rejection_is_counted_once_and_answered_at_once() {
    let metrics = Metrics::noop();
    let verdict = reject_user_agent(
        Some("Firefox-iOS-Sync/5.0b1 (iPhone; iPhone OS 13.2.2) (Fennec (synctesting))"),
        &metrics,
    );
    match verdict {
        UaVerdict::Reject { status, body, metric } => {
            assert_eq!(status, 503);
            assert_eq!(body, "0");
            let sample = metric.expect("one sample");
            assert_eq!(sample.label, "error.rejectua");
            assert_eq!(sample.value, MetricValue::Count(1));
            assert!(sample.tags.is_empty());
        }
        UaVerdict::Pass => panic!("the client should be rejected"),
    }
}

#[test]
fn safe_client_and_missing_user_agent_pass() {
    let metrics = Metrics::noop();
    assert!(matches!(
        reject_user_agent(
            Some("Firefox-iOS-Sync/20.0b1 (iPhone; iPhone OS 13.2.2) (Fennec (synctesting))"),
            &metrics
        ),
        UaVerdict::Pass
    ));
    assert!(matches!(reject_user_agent(None, &metrics), UaVerdict::Pass));
}

#[test]
fn rejection_without_a_sink_is_still_a_rejection() {
    let metrics = Metrics { client: false, tags: None, timer: None };
    let verdict = reject_user_agent(
        Some("Firefox-iOS-Sync/5.0b1 (iPhone; iPhone OS 13.2.2) (Fennec (synctesting))"),
        &metrics,
    );
    assert!(matches!(verdict, UaVerdict::Reject { status: 503, body: "0", metric: None }));
}

#[test]
fn captured_major_version_5_is_rejected_and_counted_once() {
    let metrics = Metrics::noop();
    match verdict_for_major(Some("5"), &metrics) {
        UaVerdict::Reject { status, body, metric } => {
            assert_eq!(status, 503);
            assert_eq!(body, "0");
            let sample = metric.expect("one sample");
            assert_eq!(sample.label, "error.rejectua");
            assert_eq!(sample.value, MetricValue::Count(1));
        }
        UaVerdict::Pass => panic!("the client should be rejected"),
    }
}

#[test]
fn captured_major_version_20_passes_and_nothing_is_counted() {
    let metrics = Metrics::noop();
    assert!(matches!(verdict_for_major(Some("20"), &metrics), UaVerdict::Pass));
    assert!(matches!(verdict_for_major(Some("0"), &metrics), UaVerdict::Pass));
    assert!(matches!(verdict_for_major(None, &metrics), UaVerdict::Pass));
}
