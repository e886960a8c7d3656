use uptime_monitor::check::CheckOutcome;
use uptime_monitor::dispatch::{alerts_for_reports, should_notify, CheckReport};
use uptime_monitor::error::CustomError;
use uptime_monitor::notify::build_alert_payload;

#[test]
fn alert_payload_holds_url_and_message() {
    let payload = build_alert_payload("https://ok.example/", &CustomError::FindSelectorError);
    assert_eq!(
        payload,
        "{\"text\": \"https://ok.example/\nThe specified selector was not found.\"}"
    );
}

#[test]
fn alert_payload_for_each_failure_kind() {
    assert_eq!(
        build_alert_payload("https://s/", &CustomError::AccessUrlError),
        "{\"text\": \"https://s/\nThe specified URL could not be accessed.\"}"
    );
    assert_eq!(
        build_alert_payload("https://s/", &CustomError::CookieError),
        "{\"text\": \"https://s/\nAn invalid cookie was specified.\"}"
    );
    assert_eq!(
        build_alert_payload("https://s/", &CustomError::AccessUrlNotDefined),
        "{\"text\": \"https://s/\nThe access URL is not specified.\"}"
    );
    assert_eq!(
        build_alert_payload("https://s/", &CustomError::FindSelectorNotDefined),
        "{\"text\": \"https://s/\nThe selector to find is not specified.\"}"
    );
}

#[test]
fn error_messages_are_exact() {
    assert_eq!(CustomError::AccessUrlNotDefined.message(), "The access URL is not specified.");
    assert_eq!(
        CustomError::FindSelectorNotDefined.message(),
        "The selector to find is not specified."
    );
    assert_eq!(CustomError::AccessUrlError.message(), "The specified URL could not be accessed.");
    assert_eq!(CustomError::CookieError.message(), "An invalid cookie was specified.");
    assert_eq!(
        CustomError::FindSelectorError.message(),
        "The specified selector was not found."
    );
}

#[test]
fn should_notify_only_on_failures() {
    assert!(!should_notify(&CheckOutcome::Success));
    assert!(should_notify(&CheckOutcome::Failure(CustomError::AccessUrlError)));
    assert!(should_notify(&CheckOutcome::Failure(CustomError::CookieError)));
    assert!(should_notify(&CheckOutcome::Failure(CustomError::FindSelectorError)));
}

#[test]
fn dispatcher_alerts_on_every_failure_in_order() {
    let reports = vec![
        CheckReport {
            service_url: String::from("https://a.example/"),
            outcome: CheckOutcome::Success,
        },
        CheckReport {
            service_url: String::from("https://b.example/"),
            outcome: CheckOutcome::Failure(CustomError::FindSelectorError),
        },
        CheckReport {
            service_url: String::from("https://c.example/"),
            outcome: CheckOutcome::Failure(CustomError::AccessUrlError),
        },
        CheckReport {
            service_url: String::from("https://d.example/"),
            outcome: CheckOutcome::Success,
        },
    ];
    let alerts = alerts_for_reports(&reports);
    assert_eq!(
        alerts,
        vec![
            String::from(
                "{\"text\": \"https://b.example/\nThe specified selector was not found.\"}"
            ),
            String::from(
                "{\"text\": \"https://c.example/\nThe specified URL could not be accessed.\"}"
            ),
        ]
    );
}

#[test]
fn dispatcher_sends_nothing_when_all_checks_pass() {
    let reports = vec![
        CheckReport {
            service_url: String::from("https://a.example/"),
            outcome: CheckOutcome::Success,
        },
        CheckReport {
            service_url: String::from("https://b.example/"),
            outcome: CheckOutcome::Success,
        },
    ];
    let alerts = alerts_for_reports(&reports);
    assert!(alerts.is_empty());
}

#[test]
fn dispatcher_alert_carries_the_failing_service_url() {
    let reports = vec![CheckReport {
        service_url: String::from("https://cookie.example/"),
        outcome: CheckOutcome::Failure(CustomError::CookieError),
    }];
    let alerts = alerts_for_reports(&reports);
    assert_eq!(alerts.len(), 1);
    assert!(alerts[0].contains("https://cookie.example/"));
    assert_eq!(
        alerts[0],
        "{\"text\": \"https://cookie.example/\nAn invalid cookie was specified.\"}"
    );
}
