use p4rti::probe::{
    classify, decimal_text, port_label, ConnectAttempt, PortOutcome, PortResult,
};

#[test]
fn an_established_connection_is_open() {
    assert_eq!(classify(ConnectAttempt::Established), PortOutcome::Open);
}

#[test]
fn a_refused_connection_is_not_open() {
    assert_eq!(classify(ConnectAttempt::Failed), PortOutcome::NotOpen);
}

#[test]
fn an_elapsed_deadline_is_not_open() {
    assert_eq!(classify(ConnectAttempt::DeadlineElapsed), PortOutcome::NotOpen);
}

#[test]
fn a_result_keeps_its_port_and_classification() {
    assert_eq!(
        PortResult::from_attempt(22, ConnectAttempt::Established),
        PortResult { port: 22, outcome: PortOutcome::Open }
    );
    assert_eq!(
        PortResult::from_attempt(23, ConnectAttempt::Failed),
        PortResult { port: 23, outcome: PortOutcome::NotOpen }
    );
    assert_eq!(
        PortResult::from_attempt(65535, ConnectAttempt::DeadlineElapsed),
        PortResult { port: 65535, outcome: PortOutcome::NotOpen }
    );
    assert!(PortResult::from_attempt(22, ConnectAttempt::Established).is_open());
    assert!(!PortResult::from_attempt(22, ConnectAttempt::Failed).is_open());
    assert!(!PortResult::from_attempt(22, ConnectAttempt::DeadlineElapsed).is_open());
}

#[test]
fn decimal_text_writes_numerals_without_leading_zeros() {
    assert_eq!(decimal_text(0), "0");
    assert_eq!(decimal_text(7), "7");
    assert_eq!(decimal_text(9), "9");
    assert_eq!(decimal_text(10), "10");
    assert_eq!(decimal_text(22), "22");
    assert_eq!(decimal_text(100), "100");
    assert_eq!(decimal_text(443), "443");
    assert_eq!(decimal_text(1002), "1002");
    assert_eq!(decimal_text(8080), "8080");
    assert_eq!(decimal_text(60000), "60000");
    assert_eq!(decimal_text(65535), "65535");
}

#[test]
fn decimal_text_agrees_with_the_standard_formatting() {
    for n in 0..=u16::MAX {
        assert_eq!(decimal_text(n), format!("{}", n));
    }
}

#[test]
fn port_label_is_numeral_and_colon() {
    assert_eq!(port_label(22), "22:");
    assert_eq!(port_label(1), "1:");
    assert_eq!(port_label(65535), "65535:");
}

#[test]
fn an_open_port_is_reported_on_one_line() {
    let result = PortResult { port: 22, outcome: PortOutcome::Open };
    assert_eq!(result.report_line(), Some("22: open".to_string()));
    let high = PortResult { port: 49152, outcome: PortOutcome::Open };
    assert_eq!(high.report_line(), Some("49152: open".to_string()));
}

#[test]
fn a_port_that_is_not_open_is_not_reported() {
    let result = PortResult { port: 22, outcome: PortOutcome::NotOpen };
    assert_eq!(result.report_line(), None);
}
