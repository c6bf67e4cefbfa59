use p4rti::config::ScanConfig;
use p4rti::engine::{start_scan, ScanSession};
use p4rti::model::ScanAction;
use p4rti::port_set::PortSelector;
use p4rti::ports::MOST_COMMON_PORTS_1002;
use p4rti::probe::{ConnectAttempt, PortOutcome, PortResult, ProbeRequest};
use p4rti::resolve::{IpAddress, ResolutionError, ResolvedTarget};

const LOOPBACK: IpAddress = IpAddress::V4(0x7f00_0001);

fn session(concurrency: usize, timeout_secs: u64, selector: PortSelector) -> ScanSession {
    let config = ScanConfig::new("127.0.0.1".to_string(), concurrency, timeout_secs, selector)
        .unwrap();
    ScanSession::new(ResolvedTarget { address: LOOPBACK }, &config)
}

/// Runs a scan to its end against a host that accepts on `listening` and
/// refuses everywhere else. The probe that ends is the one picked by `pick`
/// from the probes in flight. Returns the results in delivery order and the
/// largest number of probes that were in flight at once.
fn run(
    scan: &mut ScanSession,
    listening: &[u16],
    pick: fn(usize, usize) -> usize,
) -> (Vec<PortResult>, usize) {
    let mut in_flight: Vec<u16> = Vec::new();
    let mut results = Vec::new();
    let mut peak = 0;
    let mut turn = 0;
    loop {
        match scan.next_action() {
            ScanAction::Probe(request) => {
                in_flight.push(request.port);
                assert_eq!(scan.in_flight_count(), in_flight.len());
                if in_flight.len() > peak {
                    peak = in_flight.len();
                }
            }
            ScanAction::Wait => {
                assert!(!in_flight.is_empty());
                let port = in_flight.swap_remove(pick(turn, in_flight.len()));
                turn += 1;
                let attempt = if listening.contains(&port) {
                    ConnectAttempt::Established
                } else {
                    ConnectAttempt::Failed
                };
                let result = scan.complete(port, attempt).unwrap();
                assert_eq!(result.port, port);
                results.push(result);
            }
            ScanAction::Finished => break,
        }
    }
    assert!(in_flight.is_empty());
    (results, peak)
}

fn oldest(_turn: usize, _len: usize) -> usize {
    0
}

fn newest(_turn: usize, len: usize) -> usize {
    len - 1
}

fn scattered(turn: usize, len: usize) -> usize {
    (turn * 7919 + 13) % len
}

fn sorted_ports(results: &[PortResult]) -> Vec<u16> {
    let mut ports: Vec<u16> = results.iter().map(|result| result.port).collect();
    ports.sort();
    ports
}

#[test]
fn a_common_scan_delivers_each_of_the_1002_ports_once() {
    let mut scan = session(50, 1, PortSelector::Common);
    let (results, _) = run(&mut scan, &[], scattered);
    assert_eq!(results.len(), 1002);
    assert_eq!(sorted_ports(&results), MOST_COMMON_PORTS_1002.to_vec());
    assert_eq!(scan.delivered(), &results);
    assert!(scan.is_finished());
}

#[test]
fn a_full_scan_delivers_each_of_the_65535_ports_once() {
    let mut scan = session(1002, 3, PortSelector::Full);
    let (results, _) = run(&mut scan, &[], oldest);
    assert_eq!(results.len(), 65535);
    let expected: Vec<u16> = (1..=u16::MAX).collect();
    assert_eq!(sorted_ports(&results), expected);
    assert!(scan.is_finished());
}

#[test]
fn the_window_never_exceeds_the_concurrency() {
    for concurrency in [1usize, 2, 3, 50, 1001, 1002] {
        let mut scan = session(concurrency, 1, PortSelector::Common);
        let (results, peak) = run(&mut scan, &[], scattered);
        assert_eq!(peak, concurrency);
        assert_eq!(results.len(), 1002);
    }
}

#[test]
fn a_window_wider_than_the_port_set_holds_every_port() {
    let mut scan = session(70000, 1, PortSelector::Common);
    let (results, peak) = run(&mut scan, &[], newest);
    assert_eq!(peak, 1002);
    assert_eq!(results.len(), 1002);
}

#[test]
fn a_concurrency_of_one_probes_one_port_at_a_time_in_order() {
    let mut scan = session(1, 1, PortSelector::Common);
    let (results, peak) = run(&mut scan, &[], oldest);
    assert_eq!(peak, 1);
    let ports: Vec<u16> = results.iter().map(|result| result.port).collect();
    assert_eq!(ports, MOST_COMMON_PORTS_1002.to_vec());
}

#[test]
fn probes_start_in_port_set_order_with_address_and_timeout() {
    let mut scan = session(3, 9, PortSelector::Full);
    for port in 1..=3u16 {
        assert_eq!(
            scan.next_action(),
            ScanAction::Probe(ProbeRequest { address: LOOPBACK, port, timeout_secs: 9 })
        );
    }
    assert_eq!(scan.next_action(), ScanAction::Wait);
    assert_eq!(scan.next_action(), ScanAction::Wait);
    assert_eq!(scan.in_flight_count(), 3);
}

#[test]
fn a_slot_that_frees_is_filled_at_once() {
    let mut scan = session(3, 1, PortSelector::Full);
    for _ in 0..3 {
        assert!(matches!(scan.next_action(), ScanAction::Probe(_)));
    }
    assert_eq!(scan.next_action(), ScanAction::Wait);
    assert_eq!(
        scan.complete(2, ConnectAttempt::Failed),
        Some(PortResult { port: 2, outcome: PortOutcome::NotOpen })
    );
    assert_eq!(scan.in_flight_count(), 2);
    assert_eq!(
        scan.next_action(),
        ScanAction::Probe(ProbeRequest { address: LOOPBACK, port: 4, timeout_secs: 1 })
    );
    assert_eq!(scan.next_action(), ScanAction::Wait);
    assert_eq!(scan.in_flight_count(), 3);
}

#[test]
fn results_are_delivered_in_completion_order() {
    let mut scan = session(4, 1, PortSelector::Full);
    for _ in 0..4 {
        assert!(matches!(scan.next_action(), ScanAction::Probe(_)));
    }
    assert!(scan.complete(3, ConnectAttempt::Established).is_some());
    assert!(scan.complete(1, ConnectAttempt::DeadlineElapsed).is_some());
    assert!(scan.complete(4, ConnectAttempt::Failed).is_some());
    assert_eq!(
        scan.delivered(),
        &vec![
            PortResult { port: 3, outcome: PortOutcome::Open },
            PortResult { port: 1, outcome: PortOutcome::NotOpen },
            PortResult { port: 4, outcome: PortOutcome::NotOpen },
        ]
    );
    assert_eq!(scan.in_flight_count(), 1);
}

#[test]
fn a_port_that_is_not_in_flight_is_refused() {
    let mut scan = session(2, 1, PortSelector::Full);
    assert_eq!(scan.complete(1, ConnectAttempt::Established), None);
    assert!(matches!(scan.next_action(), ScanAction::Probe(_)));
    assert!(matches!(scan.next_action(), ScanAction::Probe(_)));
    assert_eq!(scan.complete(3, ConnectAttempt::Established), None);
    assert_eq!(scan.complete(0, ConnectAttempt::Established), None);
    assert_eq!(scan.in_flight_count(), 2);
    assert!(scan.delivered().is_empty());
    assert_eq!(
        scan.complete(1, ConnectAttempt::Established),
        Some(PortResult { port: 1, outcome: PortOutcome::Open })
    );
    assert_eq!(scan.complete(1, ConnectAttempt::Established), None);
    assert_eq!(scan.delivered().len(), 1);
    assert_eq!(scan.in_flight_count(), 1);
}

#[test]
fn a_scan_is_finished_only_when_every_port_has_a_result() {
    let mut scan = session(1002, 1, PortSelector::Common);
    assert!(!scan.is_finished());
    let mut started = Vec::new();
    loop {
        match scan.next_action() {
            ScanAction::Probe(request) => started.push(request.port),
            ScanAction::Wait => break,
            ScanAction::Finished => panic!("finished with probes in flight"),
        }
    }
    assert_eq!(started, MOST_COMMON_PORTS_1002.to_vec());
    for (index, port) in started.iter().enumerate() {
        assert!(!scan.is_finished());
        assert_eq!(scan.next_action(), ScanAction::Wait);
        assert!(scan.complete(*port, ConnectAttempt::Failed).is_some());
        assert_eq!(scan.delivered().len(), index + 1);
    }
    assert!(scan.is_finished());
    assert_eq!(scan.next_action(), ScanAction::Finished);
    assert_eq!(scan.next_action(), ScanAction::Finished);
    assert_eq!(scan.delivered().len(), 1002);
}

#[test]
fn loopback_with_a_listener_on_22_reports_exactly_that_port_open() {
    let config = ScanConfig::new("127.0.0.1".to_string(), 50, 1, PortSelector::Common).unwrap();
    let mut scan = start_scan(&config, Some(vec![LOOPBACK])).ok().unwrap();
    let (results, peak) = run(&mut scan, &[22], scattered);
    assert!(peak <= 50);
    assert_eq!(results.len(), 1002);
    let open: Vec<u16> =
        results.iter().filter(|result| result.is_open()).map(|result| result.port).collect();
    assert_eq!(open, vec![22]);
    for result in results.iter() {
        if result.port != 22 {
            assert_eq!(result.outcome, PortOutcome::NotOpen);
        }
    }
    assert_eq!(sorted_ports(&results), MOST_COMMON_PORTS_1002.to_vec());
    let lines: Vec<String> = results.iter().filter_map(|result| result.report_line()).collect();
    assert_eq!(lines, vec!["22: open".to_string()]);
}

#[test]
fn a_failed_lookup_starts_no_scan() {
    let config = ScanConfig::from_flags("no-such-host.invalid".to_string(), None, None, false);
    assert_eq!(start_scan(&config, None).err(), Some(ResolutionError::LookupFailed));
}

#[test]
fn an_empty_answer_starts_no_scan() {
    let config = ScanConfig::from_flags("no-such-host.invalid".to_string(), None, None, false);
    assert_eq!(start_scan(&config, Some(Vec::new())).err(), Some(ResolutionError::NoAddresses));
}

#[test]
fn a_scan_probes_the_first_address_of_the_answer() {
    let config = ScanConfig::from_flags("example.org".to_string(), Some(1), Some(2), true);
    let answer = vec![IpAddress::V6(0x2001_0db8 << 96), LOOPBACK];
    let mut scan = start_scan(&config, Some(answer)).ok().unwrap();
    assert_eq!(
        scan.next_action(),
        ScanAction::Probe(ProbeRequest {
            address: IpAddress::V6(0x2001_0db8 << 96),
            port: 1,
            timeout_secs: 2,
        })
    );
}
