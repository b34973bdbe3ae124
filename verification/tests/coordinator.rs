use std::cell::RefCell;

use port_scanner::{
    scan_ports, PortProbeResult, PortState, Scan, ScanAction, ScanEvent, ScanRequest,
};

fn listening_on(ports: &'static [u16]) -> impl Fn(u16) -> PortState {
    move |port| if ports.contains(&port) { PortState::Open } else { PortState::Closed }
}

#[test]
fn nothing_listening_reports_no_open_ports() {
    let request = ScanRequest::new("127.0.0.1", 1, 1024).unwrap();
    let report = scan_ports(request, listening_on(&[]));
    assert_eq!(report.body(), "No open ports were found.");
    assert!(report.results().is_empty());
}

#[test]
fn a_listener_on_port_80_is_the_only_line() {
    let request = ScanRequest::new("127.0.0.1", 1, 1024).unwrap();
    let report = scan_ports(request, listening_on(&[80]));
    assert_eq!(report.body(), "Port 80 is open");
    assert_eq!(report.results(), &vec![PortProbeResult { port: 80, state: PortState::Open }]);
}

#[test]
fn listeners_on_ports_22_and_443_come_in_order() {
    let request = ScanRequest::new("127.0.0.1", 1, 1024).unwrap();
    let report = scan_ports(request, listening_on(&[443, 22]));
    let lines: Vec<&str> = report.body().lines().collect();
    assert_eq!(lines, vec!["Port 22 is open", "Port 443 is open"]);
    assert_eq!(report.body(), "Port 22 is open\nPort 443 is open");
}

#[test]
fn a_malformed_start_port_starts_the_scan_at_port_one() {
    let probed = RefCell::new(Vec::new());
    let request = ScanRequest::from_text("127.0.0.1", "abc", "3").unwrap();
    let report = scan_ports(request, |port| {
        probed.borrow_mut().push(port);
        PortState::Open
    });
    assert_eq!(probed.into_inner(), vec![1, 2, 3]);
    assert_eq!(report.body(), "Port 1 is open\nPort 2 is open\nPort 3 is open");
}

#[test]
fn probes_each_port_once_from_first_to_last() {
    let probed = RefCell::new(Vec::new());
    let request = ScanRequest::new("127.0.0.1", 8000, 8010).unwrap();
    let report = scan_ports(request, |port| {
        probed.borrow_mut().push(port);
        PortState::Closed
    });
    assert_eq!(
        probed.into_inner(),
        vec![8000, 8001, 8002, 8003, 8004, 8005, 8006, 8007, 8008, 8009, 8010]
    );
    assert_eq!(report.body(), "No open ports were found.");
}

#[test]
fn probes_exactly_one_port_where_the_range_is_port_one() {
    let probed = RefCell::new(Vec::new());
    let request = ScanRequest::new("127.0.0.1", 1, 1).unwrap();
    let report = scan_ports(request, |port| {
        probed.borrow_mut().push(port);
        PortState::Open
    });
    assert_eq!(probed.into_inner(), vec![1]);
    assert_eq!(report.body(), "Port 1 is open");
    assert_eq!(report.open_count(), 1);
}

#[test]
fn probes_all_65535_ports_and_stops() {
    let probed = RefCell::new(Vec::new());
    let request = ScanRequest::new("127.0.0.1", 1, 65535).unwrap();
    let report = scan_ports(request, |port| {
        probed.borrow_mut().push(port);
        if port == 1 || port == 65535 { PortState::Open } else { PortState::Closed }
    });
    let probed = probed.into_inner();
    let expected: Vec<u16> = (1..=65535).collect();
    assert_eq!(probed, expected);
    assert_eq!(report.body(), "Port 1 is open\nPort 65535 is open");
}

#[test]
fn every_port_open_gives_one_line_for_each() {
    let request = ScanRequest::new("127.0.0.1", 9, 12).unwrap();
    let report = scan_ports(request, |_| PortState::Open);
    assert_eq!(
        report.body(),
        "Port 9 is open\nPort 10 is open\nPort 11 is open\nPort 12 is open"
    );
    assert_eq!(report.open_count(), 4);
}

#[test]
fn two_scans_of_an_unchanged_target_agree() {
    let first = scan_ports(ScanRequest::new("10.0.0.1", 1, 1024).unwrap(), listening_on(&[]));
    let second = scan_ports(ScanRequest::new("10.0.0.1", 1, 1024).unwrap(), listening_on(&[]));
    assert_eq!(first.body(), second.body());
    assert_eq!(first.results(), second.results());
    let first = scan_ports(ScanRequest::new("10.0.0.1", 1, 1024).unwrap(), listening_on(&[25, 993]));
    let second = scan_ports(ScanRequest::new("10.0.0.1", 1, 1024).unwrap(), listening_on(&[25, 993]));
    assert_eq!(first.body(), second.body());
    assert_eq!(first.results(), second.results());
}

#[test]
fn agrees_with_a_scan_driven_step_by_step() {
    let probe = listening_on(&[3, 5]);
    let whole = scan_ports(ScanRequest::new("10.0.0.1", 2, 6).unwrap(), &probe);
    let (mut scan, mut action) =
        Scan::new(ScanRequest::new("10.0.0.1", 2, 6).unwrap()).step(ScanEvent::Start);
    while let ScanAction::Probe(port) = action {
        (scan, action) = scan.step(ScanEvent::Probed(probe(port)));
    }
    let stepped = scan.into_report().unwrap();
    assert_eq!(whole.body(), stepped.body());
    assert_eq!(whole.results(), stepped.results());
    assert_eq!(whole.body(), "Port 3 is open\nPort 5 is open");
}
