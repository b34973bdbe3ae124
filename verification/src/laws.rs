//! What holds of every scan: which report it ends in, and in what order.

use vstd::prelude::*;
use crate::report::{report_body, strictly_ascending, PortState};
use crate::request::RequestView;
use crate::scan::{next_state, ScanEvent, ScanState};

verus! {

/// The open ports of a range that starts at `start_port`, where
/// `outcomes[i]` is what the probe of port `start_port + i` found.
pub open spec fn open_ports(start_port: int, outcomes: Seq<PortState>) -> Seq<int>
    decreases outcomes.len(),
{
    if outcomes.len() == 0 {
        Seq::empty()
    } else {
        let earlier = open_ports(start_port, outcomes.drop_last());
        if outcomes.last() == PortState::Open {
            earlier.push(start_port + outcomes.len() - 1)
        } else {
            earlier
        }
    }
}

/// The state that `events`, taken in order, lead to from `state`.
pub open spec fn run(request: RequestView, state: ScanState, events: Seq<ScanEvent>) -> ScanState
    decreases events.len(),
{
    if events.len() == 0 {
        state
    } else {
        next_state(request, run(request, state, events.drop_last()), events.last())
    }
}

/// The events of a scan whose probes find `outcomes`: a start, then one
/// outcome after the other.
pub open spec fn scan_events(outcomes: Seq<PortState>) -> Seq<ScanEvent> {
    Seq::new(
        outcomes.len() + 1,
        |i: int|
            if i == 0 {
                ScanEvent::Start
            } else {
                ScanEvent::Probed(outcomes[i - 1])
            },
    )
}

/// After a start and the outcomes of its first probes a scan is probing the
/// port that follows them, and has found the open ports among those probed.
/// After one outcome for each port of the range, and not before, it is done,
/// and its report holds the open ports of the range.
pub proof fn lemma_scan_progress(request: RequestView, outcomes: Seq<PortState>)
    requires
        request.valid(),
        outcomes.len() <= request.port_count(),
    ensures
        run(request, ScanState::NotStarted, scan_events(outcomes)) == (if outcomes.len()
            < request.port_count() {
            ScanState::Scanning {
                current_port: request.start_port + outcomes.len(),
                found: open_ports(request.start_port, outcomes),
            }
        } else {
            ScanState::Done { open_ports: open_ports(request.start_port, outcomes) }
        }),
    decreases outcomes.len(),
{
    let events = scan_events(outcomes);
    if outcomes.len() == 0 {
        assert(run(request, ScanState::NotStarted, events.drop_last()) == ScanState::NotStarted);
    } else {
        lemma_scan_progress(request, outcomes.drop_last());
        assert(events.drop_last() =~= scan_events(outcomes.drop_last()));
    }
}

/// The open ports of a range are reported in ascending order, each once: a
/// port stands in the report exactly if it lies in the range and its probe
/// found it open, and it stands before every greater one.
pub proof fn lemma_open_ports_in_order(start_port: int, outcomes: Seq<PortState>)
    requires
        1 <= start_port,
        start_port + outcomes.len() - 1 <= 65535,
    ensures
        strictly_ascending(open_ports(start_port, outcomes)),
        forall|port: int|
            open_ports(start_port, outcomes).contains(port) <==> (start_port <= port < start_port
                + outcomes.len() && outcomes[port - start_port] == PortState::Open),
    decreases outcomes.len(),
{
    let ports = open_ports(start_port, outcomes);
    if outcomes.len() > 0 {
        let earlier = open_ports(start_port, outcomes.drop_last());
        let last_port = start_port + outcomes.len() - 1;
        lemma_open_ports_in_order(start_port, outcomes.drop_last());
        assert forall|i: int| 0 <= i < earlier.len() implies start_port <= #[trigger] earlier[i]
            < last_port by {
            assert(earlier.contains(earlier[i]));
        }
        assert forall|port: int|
            ports.contains(port) <==> (start_port <= port < start_port + outcomes.len()
                && outcomes[port - start_port] == PortState::Open) by {
            if outcomes.last() == PortState::Open {
                assert(ports[earlier.len() as int] == last_port);
                if earlier.contains(port) {
                    let i = choose|i: int| 0 <= i < earlier.len() && earlier[i] == port;
                    assert(ports[i] == port);
                }
            }
        }
    }
}

/// A scan's report depends on the range and on what the probes find there,
/// and on nothing else: two scans of one range whose probes agree port by
/// port end with the same report, whatever was scanned before and whatever
/// the target is called.
pub proof fn lemma_same_outcomes_same_report(
    first_request: RequestView,
    second_request: RequestView,
    first: Seq<PortState>,
    second: Seq<PortState>,
)
    requires
        first_request.valid(),
        second_request.valid(),
        first_request.start_port == second_request.start_port,
        first_request.end_port == second_request.end_port,
        first.len() == first_request.port_count(),
        second.len() == second_request.port_count(),
        forall|i: int| 0 <= i < first.len() ==> first[i] == second[i],
    ensures
        run(first_request, ScanState::NotStarted, scan_events(first)) is Done,
        run(first_request, ScanState::NotStarted, scan_events(first)) == run(
            second_request,
            ScanState::NotStarted,
            scan_events(second),
        ),
{
    assert(first =~= second);
    lemma_scan_progress(first_request, first);
    lemma_scan_progress(second_request, second);
}

/// Where every probe finds its port closed, no port is reported, and the
/// report is the message that says so.
pub proof fn lemma_all_closed_report(start_port: int, outcomes: Seq<PortState>)
    requires
        forall|i: int| 0 <= i < outcomes.len() ==> outcomes[i] == PortState::Closed,
    ensures
        open_ports(start_port, outcomes).len() == 0,
        report_body(open_ports(start_port, outcomes)) == "No open ports were found."@,
    decreases outcomes.len(),
{
    if outcomes.len() > 0 {
        lemma_all_closed_report(start_port, outcomes.drop_last());
    }
}

} // verus!
