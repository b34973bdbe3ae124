//! A whole scan in one call, with the probe as a parameter.

use vstd::prelude::*;
use crate::laws::{lemma_scan_progress, open_ports, run, scan_events};
use crate::report::{PortState, ScanReport};
use crate::request::ScanRequest;
use crate::scan::{pending_action, Scan, ScanAction, ScanEvent, ScanState};

verus! {

/// Whether `outcomes` is what `probe` may have returned for the ports from
/// `start_port` on, one after the other.
pub open spec fn probed_by<F: Fn(u16) -> PortState>(
    probe: F,
    start_port: int,
    outcomes: Seq<PortState>,
) -> bool {
    forall|i: int|
        0 <= i < outcomes.len() ==> probe.ensures(((start_port + i) as u16,), #[trigger] outcomes[i])
}

/// Scans the range of `request`: calls `probe` once for each port, from the
/// first to the last, and reports the ports for which it returned `Open`.
///
/// What a probe returns is for `probe` to say; whatever it returns, the
/// report holds the open ports in ascending order.
pub fn scan_ports<F: Fn(u16) -> PortState>(request: ScanRequest, probe: F) -> (report: ScanReport)
    requires
        forall|port: u16|
            request@.start_port <= port <= request@.end_port ==> #[trigger] probe.requires((port,)),
    ensures
        exists|outcomes: Seq<PortState>|
            {
                &&& outcomes.len() == request@.port_count()
                &&& probed_by(probe, request@.start_port, outcomes)
                &&& #[trigger] open_ports(request@.start_port, outcomes) == report.open_ports()
            },
        report.valid(),
{
    let ghost view = request@;
    proof {
        use_type_invariant(&request);
    }
    let next = Scan::new(request).step(ScanEvent::Start);
    let mut scan = next.0;
    let mut action = next.1;
    let ghost mut outcomes: Seq<PortState> = Seq::empty();
    proof {
        lemma_scan_progress(view, outcomes);
    }
    loop
        invariant
            view.valid(),
            scan.request_view() == view,
            outcomes.len() <= view.port_count(),
            scan.state() == run(view, ScanState::NotStarted, scan_events(outcomes)),
            action == pending_action(scan.state()),
            probed_by(probe, view.start_port, outcomes),
            forall|port: u16|
                view.start_port <= port <= view.end_port ==> #[trigger] probe.requires((port,)),
        ensures
            outcomes.len() == view.port_count(),
        decreases view.port_count() - outcomes.len(),
    {
        proof {
            lemma_scan_progress(view, outcomes);
        }
        match action {
            ScanAction::Probe(port) => {
                let outcome = probe(port);
                let next = scan.step(ScanEvent::Probed(outcome));
                proof {
                    let events = scan_events(outcomes.push(outcome));
                    assert(events.drop_last() =~= scan_events(outcomes));
                    outcomes = outcomes.push(outcome);
                }
                scan = next.0;
                action = next.1;
            },
            _ => {
                break ;
            },
        }
    }
    proof {
        lemma_scan_progress(view, outcomes);
    }
    match scan.into_report() {
        Some(report) => {
            proof {
                use_type_invariant(&report);
            }
            report
        },
        None => vstd::pervasive::unreached(),
    }
}

} // verus!
