//! The course of one scan, as a state machine.
//!
//! A scan probes the ports of its range one at a time, in ascending order.
//! The machine does not touch the network: it says which port is to be
//! probed, and a driver reports what the probe found.

use vstd::prelude::*;
use crate::report::{all_open, ports_of, strictly_ascending, PortProbeResult, PortState, ScanReport};
use crate::request::{RequestView, ScanRequest};

verus! {

/// Where a scan stands.
pub ghost enum ScanState {
    /// No port has been probed.
    NotStarted,
    /// The ports below `current_port` have been probed and `found` are the
    /// open ones among them; `current_port` is being probed.
    Scanning { current_port: int, found: Seq<int> },
    /// Every port of the range has been probed.
    Done { open_ports: Seq<int> },
}

/// What a driver tells the machine.
#[derive(Clone, Copy, PartialEq, Eq, Structural, Debug)]
pub enum ScanEvent {
    /// The scan is to begin.
    Start,
    /// The probe of the current port has ended in this state.
    Probed(PortState),
}

/// What the machine asks of its driver.
#[derive(Clone, Copy, PartialEq, Eq, Structural, Debug)]
pub enum ScanAction {
    /// Nothing before the scan is started.
    AwaitStart,
    /// Probe this port and report its state.
    Probe(u16),
    /// The scan is over: take the report.
    Deliver,
}

/// The state that follows `state` on `event`.
///
/// A start begins the scan at the first port of the range. The outcome of a
/// probe is recorded and the scan moves to the next port, or ends after the
/// last one. An event that does not fit the state changes nothing.
pub open spec fn next_state(request: RequestView, state: ScanState, event: ScanEvent) -> ScanState {
    match (state, event) {
        (ScanState::NotStarted, ScanEvent::Start) => ScanState::Scanning {
            current_port: request.start_port,
            found: Seq::empty(),
        },
        (ScanState::Scanning { current_port, found }, ScanEvent::Probed(outcome)) => {
            let found = if outcome == PortState::Open {
                found.push(current_port)
            } else {
                found
            };
            if current_port < request.end_port {
                ScanState::Scanning { current_port: current_port + 1, found }
            } else {
                ScanState::Done { open_ports: found }
            }
        },
        _ => state,
    }
}

/// What a scan in `state` asks of its driver.
pub open spec fn pending_action(state: ScanState) -> ScanAction {
    match state {
        ScanState::NotStarted => ScanAction::AwaitStart,
        ScanState::Scanning { current_port, found } => ScanAction::Probe(current_port as u16),
        ScanState::Done { open_ports } => ScanAction::Deliver,
    }
}

/// Whether `state` can occur in a scan of `request`: the port being probed
/// lies in the range, and the open ports found are port numbers in
/// ascending order, all below the port being probed.
pub open spec fn state_fits(request: RequestView, state: ScanState) -> bool {
    match state {
        ScanState::NotStarted => true,
        ScanState::Scanning { current_port, found } => {
            &&& request.start_port <= current_port <= request.end_port
            &&& strictly_ascending(found)
            &&& forall|i: int| 0 <= i < found.len() ==> #[trigger] found[i] < current_port
        },
        ScanState::Done { open_ports } => strictly_ascending(open_ports),
    }
}

/// No event leads a scan out of the states that can occur in it.
pub proof fn lemma_step_keeps_fit(request: RequestView, state: ScanState, event: ScanEvent)
    requires
        request.valid(),
        state_fits(request, state),
    ensures
        state_fits(request, next_state(request, state, event)),
{
}

#[derive(Debug)]
enum Progress {
    NotStarted,
    Scanning { current_port: u16, found: Vec<PortProbeResult> },
    Done { report: ScanReport },
}

/// One scan: its request and how far it has come.
#[derive(Debug)]
pub struct Scan {
    request: ScanRequest,
    progress: Progress,
}

impl Scan {
    /// What holds of every scan: its request is valid, its state can occur
    /// in a scan of that request, and what it has found are open ports.
    #[verifier::type_invariant]
    pub open spec fn well_formed(&self) -> bool {
        &&& self.request_view().valid()
        &&& state_fits(self.request_view(), self.state())
        &&& self.found_open()
    }

    /// Whether every result gathered so far says that its port is open.
    pub closed spec fn found_open(&self) -> bool {
        match self.progress {
            Progress::Scanning { current_port, found } => all_open(found@),
            _ => true,
        }
    }

    /// The request that this scan serves.
    pub closed spec fn request_view(&self) -> RequestView {
        self.request@
    }

    /// Where this scan stands.
    pub closed spec fn state(&self) -> ScanState {
        match self.progress {
            Progress::NotStarted => ScanState::NotStarted,
            Progress::Scanning { current_port, found } => ScanState::Scanning {
                current_port: current_port as int,
                found: ports_of(found@),
            },
            Progress::Done { report } => ScanState::Done { open_ports: report.open_ports() },
        }
    }

    /// A scan of `request` that has not started.
    pub fn new(request: ScanRequest) -> (scan: Scan)
        ensures
            scan.request_view() == request@,
            scan.state() == ScanState::NotStarted,
    {
        proof {
            use_type_invariant(&request);
        }
        Scan { request, progress: Progress::NotStarted }
    }

    /// The request that this scan serves.
    pub fn request(&self) -> (request: &ScanRequest)
        ensures
            request@ == self.request_view(),
            request@.valid(),
    {
        proof {
            use_type_invariant(self);
        }
        &self.request
    }

    /// What this scan asks of its driver now.
    pub fn action(&self) -> (action: ScanAction)
        ensures
            action == pending_action(self.state()),
            state_fits(self.request_view(), self.state()),
    {
        proof {
            use_type_invariant(self);
        }
        match &self.progress {
            Progress::NotStarted => ScanAction::AwaitStart,
            Progress::Scanning { current_port, found } => ScanAction::Probe(*current_port),
            Progress::Done { report } => ScanAction::Deliver,
        }
    }

    /// Takes `event` and returns the scan in the state that follows, with
    /// what it asks of its driver there.
    pub fn step(self, event: ScanEvent) -> (next: (Scan, ScanAction))
        ensures
            next.0.request_view() == self.request_view(),
            next.0.state() == next_state(self.request_view(), self.state(), event),
            next.1 == pending_action(next.0.state()),
            state_fits(next.0.request_view(), next.0.state()),
    {
        proof {
            use_type_invariant(&self);
        }
        let Scan { request, progress } = self;
        let start_port = request.start_port();
        let end_port = request.end_port();
        let progress = match (progress, event) {
            (Progress::NotStarted, ScanEvent::Start) => {
                let found: Vec<PortProbeResult> = Vec::new();
                assert(ports_of(found@) =~= Seq::<int>::empty());
                Progress::Scanning { current_port: start_port, found }
            },
            (Progress::Scanning { current_port, found }, ScanEvent::Probed(outcome)) => {
                let mut found = found;
                let ghost before = found@;
                match outcome {
                    PortState::Open => {
                        found.push(PortProbeResult { port: current_port, state: PortState::Open });
                        assert(ports_of(found@) =~= ports_of(before).push(current_port as int));
                    },
                    PortState::Closed => {},
                }
                if current_port < end_port {
                    Progress::Scanning { current_port: current_port + 1, found }
                } else {
                    Progress::Done { report: ScanReport::assemble(found) }
                }
            },
            (progress, _) => progress,
        };
        let next = Scan { request, progress };
        let action = next.action();
        (next, action)
    }

    /// The report, once the scan is over.
    pub fn into_report(self) -> (report: Option<ScanReport>)
        ensures
            match report {
                Some(report) => {
                    &&& self.state() == (ScanState::Done { open_ports: report.open_ports() })
                    &&& report.valid()
                },
                None => !(self.state() is Done),
            },
    {
        proof {
            use_type_invariant(&self);
        }
        match self.progress {
            Progress::Done { report } => {
                proof {
                    use_type_invariant(&report);
                }
                Some(report)
            },
            _ => None,
        }
    }
}

} // verus!
