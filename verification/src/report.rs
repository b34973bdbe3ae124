//! What a scan produces: one result per open port, and the text shown for them.

use vstd::prelude::*;
use vstd::string::*;
use crate::decimal::{decimal, push_decimal};

verus! {

/// Whether a connection to a port could be established.
///
/// `Closed` stands for every failure alike: a refused or timed-out
/// connection, an unreachable host, an address that does not resolve.
#[derive(Clone, Copy, PartialEq, Eq, Structural, Debug)]
pub enum PortState {
    Open,
    Closed,
}

impl PortState {
    /// The state of a port after an attempt to connect to it: open where the
    /// connection was established, closed where the attempt failed, whatever
    /// the reason.
    pub fn from_connected(connected: bool) -> (state: PortState)
        ensures
            state == (if connected {
                PortState::Open
            } else {
                PortState::Closed
            }),
    {
        if connected {
            PortState::Open
        } else {
            PortState::Closed
        }
    }
}

/// The outcome of probing one port.
#[derive(Clone, Copy, PartialEq, Eq, Structural, Debug)]
pub struct PortProbeResult {
    pub port: u16,
    pub state: PortState,
}

/// The line that reports `port` as open.
pub open spec fn port_line(port: int) -> Seq<char> {
    "Port "@ + decimal(port as nat) + " is open"@
}

/// The lines of `ports`, in order, with a newline between each two.
pub open spec fn joined_lines(ports: Seq<int>) -> Seq<char>
    decreases ports.len(),
{
    if ports.len() == 0 {
        Seq::empty()
    } else if ports.len() == 1 {
        port_line(ports[0])
    } else {
        joined_lines(ports.drop_last()) + seq!['\n'] + port_line(ports.last())
    }
}

/// The text of a report on the open ports `ports`: one line for each, or a
/// single message where there is none.
pub open spec fn report_body(ports: Seq<int>) -> Seq<char> {
    if ports.len() == 0 {
        "No open ports were found."@
    } else {
        joined_lines(ports)
    }
}

/// Whether each port is a port number and smaller than the one after it.
pub open spec fn strictly_ascending(ports: Seq<int>) -> bool {
    &&& forall|i: int| 0 <= i < ports.len() ==> 1 <= #[trigger] ports[i] <= 65535
    &&& forall|i: int, j: int| 0 <= i < j < ports.len() ==> ports[i] < ports[j]
}

/// The port numbers of a sequence of results.
pub open spec fn ports_of(results: Seq<PortProbeResult>) -> Seq<int> {
    Seq::new(results.len(), |i: int| results[i].port as int)
}

/// Whether every result says that its port is open.
pub open spec fn all_open(results: Seq<PortProbeResult>) -> bool {
    forall|i: int| 0 <= i < results.len() ==> (#[trigger] results[i]).state == PortState::Open
}

/// Writes the text of a report on `results`.
pub fn render_body(results: &Vec<PortProbeResult>) -> (body: String)
    ensures
        body@ == report_body(ports_of(results@)),
{
    let ghost ports = ports_of(results@);
    if results.len() == 0 {
        return String::from_str("No open ports were found.");
    }
    let mut body = String::new();
    let mut i: usize = 0;
    while i < results.len()
        invariant
            0 <= i <= results.len(),
            ports == ports_of(results@),
            body@ == joined_lines(ports.take(i as int)),
        decreases results.len() - i,
    {
        assert(ports.take(i + 1).drop_last() =~= ports.take(i as int));
        if i > 0 {
            proof {
                reveal_strlit("\n");
            }
            body.append("\n");
        }
        body.append("Port ");
        push_decimal(&mut body, results[i].port);
        body.append(" is open");
        i += 1;
    }
    assert(ports.take(i as int) =~= ports);
    body
}

/// The report of one scan: the open ports in the order in which they were
/// probed, and the text that lists them.
#[derive(Debug)]
pub struct ScanReport {
    results: Vec<PortProbeResult>,
    body: String,
}

impl ScanReport {
    /// What holds of every report: its results are open ports in ascending
    /// order, and its text lists them.
    #[verifier::type_invariant]
    pub open spec fn valid(&self) -> bool {
        &&& all_open(self.results_view())
        &&& self.open_ports() == ports_of(self.results_view())
        &&& strictly_ascending(self.open_ports())
        &&& self.text() == report_body(self.open_ports())
    }

    /// The results, in the order of the report.
    pub closed spec fn results_view(&self) -> Seq<PortProbeResult> {
        self.results@
    }

    /// The open ports, in the order of the report.
    pub closed spec fn open_ports(&self) -> Seq<int> {
        ports_of(self.results@)
    }

    /// The text of the report.
    pub closed spec fn text(&self) -> Seq<char> {
        self.body@
    }

    /// Builds the report on `results`.
    pub(crate) fn assemble(results: Vec<PortProbeResult>) -> (report: ScanReport)
        requires
            all_open(results@),
            strictly_ascending(ports_of(results@)),
        ensures
            report.results_view() == results@,
            report.valid(),
    {
        let body = render_body(&results);
        ScanReport { results, body }
    }

    /// One result for each open port. Every result is `Open`, and the ports
    /// ascend.
    pub fn results(&self) -> (results: &Vec<PortProbeResult>)
        ensures
            results@ == self.results_view(),
            self.valid(),
    {
        proof {
            use_type_invariant(self);
        }
        &self.results
    }

    /// The text of the report: a line `Port N is open` for each open port,
    /// or the message that none was found.
    pub fn body(&self) -> (body: &str)
        ensures
            body@ == self.text(),
            self.valid(),
    {
        proof {
            use_type_invariant(self);
        }
        self.body.as_str()
    }

    /// The number of open ports.
    pub fn open_count(&self) -> (count: usize)
        ensures
            count == self.open_ports().len(),
            self.valid(),
    {
        proof {
            use_type_invariant(self);
        }
        self.results.len()
    }
}

} // verus!
