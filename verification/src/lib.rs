//! The engine of a sequential TCP port scanner.
//!
//! The crate holds everything about a scan that is not the network itself:
//! reading port numbers from text, validating a request, deciding which port
//! is probed next, and assembling the report. The probe itself is the caller's:
//! a driver performs each probe and hands its outcome to [`scan::Scan::step`],
//! or hands the probe as a function to [`coordinator::scan_ports`].

pub mod coordinator;
pub mod decimal;
pub mod laws;
pub mod port_text;
pub mod report;
pub mod request;
pub mod scan;

pub use coordinator::scan_ports;
pub use decimal::{format_port, probe_address};
pub use port_text::{parse_port, parse_port_or};
pub use report::{PortProbeResult, PortState, ScanReport};
pub use request::{ScanError, ScanRequest, DEFAULT_END_PORT, DEFAULT_START_PORT, DEFAULT_TARGET};
pub use scan::{Scan, ScanAction, ScanEvent};
