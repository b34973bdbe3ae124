//! What a scan is asked to do, and when such a request is accepted.

use vstd::prelude::*;
use vstd::string::*;
use crate::port_text::{parse_port_or, port_or};

verus! {

/// The host that is scanned where none is given.
pub const DEFAULT_TARGET: &'static str = "127.0.0.1";

/// The first port of the range where the text for it denotes no port.
pub const DEFAULT_START_PORT: u16 = 1;

/// The last port of the range where the text for it denotes no port.
pub const DEFAULT_END_PORT: u16 = 1024;

/// Why a scan was not begun.
#[derive(Clone, Copy, PartialEq, Eq, Structural, Debug)]
pub enum ScanError {
    /// The target is empty, or the range holds no port: its first port is
    /// zero or lies above its last.
    InvalidRequest,
}

/// A request as the contracts see it.
pub ghost struct RequestView {
    pub target: Seq<char>,
    pub start_port: int,
    pub end_port: int,
}

impl RequestView {
    /// Whether a scan can be made of this request: a target that is not
    /// empty, and a range that holds at least one port and only port numbers.
    pub open spec fn valid(self) -> bool {
        &&& self.target.len() > 0
        &&& 1 <= self.start_port <= self.end_port <= 65535
    }

    /// The number of ports in the range.
    pub open spec fn port_count(self) -> int {
        self.end_port - self.start_port + 1
    }
}

/// A target and an inclusive range of ports on it. Every value is valid.
#[derive(Debug)]
pub struct ScanRequest {
    target: String,
    start_port: u16,
    end_port: u16,
}

impl View for ScanRequest {
    type V = RequestView;

    closed spec fn view(&self) -> RequestView {
        RequestView {
            target: self.target@,
            start_port: self.start_port as int,
            end_port: self.end_port as int,
        }
    }
}

impl ScanRequest {
    /// What holds of every request: it is valid.
    #[verifier::type_invariant]
    pub open spec fn well_formed(&self) -> bool {
        self@.valid()
    }

    /// A request to scan the ports from `start_port` to `end_port`, both
    /// included, on `target`.
    ///
    /// An empty target, a first port of zero and a first port above the last
    /// are refused.
    pub fn new(target: &str, start_port: u16, end_port: u16) -> (made: Result<
        ScanRequest,
        ScanError,
    >)
        ensures
            match made {
                Ok(request) => {
                    &&& request@ == (RequestView {
                        target: target@,
                        start_port: start_port as int,
                        end_port: end_port as int,
                    })
                    &&& request@.valid()
                },
                Err(error) => {
                    &&& error == ScanError::InvalidRequest
                    &&& target@.len() == 0 || start_port == 0 || start_port > end_port
                },
            },
    {
        if target.is_empty() || start_port == 0 || start_port > end_port {
            return Err(ScanError::InvalidRequest);
        }
        Ok(ScanRequest { target: String::from_str(target), start_port, end_port })
    }

    /// A request from the text of three input fields.
    ///
    /// A port field that denotes no port counts as the default for it: 1 for
    /// the first port, 1024 for the last. The request is then made as by
    /// [`ScanRequest::new`].
    pub fn from_text(target: &str, start_text: &str, end_text: &str) -> (made: Result<
        ScanRequest,
        ScanError,
    >)
        ensures
            match made {
                Ok(request) => {
                    &&& request@ == (RequestView {
                        target: target@,
                        start_port: port_or(start_text@, 1) as int,
                        end_port: port_or(end_text@, 1024) as int,
                    })
                    &&& request@.valid()
                },
                Err(error) => {
                    &&& error == ScanError::InvalidRequest
                    &&& target@.len() == 0 || port_or(start_text@, 1) > port_or(end_text@, 1024)
                },
            },
    {
        let start_port = parse_port_or(start_text, DEFAULT_START_PORT);
        let end_port = parse_port_or(end_text, DEFAULT_END_PORT);
        ScanRequest::new(target, start_port, end_port)
    }

    /// The host to scan.
    pub fn target(&self) -> (target: &str)
        ensures
            target@ == self@.target,
            self@.valid(),
    {
        proof {
            use_type_invariant(self);
        }
        self.target.as_str()
    }

    /// The first port of the range.
    pub fn start_port(&self) -> (port: u16)
        ensures
            port == self@.start_port,
            self@.valid(),
    {
        proof {
            use_type_invariant(self);
        }
        self.start_port
    }

    /// The last port of the range.
    pub fn end_port(&self) -> (port: u16)
        ensures
            port == self@.end_port,
            self@.valid(),
    {
        proof {
            use_type_invariant(self);
        }
        self.end_port
    }

    /// The number of ports in the range.
    pub fn port_count(&self) -> (count: u32)
        ensures
            count == self@.port_count(),
            1 <= count <= 65535,
    {
        proof {
            use_type_invariant(self);
        }
        (self.end_port - self.start_port) as u32 + 1
    }
}

} // verus!
