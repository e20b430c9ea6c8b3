//! Starting the server: the ports of a range are tried one after the other
//! until one can be bound.
//!
//! Binding is the caller's part. The caller binds the port it is told to try
//! and reports what came of it.

use crate::ops::Error;
use crate::text::{chars_of, contains, contains_text};
use vstd::prelude::*;

verus! {

/// What an `Error` holds.
pub struct ErrorView {
    pub desc: Seq<char>,
    pub op: Seq<char>,
    pub more: Option<Seq<char>>,
}

impl View for Error {
    type V = ErrorView;

    open spec fn view(&self) -> ErrorView {
        match self {
            Error::Io { desc, op, more } => ErrorView {
                desc: desc@,
                op: op@,
                more: match more {
                    Some(m) => Some(m@),
                    None => None,
                },
            },
        }
    }
}

/// What is to be done next to start the server.
#[derive(Clone, Copy, Debug, PartialEq, Eq)]
pub enum PortStep {
    /// Bind this port and report what came of it.
    Try(u16),
    /// The server listens on this port.
    Bound(u16),
    /// The server could not be started.
    Failed(Error),
}

/// What a `PortStep` holds.
pub enum PortStepView {
    Try(u16),
    Bound(u16),
    Failed(ErrorView),
}

impl View for PortStep {
    type V = PortStepView;

    open spec fn view(&self) -> PortStepView {
        match self {
            PortStep::Try(port) => PortStepView::Try(*port),
            PortStep::Bound(port) => PortStepView::Bound(*port),
            PortStep::Failed(e) => PortStepView::Failed(e@),
        }
    }
}

/// The error of a server that could not be started, with what more is known.
pub open spec fn start_failed(more: Option<Seq<char>>) -> ErrorView {
    ErrorView { desc: "server"@, op: "start"@, more }
}

/// Whether the message of a failed bind says that the port is in use.
pub open spec fn port_in_use(message: Seq<char>) -> bool {
    contains_text(message, "port"@)
}

/// Where a scan of the ports `from` to `up_to`, both inclusive, begins: at
/// `from`, or, where the range is empty, at its end.
pub open spec fn spec_first_port(from: u16, up_to: u16) -> PortStepView {
    if from <= up_to {
        PortStepView::Try(from)
    } else {
        PortStepView::Failed(start_failed(Some("no free ports"@)))
    }
}

/// What follows an attempt to bind `port`, the last port being `up_to`. A
/// bind that succeeded ends the scan on that port. One that failed for
/// another reason than the port being in use ends it in an error. Else the
/// next port is tried, and after the last port the scan ends in the error
/// that no port is free.
pub open spec fn spec_after_bind(port: u16, up_to: u16, failure: Option<Seq<char>>) -> PortStepView {
    match failure {
        None => PortStepView::Bound(port),
        Some(message) => if !port_in_use(message) {
            PortStepView::Failed(start_failed(None))
        } else if port < up_to {
            PortStepView::Try((port + 1) as u16)
        } else {
            PortStepView::Failed(start_failed(Some("no free ports"@)))
        },
    }
}

/// Where a scan stands after the attempts in `outcomes`, each the message of
/// a bind that failed or nothing for one that succeeded. Attempts after the
/// scan has ended count for nothing.
pub open spec fn port_scan(step: PortStepView, up_to: u16, outcomes: Seq<Option<String>>) -> PortStepView
    decreases outcomes.len(),
{
    match step {
        PortStepView::Try(port) => if outcomes.len() > 0 {
            port_scan(spec_after_bind(port, up_to, outcomes[0].deep_view()), up_to, outcomes.drop_first())
        } else {
            step
        },
        _ => step,
    }
}

fn no_free_ports() -> (e: Error)
    ensures
        e@ == start_failed(Some("no free ports"@)),
{
    Error::Io { desc: "server", op: "start", more: Some("no free ports") }
}

/// Where a scan of the ports `from` to `up_to`, both inclusive, begins.
pub fn first_port(from: u16, up_to: u16) -> (step: PortStep)
    ensures
        step@ == spec_first_port(from, up_to),
{
    if from <= up_to {
        PortStep::Try(from)
    } else {
        PortStep::Failed(no_free_ports())
    }
}

/// What follows an attempt to bind `port`, the last port being `up_to`:
/// `failure` is the message of the bind's error, or nothing where the port
/// was bound.
pub fn after_bind(port: u16, up_to: u16, failure: &Option<String>) -> (step: PortStep)
    ensures
        step@ == spec_after_bind(port, up_to, failure.deep_view()),
{
    match failure {
        None => PortStep::Bound(port),
        Some(message) => {
            if !contains(&chars_of(message.as_str()), &chars_of("port")) {
                PortStep::Failed(Error::Io { desc: "server", op: "start", more: None })
            } else if port < up_to {
                PortStep::Try(port + 1)
            } else {
                PortStep::Failed(no_free_ports())
            }
        },
    }
}

/// Where an attempt to start the server on the ports `from` to `up_to`,
/// both inclusive, stands after the binds in `outcomes`: the first port that
/// was bound is the one the server listens on; a bind that failed for
/// another reason than the port being in use ends the attempt at once; and
/// when every port of the range was in use, no port is free.
pub fn try_ports(from: u16, up_to: u16, outcomes: &Vec<Option<String>>) -> (step: PortStep)
    ensures
        step@ == port_scan(spec_first_port(from, up_to), up_to, outcomes@),
{
    let mut step = first_port(from, up_to);
    let mut i: usize = 0;
    assert(outcomes@.subrange(0, outcomes@.len() as int) =~= outcomes@);
    while i < outcomes.len()
        invariant
            i <= outcomes@.len(),
            port_scan(spec_first_port(from, up_to), up_to, outcomes@) == port_scan(
                step@,
                up_to,
                outcomes@.subrange(i as int, outcomes@.len() as int),
            ),
        decreases outcomes.len() - i,
    {
        let ghost rest = outcomes@.subrange(i as int, outcomes@.len() as int);
        assert(rest[0] == outcomes@[i as int]);
        assert(rest.drop_first() =~= outcomes@.subrange(i + 1, outcomes@.len() as int));
        match step {
            PortStep::Try(port) => {
                step = after_bind(port, up_to, &outcomes[i]);
            },
            _ => {
                return step;
            },
        }
        i += 1;
    }
    step
}

} // verus!
