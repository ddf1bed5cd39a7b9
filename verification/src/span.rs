//! What is told to a tracer about a unit of work.

use vstd::prelude::*;

verus! {

/// The role of the work that a span covers.
#[derive(Clone, Copy, Debug, PartialEq, Eq, Structural)]
pub enum SpanKind {
    /// Work done for a remote caller.
    Server,
    /// Work done for a message taken from a broker.
    Consumer,
}

/// A span to open: its name and its role.
#[derive(Debug, PartialEq, Eq)]
pub struct SpanStart {
    /// The name under which the span is reported.
    pub name: String,
    /// The role of the work.
    pub kind: SpanKind,
}

} // verus!
