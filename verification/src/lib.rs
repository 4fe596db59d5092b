use vstd::prelude::*;

pub mod compose;
pub mod date;
pub mod digits;
pub mod extract;
pub mod locate;
pub mod pipeline;

verus! {

/// The two fatal failures of an invocation: a timestamp that does not parse,
/// and a calendar key that fails the `YYYY-MM-DD` invariant. Every other
/// anomaly degrades to a count of zero instead of failing.
#[derive(Clone, Copy, Debug, PartialEq, Eq, Structural)]
pub enum PipelineError {
    InvalidTimestamp,
    InvalidKey,
}

} // verus!
