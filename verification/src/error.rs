use vstd::prelude::*;

verus! {

/// The error kinds the library reports. Hardware failures are the
/// embedding's concern and never reach the verified core.
#[derive(Clone, Copy, Debug, PartialEq, Eq, Structural)]
pub enum LedError {
    /// A pattern name outside the fixed registry; rejected before any
    /// running pattern is disturbed.
    UnknownPattern,
    /// An equalizer datagram of the wrong length; dropped without
    /// touching the stored frame.
    MalformedFrame,
    /// An equalizer datagram whose sequence number does not exceed the
    /// last accepted one; dropped without touching the stored frame.
    StaleFrame,
}

} // verus!
