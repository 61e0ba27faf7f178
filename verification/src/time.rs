//! Instants, ordered as they pass.
use vstd::prelude::*;

verus! {

/// An instant: seconds since the Unix epoch, and nanoseconds into that second.
#[derive(Debug, Clone, Copy, PartialEq, Eq, Structural)]
pub struct Timestamp {
    pub secs: i64,
    pub nanos: u32,
}

/// Whether `a` passes before `b`.
pub open spec fn before(a: Timestamp, b: Timestamp) -> bool {
    a.secs < b.secs || (a.secs == b.secs && a.nanos < b.nanos)
}

/// The later of two instants.
pub open spec fn later_of(a: Timestamp, b: Timestamp) -> Timestamp {
    if before(a, b) {
        b
    } else {
        a
    }
}

impl Timestamp {
    /// Whether this instant passes before the other.
    pub fn is_before(self, other: Timestamp) -> (r: bool)
        ensures
            r == before(self, other),
    {
        self.secs < other.secs || (self.secs == other.secs && self.nanos < other.nanos)
    }

    /// The later of two instants.
    pub fn latest(self, other: Timestamp) -> (r: Timestamp)
        ensures
            r == later_of(self, other),
    {
        if self.is_before(other) {
            other
        } else {
            self
        }
    }
}

/// Instants pass in one order: by their seconds, and within one second by their nanoseconds. The
/// later of two is one of them, and neither passes after it.
pub proof fn instants_pass_in_order(a: Timestamp, b: Timestamp, c: Timestamp)
    ensures
        a.secs < b.secs ==> before(a, b),
        a.secs == b.secs ==> (before(a, b) <==> a.nanos < b.nanos),
        before(a, b) || before(b, a) || a == b,
        before(a, b) ==> !before(b, a) && a != b,
        before(a, b) && before(b, c) ==> before(a, c),
        later_of(a, b) == a || later_of(a, b) == b,
        !before(later_of(a, b), a) && !before(later_of(a, b), b),
        later_of(a, b) == later_of(b, a),
{
}

} // verus!
