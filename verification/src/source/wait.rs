//! A source that starts with a silence of a given duration.

use vstd::prelude::*;

verus! {

/// Nanoseconds in one second.
pub const NANOS_PER_SEC: u64 = 1000000000;

/// The length in nanoseconds of a duration of `secs` whole seconds and
/// `subsec_nanos` further nanoseconds, which must fit in a `u64`.
pub fn duration_nanos(secs: u64, subsec_nanos: u32) -> (res: u64)
    requires
        secs * NANOS_PER_SEC + subsec_nanos <= u64::MAX,
    ensures
        res == secs * NANOS_PER_SEC + subsec_nanos,
{
    assert(secs * NANOS_PER_SEC <= u64::MAX);
    secs * NANOS_PER_SEC + subsec_nanos as u64
}

} // verus!
