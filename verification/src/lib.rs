//! Core of a single-track audio playback engine and its library search text
//! normalization: a pull-based sample source model, the playback state
//! machine with integer-millisecond timing, and Unicode-aware search text
//! folding.

use vstd::prelude::*;

pub mod playback;
pub mod search;
pub mod source;

verus! {

/// Converts whole seconds to milliseconds, saturating at the largest
/// representable value.
pub fn seconds_to_millis(secs: u64) -> (r: u64)
    ensures
        secs <= u64::MAX / 1000 ==> r == secs * 1000,
        secs > u64::MAX / 1000 ==> r == u64::MAX,
{
    if secs <= u64::MAX / 1000 {
        secs * 1000
    } else {
        u64::MAX
    }
}

} // verus!
