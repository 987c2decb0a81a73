//! How far into the track playback is, as an exact fraction.

use vstd::prelude::*;

verus! {

/// A fraction between nothing and the whole: `part / whole`.
#[derive(Clone, Copy, Debug, PartialEq, Eq, Structural)]
pub struct Progress {
    pub part: u64,
    pub whole: u64,
}

impl Progress {
    /// A fraction that lies in the closed range from 0 to 1.
    pub open spec fn in_unit_range(self) -> bool {
        0 <= self.part <= self.whole && self.whole > 0
    }

    /// A fraction that is exactly 0.
    pub open spec fn is_zero(self) -> bool {
        self.part == 0 && self.whole > 0
    }
}

/// The fraction of `length` that `position` covers, cut off at the whole; 0 where either is
/// absent or the length is zero.
pub open spec fn ratio_of(position: Option<u64>, length: Option<u64>) -> Progress {
    match (position, length) {
        (Some(p), Some(l)) => if l == 0 {
            Progress { part: 0, whole: 1 }
        } else if p >= l {
            Progress { part: l, whole: l }
        } else {
            Progress { part: p, whole: l }
        },
        _ => Progress { part: 0, whole: 1 },
    }
}

/// The progress to show for a playback position within a track length.
pub fn progress_ratio(position: Option<u64>, length: Option<u64>) -> (ratio: Progress)
    ensures
        ratio == ratio_of(position, length),
        ratio.in_unit_range(),
        (length is None || length == Some(0u64)) ==> ratio.is_zero(),
        position is None ==> ratio.is_zero(),
{
    match (position, length) {
        (Some(p), Some(l)) => {
            if l == 0 {
                Progress { part: 0, whole: 1 }
            } else if p >= l {
                Progress { part: l, whole: l }
            } else {
                Progress { part: p, whole: l }
            }
        },
        _ => Progress { part: 0, whole: 1 },
    }
}

/// The progress ratio always lies between 0 and 1, and it is exactly 0 when the length is zero
/// or absent.
pub proof fn ratio_is_bounded(position: Option<u64>, length: Option<u64>)
    ensures
        ratio_of(position, length).in_unit_range(),
        (length is None || length == Some(0u64)) ==> ratio_of(position, length).is_zero(),
{
}

} // verus!
