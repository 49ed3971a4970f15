//! An encoder channel: the forward movement of a sensor since the last angle,
//! with small movements reported as zero.
use vstd::prelude::*;
use crate::mlx90363::Mlx90363;

verus! {

pub struct NegiconEncoder {
    pub sensor: Mlx90363,
    pub min: u16,
    pub max: u16,
    pub last: u16,
    pub deadzone: u16,
}

impl NegiconEncoder {
    pub fn new(sensor: Mlx90363, min: u16, max: u16, last: u16, deadzone: u16) -> (r: Self)
        ensures
            r.min == min,
            r.max == max,
            r.last == last,
            r.deadzone == deadzone,
    {
        Self { sensor, min, max, last, deadzone }
    }

    /// The forward movement from the last angle to `alpha`, the smaller of the
    /// direct and the wrapped distance; zero below the deadzone.
    pub fn calculate_output(&mut self, alpha: u16) -> (r: i16)
        requires
            old(self).last <= alpha,
            alpha + old(self).max <= u16::MAX,
        ensures
            final(self).last == old(self).last,
            final(self).min == old(self).min,
            final(self).max == old(self).max,
            final(self).deadzone == old(self).deadzone,
            alpha - old(self).last < old(self).deadzone ==> r == 0,
            alpha - old(self).last >= old(self).deadzone ==> r == (alpha - old(self).last) as i16,
    {
        let direct = alpha - self.last;
        let wrapped = alpha + self.max - self.last;
        let diff = if direct <= wrapped {
            direct
        } else {
            wrapped
        };
        if diff < self.deadzone {
            0
        } else {
            diff as i16
        }
    }
}

} // verus!
