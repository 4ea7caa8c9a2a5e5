//! The polling loop's decision: whether a reading calls for a new write.

use vstd::prelude::*;

verus! {

/// The table index that a temperature in whole degrees stands for: its
/// low eight bits. Temperatures from 0 to 255 are their own index; others
/// wrap around.
pub open spec fn index_of(degrees: i16) -> u8 {
    (degrees as int % 256) as u8
}

/// What the polling loop remembers: the temperature, in whole degrees, of
/// the last write that succeeded. Before any write it is zero.
#[derive(Debug, Clone, Copy, PartialEq, Eq, Structural)]
pub struct Tracker {
    pub applied: i16,
}

impl Tracker {
    /// The tracker of a loop that has written nothing yet.
    pub fn new() -> (tracker: Tracker)
        ensures
            tracker.applied == 0,
    {
        Tracker { applied: 0 }
    }

    /// The table index to update the fan with, if the reading differs
    /// from the temperature that was applied last; nothing if it does not.
    pub fn due(&self, degrees: i16) -> (index: Option<u8>)
        ensures
            index == if degrees != self.applied {
                Some(index_of(degrees))
            } else {
                None
            },
    {
        if degrees != self.applied {
            let shifted: u32 = (degrees as i32 + 0x8000) as u32;
            Some((shifted % 256) as u8)
        } else {
            None
        }
    }

    /// Takes note that the fan was brought to the duty cycle for
    /// `degrees`.
    pub fn record(&mut self, degrees: i16)
        ensures
            final(self).applied == degrees,
    {
        self.applied = degrees;
    }
}

} // verus!
