use vstd::prelude::*;

use core::ops::RangeInclusive;

verus! {

/// A read-only projection of a message history: the current position and
/// the number of recorded messages, with `position <= count`.
#[derive(Debug, Clone, Copy, Default, PartialEq, Eq, Structural)]
pub struct Timeline {
    /// The index of the current message in the timeline.
    position: u32,
    /// The number of messages in the timeline.
    count: u32,
}

impl Timeline {
    /// The position the timeline is at.
    pub closed spec fn spec_position(self) -> u32 {
        self.position
    }

    /// The number of messages the timeline spans.
    pub closed spec fn spec_count(self) -> u32 {
        self.count
    }

    /// The position never runs past the end of the timeline.
    pub closed spec fn wf(self) -> bool {
        self.position <= self.count
    }

    /// Creates a timeline, clamping `position` into `0..=count`.
    pub fn new(position: u32, count: u32) -> (r: Self)
        ensures
            r.wf(),
            r.spec_count() == count,
            r.spec_position() == if position <= count { position } else { count },
    {
        let position = if position <= count { position } else { count };
        Timeline { position, count }
    }

    /// The current position in the timeline.
    pub fn position(&self) -> (r: u32)
        ensures
            r == self.spec_position(),
    {
        self.position
    }

    /// The range of valid positions, `0..=count`, for slider widgets.
    pub fn range(&self) -> (r: RangeInclusive<u32>)
        ensures
            r@.start == 0,
            r@.end == self.spec_count(),
            !r@.exhausted,
    {
        RangeInclusive::new(0, self.count)
    }

    /// Whether the timeline holds no messages.
    pub fn is_empty(&self) -> (r: bool)
        ensures
            r == (self.spec_count() == 0),
    {
        self.count == 0
    }

    /// Whether the timeline is at its end, showing the most recent state.
    pub fn is_live(&self) -> (r: bool)
        ensures
            r == (self.spec_position() == self.spec_count()),
    {
        self.position == self.count
    }
}

} // verus!
