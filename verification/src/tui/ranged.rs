use vstd::prelude::*;

verus! {

/// A number that stays within `min..=max`: stepping past either end wraps
/// around to the other.
#[derive(Clone, Copy, Debug, PartialEq, Eq, Structural)]
pub struct RangedWrapping {
    /// the number
    pub value: usize,
    /// the smallest value it takes
    pub min: usize,
    /// the largest value it takes
    pub max: usize,
}

impl Default for RangedWrapping {
    /// The default holds zero within `0..=0`.
    fn default() -> (r: RangedWrapping)
        ensures
            r == (RangedWrapping { value: 0, min: 0, max: 0 }),
    {
        RangedWrapping { value: 0, min: 0, max: 0 }
    }
}

impl RangedWrapping {
    /// The value lies within the range.
    pub open spec fn wf(self) -> bool {
        self.min <= self.value <= self.max
    }

    /// The value one step up: past `max`, `min`.
    pub open spec fn spec_next(self) -> RangedWrapping {
        RangedWrapping {
            value: if self.value >= self.max { self.min } else { (self.value + 1) as usize },
            ..self
        }
    }

    /// The value one step down: below `min`, `max`.
    pub open spec fn spec_previous(self) -> RangedWrapping {
        RangedWrapping {
            value: if self.value <= self.min { self.max } else { (self.value - 1) as usize },
            ..self
        }
    }

    /// `new` starts at `min` within `min..=max`.
    pub fn new(min: usize, max: usize) -> (r: RangedWrapping)
        requires
            min <= max,
        ensures
            r == (RangedWrapping { value: min, min, max }),
            r.wf(),
    {
        RangedWrapping { value: min, min, max }
    }

    /// `increment` steps the value up by one, wrapping past `max` to `min`.
    pub fn increment(&mut self)
        requires
            old(self).wf(),
        ensures
            *final(self) == old(self).spec_next(),
            final(self).wf(),
    {
        if self.value >= self.max {
            self.value = self.min;
        } else {
            self.value = self.value + 1;
        }
    }

    /// `decrement` steps the value down by one, wrapping below `min` to
    /// `max`.
    pub fn decrement(&mut self)
        requires
            old(self).wf(),
        ensures
            *final(self) == old(self).spec_previous(),
            final(self).wf(),
    {
        if self.value <= self.min {
            self.value = self.max;
        } else {
            self.value = self.value - 1;
        }
    }
}

/// Stepping down undoes stepping up, and stepping up undoes stepping down.
pub proof fn lemma_step_round_trip(r: RangedWrapping)
    requires
        r.wf(),
    ensures
        r.spec_next().spec_previous() == r,
        r.spec_previous().spec_next() == r,
        r.spec_next().wf(),
        r.spec_previous().wf(),
{
}

} // verus!
