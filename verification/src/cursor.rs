//! A wrapping cursor over a collection of a fixed number of items.

use vstd::prelude::*;

verus! {

/// Types that have a unit value: 1 for the integers.
pub trait Unit: Sized {
    /// The unit value, as a specification.
    spec fn unit_spec() -> Self;

    /// The unit value.
    fn unit() -> (r: Self)
        ensures
            r == Self::unit_spec(),
    ;
}

impl Unit for usize {
    open spec fn unit_spec() -> usize {
        1
    }

    fn unit() -> usize {
        1
    }
}

impl Unit for u8 {
    open spec fn unit_spec() -> u8 {
        1
    }

    fn unit() -> u8 {
        1
    }
}

impl Unit for u16 {
    open spec fn unit_spec() -> u16 {
        1
    }

    fn unit() -> u16 {
        1
    }
}

impl Unit for u32 {
    open spec fn unit_spec() -> u32 {
        1
    }

    fn unit() -> u32 {
        1
    }
}

impl Unit for u64 {
    open spec fn unit_spec() -> u64 {
        1
    }

    fn unit() -> u64 {
        1
    }
}

impl Unit for isize {
    open spec fn unit_spec() -> isize {
        1
    }

    fn unit() -> isize {
        1
    }
}

impl Unit for i8 {
    open spec fn unit_spec() -> i8 {
        1
    }

    fn unit() -> i8 {
        1
    }
}

impl Unit for i16 {
    open spec fn unit_spec() -> i16 {
        1
    }

    fn unit() -> i16 {
        1
    }
}

impl Unit for i32 {
    open spec fn unit_spec() -> i32 {
        1
    }

    fn unit() -> i32 {
        1
    }
}

impl Unit for i64 {
    open spec fn unit_spec() -> i64 {
        1
    }

    fn unit() -> i64 {
        1
    }
}

/// A cursor that can be used to iterate over a collection of `limit`
/// items, wrapping around to the first position after the last one.
#[derive(Clone, Copy, Debug)]
pub struct Cursor {
    value: usize,
    limit: usize,
}

impl Cursor {
    /// The position is inside the limit (or zero, for a cursor without
    /// positions).
    #[verifier::type_invariant]
    spec fn wf(self) -> bool {
        self.value == 0 || self.value < self.limit
    }

    /// The current position.
    pub closed spec fn spec_value(&self) -> usize {
        self.value
    }

    /// The number of positions the cursor wraps over.
    pub closed spec fn spec_limit(&self) -> usize {
        self.limit
    }

    /// Create a new cursor over `limit` positions, at position zero.
    pub fn new(limit: usize) -> (r: Cursor)
        ensures
            r.spec_value() == 0,
            r.spec_limit() == limit,
    {
        Cursor { value: 0, limit }
    }

    /// Move the cursor to the next position, wrapping at the limit.
    pub fn step(&mut self)
        requires
            old(self).spec_limit() > 0,
        ensures
            final(self).spec_value() == (old(self).spec_value() + 1) % (
            old(self).spec_limit() as int),
            final(self).spec_limit() == old(self).spec_limit(),
    {
        proof {
            use_type_invariant(&*self);
        }
        self.value = (self.value + usize::unit()) % self.limit;
    }

    /// The current value of the cursor.
    pub fn value(&self) -> (r: usize)
        ensures
            r == self.spec_value(),
    {
        self.value
    }
}

} // verus!
