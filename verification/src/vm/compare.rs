//! The handlers that order two slots.

use crate::error::Error;
use crate::vm::floats::order;
use crate::vm::num::to_signed;
use crate::vm::state::Reading;
use crate::vm::R0Vm;
use vstd::prelude::*;

verus! {

impl<'src> R0Vm<'src> {
    /// Pops two slots and pushes their order under the given reading: all
    /// ones, which reads as -1, then 0 or 1 as the first is less than,
    /// equal to or greater than the second. Two doubles of which one is a
    /// NaN have the order 0.
    pub fn cmp_t(&mut self, reading: Reading) -> (r: Result<(), Error>)
        requires
            old(self).wf(),
        ensures
            final(self).wf(),
            final(self)@ == old(self)@.order_t(reading).0,
            r == old(self)@.order_t(reading).1,
    {
        let (lhs, rhs) = self.pop2()?;
        let less = match reading {
            Reading::Signed => to_signed(lhs) < to_signed(rhs),
            Reading::Unsigned => lhs < rhs,
            Reading::Double => order(lhs, rhs) == u64::MAX,
        };
        let greater = match reading {
            Reading::Signed => to_signed(lhs) > to_signed(rhs),
            Reading::Unsigned => lhs > rhs,
            Reading::Double => order(lhs, rhs) == 1,
        };
        if less {
            self.push(u64::MAX)
        } else if greater {
            self.push(1)
        } else {
            self.push(0)
        }
    }

    /// Pops two slots and pushes their order as signed integers: all ones,
    /// 0 or 1 as the first is less than, equal to or greater than the
    /// second.
    pub fn cmp_i(&mut self) -> (r: Result<(), Error>)
        requires
            old(self).wf(),
        ensures
            final(self).wf(),
            final(self)@ == old(self)@.order_i().0,
            r == old(self)@.order_i().1,
    {
        self.cmp_t(Reading::Signed)
    }

    /// Pops two slots and pushes their order as unsigned integers.
    pub fn cmp_u(&mut self) -> (r: Result<(), Error>)
        requires
            old(self).wf(),
        ensures
            final(self).wf(),
            final(self)@ == old(self)@.order_u().0,
            r == old(self)@.order_u().1,
    {
        self.cmp_t(Reading::Unsigned)
    }

    /// Pops two slots and pushes their order as doubles, which is 0 where
    /// either is a NaN.
    pub fn cmp_f(&mut self) -> (r: Result<(), Error>)
        requires
            old(self).wf(),
        ensures
            final(self).wf(),
            final(self)@ == old(self)@.order_f().0,
            r == old(self)@.order_f().1,
    {
        self.cmp_t(Reading::Double)
    }
}

} // verus!
