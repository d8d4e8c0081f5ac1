//! One handler for each instruction. A handler is held to the function of
//! the same name on states: it leaves the state and gives the result that
//! this function says.

use crate::error::Error;
use crate::vm::floats::{negate, FloatTask};
use crate::vm::mem::zeros;
use crate::vm::num::{from_signed, places, signed, to_signed};
use crate::vm::state::State;
use crate::vm::R0Vm;
use vstd::prelude::*;

verus! {

impl<'src> R0Vm<'src> {
    /// The stack floor: the lowest slot that can hold an operand of the
    /// running function.
    pub fn floor(&self) -> (r: usize)
        requires
            self.wf(),
        ensures
            r == self@.floor(),
    {
        if self.depth == 0 {
            self.bp
        } else {
            self.bp + 3
        }
    }

    /// Pops the left operand, then the right one.
    pub fn pop2(&mut self) -> (r: Result<(u64, u64), Error>)
        requires
            old(self).wf(),
        ensures
            final(self).wf(),
            final(self)@ == old(self)@.pop2().0,
            r == old(self)@.pop2().1,
    {
        let lhs = self.pop()?;
        let rhs = self.pop()?;
        Ok((lhs, rhs))
    }

    /// Pops the left operand, then the right one, and reads both as signed.
    pub fn pop2i(&mut self) -> (r: Result<(i64, i64), Error>)
        requires
            old(self).wf(),
        ensures
            final(self).wf(),
            final(self)@ == old(self)@.pop2().0,
            match old(self)@.pop2().1 {
                Ok((lhs, rhs)) => r matches Ok((a, b)) && a == signed(lhs) && b == signed(rhs),
                Err(e) => r == Err::<(i64, i64), Error>(e),
            },
    {
        let lhs = to_signed(self.pop()?);
        let rhs = to_signed(self.pop()?);
        Ok((lhs, rhs))
    }

    // ====

    /// Pushes a slot; fails where the stack is full.
    pub fn push(&mut self, x: u64) -> (r: Result<(), Error>)
        requires
            old(self).wf(),
        ensures
            final(self).wf(),
            final(self)@ == old(self)@.push(x).0,
            r == old(self)@.push(x).1,
    {
        if self.stack.len() >= self.max_stack_size {
            return Err(Error::StackOverflow);
        }
        self.stack.push(x);
        Ok(())
    }

    /// Pops the top slot; fails where the stack holds none above the floor.
    pub fn pop(&mut self) -> (r: Result<u64, Error>)
        requires
            old(self).wf(),
        ensures
            final(self).wf(),
            final(self)@ == old(self)@.pop().0,
            r == old(self)@.pop().1,
    {
        if self.stack.len() <= self.floor() {
            return Err(Error::StackUnderflow);
        }
        match self.stack.pop() {
            Some(x) => Ok(x),
            None => Err(Error::StackUnderflow),
        }
    }

    /// Removes the `n` top slots; fails, and removes none, where the stack
    /// holds fewer above the floor.
    pub fn pop_n(&mut self, n: u32) -> (r: Result<(), Error>)
        requires
            old(self).wf(),
        ensures
            final(self).wf(),
            final(self)@ == old(self)@.pop_n(n).0,
            r == old(self)@.pop_n(n).1,
    {
        let floor = self.floor();
        if n as usize > self.stack.len() - floor {
            return Err(Error::StackUnderflow);
        }
        let rem = self.stack.len() - n as usize;
        self.stack.truncate(rem);
        assert(self.stack@ == old(self).stack@.take(rem as int));
        Ok(())
    }

    /// Pushes a copy of the top slot.
    pub fn dup(&mut self) -> (r: Result<(), Error>)
        requires
            old(self).wf(),
        ensures
            final(self).wf(),
            final(self)@ == old(self)@.dup().0,
            r == old(self)@.dup().1,
    {
        if self.stack.len() <= self.floor() {
            return Err(Error::StackUnderflow);
        }
        let top = self.stack[self.stack.len() - 1];
        self.push(top)
    }

    /// Pushes `count` zero slots. Where the stack cannot take them all it
    /// takes as many as fit, and the call fails.
    pub fn stack_alloc(&mut self, count: u32) -> (r: Result<(), Error>)
        requires
            old(self).wf(),
        ensures
            final(self).wf(),
            final(self)@ == old(self)@.stack_alloc(count).0,
            r == old(self)@.stack_alloc(count).1,
    {
        let ghost pre = self@;
        let mut i: u32 = 0;
        while i < count
            invariant
                self.wf(),
                i <= count,
                pre == old(self)@,
                self@ == (State { stack: pre.stack + zeros(i as nat), ..pre }),
            decreases count - i,
        {
            if self.stack.len() >= self.max_stack_size {
                assert(i == pre.max_stack - pre.stack.len());
                return Err(Error::StackOverflow);
            }
            self.stack.push(0);
            i += 1;
            assert(self.stack@ == pre.stack + zeros(i as nat));
        }
        assert(pre.stack + zeros(0) == pre.stack);
        Ok(())
    }

    // ==== integers

    /// Pops two slots and pushes their sum, which wraps.
    pub fn add_i(&mut self) -> (r: Result<(), Error>)
        requires
            old(self).wf(),
        ensures
            final(self).wf(),
            final(self)@ == old(self)@.add_i().0,
            r == old(self)@.add_i().1,
    {
        let (lhs, rhs) = self.pop2()?;
        self.push(lhs.wrapping_add(rhs))
    }

    /// Pops two slots and pushes the first less the second, which wraps.
    pub fn sub_i(&mut self) -> (r: Result<(), Error>)
        requires
            old(self).wf(),
        ensures
            final(self).wf(),
            final(self)@ == old(self)@.sub_i().0,
            r == old(self)@.sub_i().1,
    {
        let (lhs, rhs) = self.pop2()?;
        self.push(lhs.wrapping_sub(rhs))
    }

    /// Pops two slots and pushes their product, which wraps.
    pub fn mul_i(&mut self) -> (r: Result<(), Error>)
        requires
            old(self).wf(),
        ensures
            final(self).wf(),
            final(self)@ == old(self)@.mul_i().0,
            r == old(self)@.mul_i().1,
    {
        let (lhs, rhs) = self.pop2()?;
        self.push(lhs.wrapping_mul(rhs))
    }

    /// Pops two slots and pushes the signed quotient of the first by the
    /// second, rounded toward zero; fails with `DivZero` where the second is
    /// zero.
    pub fn div_i(&mut self) -> (r: Result<(), Error>)
        requires
            old(self).wf(),
        ensures
            final(self).wf(),
            final(self)@ == old(self)@.div_i().0,
            r == old(self)@.div_i().1,
    {
        let (lhs, rhs) = self.pop2i()?;
        if rhs == 0 {
            return Err(Error::DivZero);
        }
        let res = match lhs.checked_div(rhs) {
            Some(q) => q,
            None => i64::MIN,
        };
        self.push(from_signed(res))
    }

    /// Pops two slots and pushes the unsigned quotient of the first by the
    /// second; fails with `DivZero` where the second is zero.
    pub fn div_u(&mut self) -> (r: Result<(), Error>)
        requires
            old(self).wf(),
        ensures
            final(self).wf(),
            final(self)@ == old(self)@.div_u().0,
            r == old(self)@.div_u().1,
    {
        let (lhs, rhs) = self.pop2()?;
        if rhs == 0 {
            return Err(Error::DivZero);
        }
        self.push(lhs / rhs)
    }

    /// Pops two slots and pushes the first shifted left by the second.
    pub fn shl(&mut self) -> (r: Result<(), Error>)
        requires
            old(self).wf(),
        ensures
            final(self).wf(),
            final(self)@ == old(self)@.shl().0,
            r == old(self)@.shl().1,
    {
        let (lhs, rhs) = self.pop2()?;
        self.push(lhs << places(rhs))
    }

    /// Pops two slots and pushes the first shifted right by the second, the
    /// sign bit filling in.
    pub fn shr(&mut self) -> (r: Result<(), Error>)
        requires
            old(self).wf(),
        ensures
            final(self).wf(),
            final(self)@ == old(self)@.shr().0,
            r == old(self)@.shr().1,
    {
        let (lhs, rhs) = self.pop2()?;
        self.push(from_signed(to_signed(lhs) >> places(rhs)))
    }

    /// Pops two slots and pushes the first shifted right by the second,
    /// zeros filling in.
    pub fn shr_l(&mut self) -> (r: Result<(), Error>)
        requires
            old(self).wf(),
        ensures
            final(self).wf(),
            final(self)@ == old(self)@.shr_l().0,
            r == old(self)@.shr_l().1,
    {
        let (lhs, rhs) = self.pop2()?;
        self.push(lhs >> places(rhs))
    }

    /// Pops two slots and pushes their bitwise and.
    pub fn and(&mut self) -> (r: Result<(), Error>)
        requires
            old(self).wf(),
        ensures
            final(self).wf(),
            final(self)@ == old(self)@.and().0,
            r == old(self)@.and().1,
    {
        let (lhs, rhs) = self.pop2()?;
        self.push(lhs & rhs)
    }

    /// Pops two slots and pushes their bitwise or.
    pub fn or(&mut self) -> (r: Result<(), Error>)
        requires
            old(self).wf(),
        ensures
            final(self).wf(),
            final(self)@ == old(self)@.or().0,
            r == old(self)@.or().1,
    {
        let (lhs, rhs) = self.pop2()?;
        self.push(lhs | rhs)
    }

    /// Pops two slots and pushes their bitwise exclusive or.
    pub fn xor(&mut self) -> (r: Result<(), Error>)
        requires
            old(self).wf(),
        ensures
            final(self).wf(),
            final(self)@ == old(self)@.xor().0,
            r == old(self)@.xor().1,
    {
        let (lhs, rhs) = self.pop2()?;
        self.push(lhs ^ rhs)
    }

    /// Replaces the top slot by its bitwise complement.
    pub fn not(&mut self) -> (r: Result<(), Error>)
        requires
            old(self).wf(),
        ensures
            final(self).wf(),
            final(self)@ == old(self)@.not().0,
            r == old(self)@.not().1,
    {
        let x = self.pop()?;
        self.push(!x)
    }

    /// Replaces the top slot by its negation as an integer, which wraps.
    pub fn neg_i(&mut self) -> (r: Result<(), Error>)
        requires
            old(self).wf(),
        ensures
            final(self).wf(),
            final(self)@ == old(self)@.neg_i().0,
            r == old(self)@.neg_i().1,
    {
        let x = self.pop()?;
        self.push(0u64.wrapping_sub(x))
    }

    /// Replaces the top slot, read as a double, by its negation.
    pub fn neg_f(&mut self) -> (r: Result<(), Error>)
        requires
            old(self).wf(),
        ensures
            final(self).wf(),
            final(self)@ == old(self)@.neg_f().0,
            r == old(self)@.neg_f().1,
    {
        let x = self.pop()?;
        self.push(negate(x))
    }

    /// Replaces the top slot by 1 where it reads as negative, by 0 otherwise.
    pub fn set_lt(&mut self) -> (r: Result<(), Error>)
        requires
            old(self).wf(),
        ensures
            final(self).wf(),
            final(self)@ == old(self)@.set_lt().0,
            r == old(self)@.set_lt().1,
    {
        let x = to_signed(self.pop()?);
        self.push(if x < 0 { 1 } else { 0 })
    }

    /// Replaces the top slot by 1 where it reads as positive, by 0 otherwise.
    pub fn set_gt(&mut self) -> (r: Result<(), Error>)
        requires
            old(self).wf(),
        ensures
            final(self).wf(),
            final(self)@ == old(self)@.set_gt().0,
            r == old(self)@.set_gt().1,
    {
        let x = to_signed(self.pop()?);
        self.push(if x > 0 { 1 } else { 0 })
    }

    // ==== doubles

    /// Pops two slots and leaves their sum as doubles to the embedder.
    pub fn add_f(&mut self) -> (r: Result<FloatTask, Error>)
        requires
            old(self).wf(),
        ensures
            final(self).wf(),
            final(self)@ == old(self)@.add_f().0,
            r == old(self)@.add_f().1,
    {
        let (lhs, rhs) = self.pop2()?;
        Ok(FloatTask::Add { lhs, rhs })
    }

    /// Pops two slots and leaves their difference as doubles to the
    /// embedder.
    pub fn sub_f(&mut self) -> (r: Result<FloatTask, Error>)
        requires
            old(self).wf(),
        ensures
            final(self).wf(),
            final(self)@ == old(self)@.sub_f().0,
            r == old(self)@.sub_f().1,
    {
        let (lhs, rhs) = self.pop2()?;
        Ok(FloatTask::Sub { lhs, rhs })
    }

    /// Pops two slots and leaves their product as doubles to the embedder.
    pub fn mul_f(&mut self) -> (r: Result<FloatTask, Error>)
        requires
            old(self).wf(),
        ensures
            final(self).wf(),
            final(self)@ == old(self)@.mul_f().0,
            r == old(self)@.mul_f().1,
    {
        let (lhs, rhs) = self.pop2()?;
        Ok(FloatTask::Mul { lhs, rhs })
    }

    /// Pops two slots and leaves their quotient as doubles to the embedder.
    pub fn div_f(&mut self) -> (r: Result<FloatTask, Error>)
        requires
            old(self).wf(),
        ensures
            final(self).wf(),
            final(self)@ == old(self)@.div_f().0,
            r == old(self)@.div_f().1,
    {
        let (lhs, rhs) = self.pop2()?;
        Ok(FloatTask::Div { lhs, rhs })
    }

    /// Pops a slot and leaves its conversion from a signed integer to a
    /// double to the embedder.
    pub fn itof(&mut self) -> (r: Result<FloatTask, Error>)
        requires
            old(self).wf(),
        ensures
            final(self).wf(),
            final(self)@ == old(self)@.itof().0,
            r == old(self)@.itof().1,
    {
        let x = self.pop()?;
        Ok(FloatTask::FromInt(x))
    }

    /// Pops a slot and leaves its conversion from a double to a signed
    /// integer to the embedder.
    pub fn ftoi(&mut self) -> (r: Result<FloatTask, Error>)
        requires
            old(self).wf(),
        ensures
            final(self).wf(),
            final(self)@ == old(self)@.ftoi().0,
            r == old(self)@.ftoi().1,
    {
        let x = self.pop()?;
        Ok(FloatTask::ToInt(x))
    }

    /// Pops a slot and leaves its printing as a double to the embedder.
    pub fn print_f(&mut self) -> (r: Result<FloatTask, Error>)
        requires
            old(self).wf(),
        ensures
            final(self).wf(),
            final(self)@ == old(self)@.print_f().0,
            r == old(self)@.print_f().1,
    {
        let x = self.pop()?;
        Ok(FloatTask::Print(x))
    }

    /// Leaves the reading of a double to the embedder, and nothing changes.
    pub fn scan_f(&mut self) -> (r: Result<FloatTask, Error>)
        requires
            old(self).wf(),
        ensures
            final(self).wf(),
            final(self)@ == old(self)@,
            r == Ok::<FloatTask, Error>(FloatTask::Scan),
    {
        Ok(FloatTask::Scan)
    }

    /// Ends the run cleanly.
    pub fn halt(&mut self) -> (r: Result<(), Error>)
        requires
            old(self).wf(),
        ensures
            final(self).wf(),
            final(self)@ == old(self)@,
            r == Err::<(), Error>(Error::Halt),
    {
        Err(Error::Halt)
    }
}

} // verus!
