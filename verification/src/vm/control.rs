//! Branches, calls and returns.

use crate::error::{Error, InvalidInstructionCtx};
use crate::s0::{FnDef, S0};
use crate::vm::num::{low_u32, to_signed};
use crate::vm::R0Vm;
use vstd::prelude::*;

verus! {

impl<'src> R0Vm<'src> {
    /// The refusal of the instruction that was fetched last, whose opcode
    /// byte is `inst`.
    pub fn refusal(&self, inst: u8) -> (r: Error)
        requires
            self.wf(),
        ensures
            r == self@.refusal(inst),
    {
        Error::InvalidInstruction(
            InvalidInstructionCtx {
                inst,
                fn_id: self.fn_id as u32,
                inst_off: if self.ip > 0 {
                    (self.ip - 1) as u64
                } else {
                    0
                },
            },
        )
    }

    /// Addition with carry, which is reserved and has no opcode: it is
    /// refused as an invalid instruction, under the opcode of the
    /// instruction that was fetched last, and nothing changes.
    pub fn _adc_i(&mut self) -> (r: Result<(), Error>)
        requires
            old(self).wf(),
        ensures
            final(self).wf(),
            final(self)@ == old(self)@,
            r == Err::<(), Error>(old(self)@.refusal(old(self)@.last_code())),
    {
        let inst = if self.ip > 0 {
            self.fn_info.ins[self.ip - 1].code()
        } else {
            0
        };
        Err(self.refusal(inst))
    }

    /// The branch to an absolute address, which is reserved: it is refused
    /// as an invalid instruction and nothing changes.
    pub fn br_a(&mut self, addr: u64) -> (r: Result<(), Error>)
        requires
            old(self).wf(),
        ensures
            final(self).wf(),
            final(self)@ == old(self)@,
            r == Err::<(), Error>(old(self)@.refusal(0x40)),
    {
        Err(self.refusal(0x40))
    }

    /// Moves `ip` by `off` instructions. A target before the first
    /// instruction or behind the end of the function fails with
    /// `InvalidInstructionOffset`, and nothing changes.
    pub fn br(&mut self, off: i32) -> (r: Result<(), Error>)
        requires
            old(self).wf(),
        ensures
            final(self).wf(),
            final(self)@ == old(self)@.br(off).0,
            r == old(self)@.br(off).1,
    {
        let len = self.fn_info.ins.len();
        if off >= 0 {
            let d = off as usize;
            if d > len - self.ip {
                return Err(Error::InvalidInstructionOffset);
            }
            self.ip = self.ip + d;
        } else {
            let d = (-(off as i64)) as usize;
            if d > self.ip {
                return Err(Error::InvalidInstructionOffset);
            }
            self.ip = self.ip - d;
        }
        Ok(())
    }

    /// Pops a slot and branches where it is zero.
    pub fn bz(&mut self, off: i32) -> (r: Result<(), Error>)
        requires
            old(self).wf(),
        ensures
            final(self).wf(),
            final(self)@ == old(self)@.bz(off).0,
            r == old(self)@.bz(off).1,
    {
        let x = self.pop()?;
        if x == 0 {
            self.br(off)
        } else {
            Ok(())
        }
    }

    /// Pops a slot and branches where it is not zero.
    pub fn bnz(&mut self, off: i32) -> (r: Result<(), Error>)
        requires
            old(self).wf(),
        ensures
            final(self).wf(),
            final(self)@ == old(self)@.bnz(off).0,
            r == old(self)@.bnz(off).1,
    {
        let x = self.pop()?;
        if x != 0 {
            self.br(off)
        } else {
            Ok(())
        }
    }

    /// Pops a slot and branches where it reads as negative.
    pub fn bl(&mut self, off: i32) -> (r: Result<(), Error>)
        requires
            old(self).wf(),
        ensures
            final(self).wf(),
            final(self)@ == old(self)@.bl(off).0,
            r == old(self)@.bl(off).1,
    {
        let x = to_signed(self.pop()?);
        if x < 0 {
            self.br(off)
        } else {
            Ok(())
        }
    }

    /// Pops a slot and branches where it reads as positive.
    pub fn bg(&mut self, off: i32) -> (r: Result<(), Error>)
        requires
            old(self).wf(),
        ensures
            final(self).wf(),
            final(self)@ == old(self)@.bg(off).0,
            r == old(self)@.bg(off).1,
    {
        let x = to_signed(self.pop()?);
        if x > 0 {
            self.br(off)
        } else {
            Ok(())
        }
    }

    /// Pops a slot and branches where it reads as negative or zero.
    pub fn blz(&mut self, off: i32) -> (r: Result<(), Error>)
        requires
            old(self).wf(),
        ensures
            final(self).wf(),
            final(self)@ == old(self)@.blz(off).0,
            r == old(self)@.blz(off).1,
    {
        let x = to_signed(self.pop()?);
        if x <= 0 {
            self.br(off)
        } else {
            Ok(())
        }
    }

    /// Pops a slot and branches where it reads as positive or zero.
    pub fn bgz(&mut self, off: i32) -> (r: Result<(), Error>)
        requires
            old(self).wf(),
        ensures
            final(self).wf(),
            final(self)@ == old(self)@.bgz(off).0,
            r == old(self)@.bgz(off).1,
    {
        let x = to_signed(self.pop()?);
        if x >= 0 {
            self.br(off)
        } else {
            Ok(())
        }
    }

    /// The function with the given id, or `InvalidFnId`.
    pub fn get_fn_by_id(&self, id: u32) -> (r: Result<&'src FnDef, Error>)
        ensures
            id < self@.prog.functions@.len() ==> (r matches Ok(f) && *f
                == self@.prog.functions@[id as int]),
            id >= self@.prog.functions@.len() ==> r == Err::<&FnDef, Error>(
                Error::InvalidFnId(id),
            ),
    {
        let src: &'src S0 = self.src;
        if (id as usize) < src.functions.len() {
            Ok(&src.functions[id as usize])
        } else {
            Err(Error::InvalidFnId(id))
        }
    }

    /// Enters function `id`, whose arguments the caller has pushed. The
    /// call pushes the callee's locals as zeros, then the caller's `bp`,
    /// `ip` and `fn_id`; the new `bp` is the slot of the first of the three.
    /// It fails with `InvalidFnId` where the program has no such function,
    /// with `StackUnderflow` where the arguments are not there, and with
    /// `StackOverflow` where the frame does not fit.
    pub fn call(&mut self, id: u32) -> (r: Result<(), Error>)
        requires
            old(self).wf(),
        ensures
            final(self).wf(),
            final(self)@ == old(self)@.call(id).0,
            r == old(self)@.call(id).1,
    {
        let fp = self.get_fn_by_id(id)?;
        if self.stack.len() - self.floor() < fp.param_slots as usize {
            return Err(Error::StackUnderflow);
        }
        if self.depth >= self.max_stack_size {
            return Err(Error::StackOverflow);
        }
        let old_bp = self.bp;
        let old_ip = self.ip;
        let old_fn = self.fn_id;
        self.stack_alloc(fp.loc_slots)?;

        let bp = self.stack.len();

        self.push(old_bp as u64)?;
        self.push(old_ip as u64)?;
        self.push(old_fn as u64)?;

        self.fn_id = id as usize;
        self.fn_info = fp;
        self.ip = 0;
        self.bp = bp;
        self.depth = self.depth + 1;

        Ok(())
    }

    /// Enters the function that entry `idx` of the name table resolves to;
    /// an index that the table does not have gives `InvalidFnId`.
    pub fn call_name(&mut self, idx: u32) -> (r: Result<(), Error>)
        requires
            old(self).wf(),
        ensures
            final(self).wf(),
            final(self)@ == old(self)@.call_name(idx).0,
            r == old(self)@.call_name(idx).1,
    {
        let src: &'src S0 = self.src;
        if idx as usize >= src.names.len() {
            return Err(Error::InvalidFnId(idx));
        }
        self.call(src.names[idx as usize])
    }

    /// Leaves the running function. In the start function this is the clean
    /// end of the run, `Halt`, and nothing changes. In a called function it
    /// reads the caller's `bp`, `ip` and `fn_id` from the three slots at
    /// `bp`, cuts the stack at the first argument, and goes on in the
    /// caller. Where the three slots do not hold the state of a frame that
    /// lies below the cut it fails, and nothing changes.
    pub fn ret(&mut self) -> (r: Result<(), Error>)
        requires
            old(self).wf(),
        ensures
            final(self).wf(),
            final(self)@ == old(self)@.ret().0,
            r == old(self)@.ret().1,
    {
        if self.depth == 0 {
            return Err(Error::Halt);
        }
        let old_bp = self.stack[self.bp];
        let old_ip = self.stack[self.bp + 1];
        let old_fn = self.stack[self.bp + 2];
        let truncate_to = self.bp - self.fn_info.param_slots as usize
            - self.fn_info.loc_slots as usize;

        let src: &'src S0 = self.src;
        if old_fn >= src.functions.len() as u64 || old_fn > u32::MAX as u64 {
            return Err(Error::InvalidFnId(low_u32(old_fn)));
        }
        let fp = &src.functions[old_fn as usize];
        if old_ip > fp.ins.len() as u64 {
            return Err(Error::InvalidInstructionOffset);
        }
        let link: u64 = if self.depth <= 1 {
            0
        } else {
            3
        };
        if old_bp > truncate_to as u64 || old_bp + link > truncate_to as u64 || old_bp
            < fp.param_slots as u64 + fp.loc_slots as u64 {
            return Err(Error::StackUnderflow);
        }
        self.stack.truncate(truncate_to);
        assert(self.stack@ == old(self).stack@.take(truncate_to as int));

        self.fn_info = fp;
        self.bp = old_bp as usize;
        self.ip = old_ip as usize;
        self.fn_id = old_fn as usize;
        self.depth = self.depth - 1;

        Ok(())
    }
}

} // verus!
