//! The dispatch of one instruction to its handler.

use crate::error::Error;
use crate::opcodes::Op;
use crate::vm::floats::FloatTask;
use crate::vm::state::Outcome;
use crate::vm::R0Vm;
use vstd::prelude::*;

verus! {

/// The outcome of an instruction that left nothing for the embedder.
fn finished(r: Result<(), Error>) -> (o: Outcome)
    ensures
        o == (match r {
            Ok(_) => Ok::<Option<FloatTask>, Error>(None),
            Err(e) => Err(e),
        }),
{
    match r {
        Ok(_) => Ok(None),
        Err(e) => Err(e),
    }
}

/// The outcome of an instruction that left work for the embedder.
fn pending(r: Result<FloatTask, Error>) -> (o: Outcome)
    ensures
        o == (match r {
            Ok(task) => Ok::<Option<FloatTask>, Error>(Some(task)),
            Err(e) => Err(e),
        }),
{
    match r {
        Ok(task) => Ok(Some(task)),
        Err(e) => Err(e),
    }
}

impl<'src> R0Vm<'src> {
    /// Carries out one instruction, `ip` having moved past it.
    pub fn exec_instruction(&mut self, op: Op) -> (r: Outcome)
        requires
            old(self).wf(),
        ensures
            final(self).wf(),
            final(self)@ == old(self)@.exec(op).0,
            r == old(self)@.exec(op).1,
    {
        match op {
            Op::Nop => Ok(None),
            Op::Push(x) => finished(self.push(x)),
            Op::Pop => match self.pop() {
                Ok(_) => Ok(None),
                Err(e) => Err(e),
            },
            Op::PopN(n) => finished(self.pop_n(n)),
            Op::Dup => finished(self.dup()),
            Op::LocA(a) => finished(self.loc_a(a)),
            Op::ArgA(a) => finished(self.arg_a(a)),
            Op::GlobA(a) => finished(self.glob_a(a)),
            Op::Load8 => finished(self.load8()),
            Op::Load16 => finished(self.load16()),
            Op::Load32 => finished(self.load32()),
            Op::Load64 => finished(self.load64()),
            Op::Store8 => finished(self.store8()),
            Op::Store16 => finished(self.store16()),
            Op::Store32 => finished(self.store32()),
            Op::Store64 => finished(self.store64()),
            Op::Alloc => finished(self.allocate()),
            Op::Free => finished(self.free()),
            Op::StackAlloc(n) => finished(self.stack_alloc(n)),
            Op::AddI => finished(self.add_i()),
            Op::SubI => finished(self.sub_i()),
            Op::MulI => finished(self.mul_i()),
            Op::DivI => finished(self.div_i()),
            Op::AddF => pending(self.add_f()),
            Op::SubF => pending(self.sub_f()),
            Op::MulF => pending(self.mul_f()),
            Op::DivF => pending(self.div_f()),
            Op::DivU => finished(self.div_u()),
            Op::Shl => finished(self.shl()),
            Op::Shr => finished(self.shr()),
            Op::And => finished(self.and()),
            Op::Or => finished(self.or()),
            Op::Xor => finished(self.xor()),
            Op::Not => finished(self.not()),
            Op::CmpI => finished(self.cmp_i()),
            Op::CmpU => finished(self.cmp_u()),
            Op::CmpF => finished(self.cmp_f()),
            Op::NegI => finished(self.neg_i()),
            Op::NegF => finished(self.neg_f()),
            Op::IToF => pending(self.itof()),
            Op::FToI => pending(self.ftoi()),
            Op::ShrL => finished(self.shr_l()),
            Op::SetLt => finished(self.set_lt()),
            Op::SetGt => finished(self.set_gt()),
            Op::BrA(addr) => finished(self.br_a(addr)),
            Op::Br(off) => finished(self.br(off)),
            Op::BrFalse(off) => finished(self.bz(off)),
            Op::BrTrue(off) => finished(self.bnz(off)),
            Op::Call(id) => finished(self.call(id)),
            Op::CallName(idx) => finished(self.call_name(idx)),
            Op::Ret => finished(self.ret()),
            Op::ScanI => finished(self.scan_i()),
            Op::ScanC => finished(self.scan_c()),
            Op::ScanF => pending(self.scan_f()),
            Op::PrintI => finished(self.print_i()),
            Op::PrintC => finished(self.print_c()),
            Op::PrintF => pending(self.print_f()),
            Op::PrintS => finished(self.print_s()),
            Op::PrintLn => finished(self.print_ln()),
            Op::Panic => finished(self.halt()),
        }
    }
}

} // verus!
