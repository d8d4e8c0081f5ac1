//! The instruction set: each operation, its opcode byte and its immediate.

use crate::error::{Error, InvalidInstructionCtx};
use vstd::prelude::*;

verus! {

/// One decoded instruction. An immediate, where there is one, is part of the
/// value.
#[derive(Debug, PartialEq, Eq, Clone, Copy, Structural)]
pub enum Op {
    Nop,
    Push(u64),
    Pop,
    PopN(u32),
    Dup,
    LocA(u32),
    ArgA(u32),
    GlobA(u32),
    Load8,
    Load16,
    Load32,
    Load64,
    Store8,
    Store16,
    Store32,
    Store64,
    Alloc,
    Free,
    StackAlloc(u32),
    AddI,
    SubI,
    MulI,
    DivI,
    AddF,
    SubF,
    MulF,
    DivF,
    DivU,
    Shl,
    Shr,
    And,
    Or,
    Xor,
    Not,
    CmpI,
    CmpU,
    CmpF,
    NegI,
    NegF,
    IToF,
    FToI,
    ShrL,
    SetLt,
    SetGt,
    BrA(u64),
    Br(i32),
    BrFalse(i32),
    BrTrue(i32),
    Call(u32),
    CallName(u32),
    Ret,
    ScanI,
    ScanC,
    ScanF,
    PrintI,
    PrintC,
    PrintF,
    PrintS,
    PrintLn,
    Panic,
}

/// The number of distinct values of an immediate that takes `size` bytes.
pub open spec fn imm_range(size: nat) -> int {
    if size == 0 {
        1
    } else if size == 4 {
        0x1_0000_0000
    } else {
        0x1_0000_0000_0000_0000
    }
}

/// The low 32 bits of an immediate, as an unsigned index.
pub open spec fn imm_u32(param: u64) -> u32 {
    param as u32
}

/// The low 32 bits of an immediate, as a signed displacement.
pub open spec fn imm_i32(param: u64) -> i32 {
    param as i64 as i32
}

/// A signed displacement as it is stored in a 64-bit immediate: sign-extended.
pub open spec fn imm_of_i32(x: i32) -> u64 {
    x as i64 as u64
}

fn low_u32(param: u64) -> (r: u32)
    ensures
        r == imm_u32(param),
        r as int == param as int % 0x1_0000_0000,
{
    assert(param as u32 == param % 0x1_0000_0000) by (bit_vector);
    #[verifier::truncate]
    (param as u32)
}

fn low_i32(param: u64) -> (r: i32)
    ensures
        r == imm_i32(param),
        imm_of_i32(r) as int % 0x1_0000_0000 == param as int % 0x1_0000_0000,
{
    assert((param as i64 as i32) as i64 as u64 % 0x1_0000_0000 == param % 0x1_0000_0000)
        by (bit_vector);
    #[verifier::truncate]
    (#[verifier::truncate]
    (param as i64) as i32)
}

fn widen_i32(x: i32) -> (r: u64)
    ensures
        r == imm_of_i32(x),
{
    #[verifier::truncate]
    (x as i64 as u64)
}

impl Op {
    /// The opcode table: the byte that stands for each operation.
    pub open spec fn spec_code(self) -> u8 {
        match self {
            Op::Nop => 0x00,
            Op::Push(_) => 0x01,
            Op::Pop => 0x02,
            Op::PopN(_) => 0x03,
            Op::Dup => 0x04,
            Op::LocA(_) => 0x0a,
            Op::ArgA(_) => 0x0b,
            Op::GlobA(_) => 0x0c,
            Op::Load8 => 0x10,
            Op::Load16 => 0x11,
            Op::Load32 => 0x12,
            Op::Load64 => 0x13,
            Op::Store8 => 0x14,
            Op::Store16 => 0x15,
            Op::Store32 => 0x16,
            Op::Store64 => 0x17,
            Op::Alloc => 0x18,
            Op::Free => 0x19,
            Op::StackAlloc(_) => 0x1a,
            Op::AddI => 0x20,
            Op::SubI => 0x21,
            Op::MulI => 0x22,
            Op::DivI => 0x23,
            Op::AddF => 0x24,
            Op::SubF => 0x25,
            Op::MulF => 0x26,
            Op::DivF => 0x27,
            Op::DivU => 0x28,
            Op::Shl => 0x29,
            Op::Shr => 0x2a,
            Op::And => 0x2b,
            Op::Or => 0x2c,
            Op::Xor => 0x2d,
            Op::Not => 0x2e,
            Op::CmpI => 0x30,
            Op::CmpU => 0x31,
            Op::CmpF => 0x32,
            Op::NegI => 0x34,
            Op::NegF => 0x35,
            Op::IToF => 0x36,
            Op::FToI => 0x37,
            Op::ShrL => 0x38,
            Op::SetLt => 0x39,
            Op::SetGt => 0x3a,
            Op::BrA(_) => 0x40,
            Op::Br(_) => 0x41,
            Op::BrFalse(_) => 0x42,
            Op::BrTrue(_) => 0x43,
            Op::Call(_) => 0x48,
            Op::Ret => 0x49,
            Op::CallName(_) => 0x4a,
            Op::ScanI => 0x50,
            Op::ScanC => 0x51,
            Op::ScanF => 0x52,
            Op::PrintI => 0x54,
            Op::PrintC => 0x55,
            Op::PrintF => 0x56,
            Op::PrintS => 0x57,
            Op::PrintLn => 0x58,
            Op::Panic => 0xfe,
        }
    }

    /// The immediate of an operation as a 64-bit value: an unsigned index
    /// zero-extended, a signed displacement sign-extended, and 0 where the
    /// operation carries none.
    pub open spec fn spec_code_param(self) -> u64 {
        match self {
            Op::Push(x) | Op::BrA(x) => x,
            Op::PopN(x)
            | Op::LocA(x)
            | Op::ArgA(x)
            | Op::GlobA(x)
            | Op::StackAlloc(x)
            | Op::Call(x)
            | Op::CallName(x) => x as u64,
            Op::Br(x) | Op::BrFalse(x) | Op::BrTrue(x) => imm_of_i32(x),
            _ => 0,
        }
    }

    /// The number of bytes that the immediate behind an opcode byte takes.
    pub open spec fn spec_param_size(code: u8) -> nat {
        if code == 0x01 || code == 0x40 {
            8
        } else if code == 0x03 || code == 0x0a || code == 0x0b || code == 0x0c || code == 0x1a
            || code == 0x41 || code == 0x42 || code == 0x43 || code == 0x48 || code == 0x4a {
            4
        } else {
            0
        }
    }

    /// Whether `op` is what the opcode byte `code` with the immediate `param`
    /// stands for: `op` has that opcode, and its immediate agrees with
    /// `param` on the bytes that the encoding keeps.
    pub open spec fn decodes_to(code: u8, param: u64, op: Op) -> bool {
        &&& op.spec_code() == code
        &&& op.spec_code_param() as int % imm_range(Op::spec_param_size(code)) == param as int
            % imm_range(Op::spec_param_size(code))
    }

    /// The opcode byte of this operation.
    pub fn code(&self) -> (r: u8)
        ensures
            r == self.spec_code(),
    {
        match self {
            Op::Nop => 0x00,
            Op::Push(..) => 0x01,
            Op::Pop => 0x02,
            Op::PopN(..) => 0x03,
            Op::Dup => 0x04,
            Op::LocA(..) => 0x0a,
            Op::ArgA(..) => 0x0b,
            Op::GlobA(..) => 0x0c,
            Op::Load8 => 0x10,
            Op::Load16 => 0x11,
            Op::Load32 => 0x12,
            Op::Load64 => 0x13,
            Op::Store8 => 0x14,
            Op::Store16 => 0x15,
            Op::Store32 => 0x16,
            Op::Store64 => 0x17,
            Op::Alloc => 0x18,
            Op::Free => 0x19,
            Op::StackAlloc(..) => 0x1a,
            Op::AddI => 0x20,
            Op::SubI => 0x21,
            Op::MulI => 0x22,
            Op::DivI => 0x23,
            Op::AddF => 0x24,
            Op::SubF => 0x25,
            Op::MulF => 0x26,
            Op::DivF => 0x27,
            Op::DivU => 0x28,
            Op::Shl => 0x29,
            Op::Shr => 0x2a,
            Op::And => 0x2b,
            Op::Or => 0x2c,
            Op::Xor => 0x2d,
            Op::Not => 0x2e,
            Op::CmpI => 0x30,
            Op::CmpU => 0x31,
            Op::CmpF => 0x32,
            Op::NegI => 0x34,
            Op::NegF => 0x35,
            Op::IToF => 0x36,
            Op::FToI => 0x37,
            Op::ShrL => 0x38,
            Op::SetLt => 0x39,
            Op::SetGt => 0x3a,
            Op::BrA(..) => 0x40,
            Op::Br(..) => 0x41,
            Op::BrFalse(..) => 0x42,
            Op::BrTrue(..) => 0x43,
            Op::Call(..) => 0x48,
            Op::Ret => 0x49,
            Op::CallName(..) => 0x4a,
            Op::ScanI => 0x50,
            Op::ScanC => 0x51,
            Op::ScanF => 0x52,
            Op::PrintI => 0x54,
            Op::PrintC => 0x55,
            Op::PrintF => 0x56,
            Op::PrintS => 0x57,
            Op::PrintLn => 0x58,
            Op::Panic => 0xfe,
        }
    }

    /// The number of immediate bytes that follow the opcode byte `code` in an
    /// instruction stream: 8, 4 or 0. A byte that is no opcode has none.
    pub fn param_size(code: u8) -> (r: usize)
        ensures
            r == Op::spec_param_size(code),
    {
        match code {
            0x01 | 0x40 => 8,
            0x03 | 0x0a | 0x0b | 0x0c | 0x1a | 0x41 | 0x42 | 0x43 | 0x48 | 0x4a => 4,
            _ => 0,
        }
    }

    /// Decodes an opcode byte and its immediate. The result is the one
    /// operation that `code` and the kept bytes of `param` stand for, and
    /// `None` exactly when no operation has the opcode `code`.
    pub fn from_code(code: u8, param: u64) -> (r: Option<Op>)
        ensures
            match r {
                Some(op) => Op::decodes_to(code, param, op),
                None => forall|op: Op| #[trigger] op.spec_code() != code,
            },
    {
        match code {
            0x00 => Some(Op::Nop),
            0x01 => Some(Op::Push(param)),
            0x02 => Some(Op::Pop),
            0x03 => Some(Op::PopN(low_u32(param))),
            0x04 => Some(Op::Dup),
            0x0a => Some(Op::LocA(low_u32(param))),
            0x0b => Some(Op::ArgA(low_u32(param))),
            0x0c => Some(Op::GlobA(low_u32(param))),
            0x10 => Some(Op::Load8),
            0x11 => Some(Op::Load16),
            0x12 => Some(Op::Load32),
            0x13 => Some(Op::Load64),
            0x14 => Some(Op::Store8),
            0x15 => Some(Op::Store16),
            0x16 => Some(Op::Store32),
            0x17 => Some(Op::Store64),
            0x18 => Some(Op::Alloc),
            0x19 => Some(Op::Free),
            0x1a => Some(Op::StackAlloc(low_u32(param))),
            0x20 => Some(Op::AddI),
            0x21 => Some(Op::SubI),
            0x22 => Some(Op::MulI),
            0x23 => Some(Op::DivI),
            0x24 => Some(Op::AddF),
            0x25 => Some(Op::SubF),
            0x26 => Some(Op::MulF),
            0x27 => Some(Op::DivF),
            0x28 => Some(Op::DivU),
            0x29 => Some(Op::Shl),
            0x2a => Some(Op::Shr),
            0x2b => Some(Op::And),
            0x2c => Some(Op::Or),
            0x2d => Some(Op::Xor),
            0x2e => Some(Op::Not),
            0x30 => Some(Op::CmpI),
            0x31 => Some(Op::CmpU),
            0x32 => Some(Op::CmpF),
            0x34 => Some(Op::NegI),
            0x35 => Some(Op::NegF),
            0x36 => Some(Op::IToF),
            0x37 => Some(Op::FToI),
            0x38 => Some(Op::ShrL),
            0x39 => Some(Op::SetLt),
            0x3a => Some(Op::SetGt),
            0x40 => Some(Op::BrA(param)),
            0x41 => Some(Op::Br(low_i32(param))),
            0x42 => Some(Op::BrFalse(low_i32(param))),
            0x43 => Some(Op::BrTrue(low_i32(param))),
            0x48 => Some(Op::Call(low_u32(param))),
            0x49 => Some(Op::Ret),
            0x4a => Some(Op::CallName(low_u32(param))),
            0x50 => Some(Op::ScanI),
            0x51 => Some(Op::ScanC),
            0x52 => Some(Op::ScanF),
            0x54 => Some(Op::PrintI),
            0x55 => Some(Op::PrintC),
            0x56 => Some(Op::PrintF),
            0x57 => Some(Op::PrintS),
            0x58 => Some(Op::PrintLn),
            0xfe => Some(Op::Panic),
            _ => None,
        }
    }

    /// Decodes the instruction that stands at offset `inst_off` of function
    /// `fn_id`. A byte that is no opcode is refused as an invalid
    /// instruction at that place.
    pub fn decode(code: u8, param: u64, fn_id: u32, inst_off: u64) -> (r: Result<Op, Error>)
        ensures
            match r {
                Ok(op) => Op::decodes_to(code, param, op),
                Err(e) => e == Error::InvalidInstruction(
                    InvalidInstructionCtx { inst: code, fn_id, inst_off },
                ) && forall|op: Op| #[trigger] op.spec_code() != code,
            },
    {
        match Op::from_code(code, param) {
            Some(op) => Ok(op),
            None => Err(
                Error::InvalidInstruction(InvalidInstructionCtx { inst: code, fn_id, inst_off }),
            ),
        }
    }

    /// The immediate of this operation as a 64-bit value, 0 where it has
    /// none.
    pub fn code_param(&self) -> (r: u64)
        ensures
            r == self.spec_code_param(),
    {
        match *self {
            Op::Push(x) => x,
            Op::PopN(x) => x as u64,
            Op::LocA(x) => x as u64,
            Op::ArgA(x) => x as u64,
            Op::GlobA(x) => x as u64,
            Op::StackAlloc(x) => x as u64,
            Op::BrA(x) => x,
            Op::Br(x) => widen_i32(x),
            Op::BrFalse(x) => widen_i32(x),
            Op::BrTrue(x) => widen_i32(x),
            Op::Call(x) => x as u64,
            Op::CallName(x) => x as u64,
            _ => 0u64,
        }
    }

    /// Decoding undoes encoding: every operation is what its own opcode byte
    /// and immediate decode to.
    pub proof fn lemma_decodes_to_itself(op: Op)
        ensures
            Op::decodes_to(op.spec_code(), op.spec_code_param(), op),
    {
    }

    /// An opcode byte and an immediate stand for at most one operation.
    pub proof fn lemma_decoding_is_unique(code: u8, param: u64, a: Op, b: Op)
        requires
            Op::decodes_to(code, param, a),
            Op::decodes_to(code, param, b),
        ensures
            a == b,
    {
        Self::lemma_i32_by_low_bytes();
    }

    proof fn lemma_i32_by_low_bytes()
        ensures
            forall|x: i32, y: i32|
                (#[trigger] imm_of_i32(x)) as int % 0x1_0000_0000 == (#[trigger] imm_of_i32(y))
                    as int % 0x1_0000_0000 ==> x == y,
    {
        assert forall|x: i32, y: i32|
            (#[trigger] imm_of_i32(x)) as int % 0x1_0000_0000 == (#[trigger] imm_of_i32(y)) as int
                % 0x1_0000_0000 implies x == y by {
            assert((x as i64 as u64) % 0x1_0000_0000 == (y as i64 as u64) % 0x1_0000_0000 ==> x
                == y) by (bit_vector);
        }
    }
}

} // verus!
