//! The ways in which a run of the machine ends.

use vstd::prelude::*;
use vstd::string::StringExecFns;

verus! {

/// The character that writes a digit below 16.
pub open spec fn digit_char(d: nat) -> char {
    if d < 10 {
        (48 + d) as char
    } else {
        (87 + d) as char
    }
}

/// A natural number in decimal, without leading zeros.
pub open spec fn decimal_text(n: nat) -> Seq<char>
    decreases n,
{
    if n < 10 {
        seq![digit_char(n)]
    } else {
        decimal_text(n / 10).push(digit_char(n % 10))
    }
}

/// Appends the character of a digit below 16.
fn push_digit(s: &mut String, d: u8)
    requires
        d < 16,
    ensures
        final(s)@ == old(s)@.push(digit_char(d as nat)),
{
    proof {
        reveal_strlit("0");
        reveal_strlit("1");
        reveal_strlit("2");
        reveal_strlit("3");
        reveal_strlit("4");
        reveal_strlit("5");
        reveal_strlit("6");
        reveal_strlit("7");
        reveal_strlit("8");
        reveal_strlit("9");
        reveal_strlit("a");
        reveal_strlit("b");
        reveal_strlit("c");
        reveal_strlit("d");
        reveal_strlit("e");
        reveal_strlit("f");
    }
    let digit = match d {
        0 => "0",
        1 => "1",
        2 => "2",
        3 => "3",
        4 => "4",
        5 => "5",
        6 => "6",
        7 => "7",
        8 => "8",
        9 => "9",
        10 => "a",
        11 => "b",
        12 => "c",
        13 => "d",
        14 => "e",
        _ => "f",
    };
    assert(digit@ == seq![digit_char(d as nat)]);
    s.append(digit);
    assert(final(s)@ == old(s)@.push(digit_char(d as nat)));
}

/// Appends a number in decimal.
fn push_number(s: &mut String, n: u64)
    ensures
        final(s)@ == old(s)@ + decimal_text(n as nat),
    decreases n,
{
    if n >= 10 {
        push_number(s, n / 10);
    }
    push_digit(s, (n % 10) as u8);
    assert(final(s)@ == old(s)@ + decimal_text(n as nat));
}

/// Where an instruction that the machine refuses stands.
#[derive(Debug, PartialEq, Eq, Clone, Copy, Structural)]
pub struct InvalidInstructionCtx {
    /// Instruction opcode
    pub inst: u8,
    /// Function id
    pub fn_id: u32,
    /// Instruction offset
    pub inst_off: u64,
}

impl InvalidInstructionCtx {
    /// The text that names the place: the opcode as two hexadecimal digits
    /// behind `0x`, then ` at fn #`, the function id, `:` and the offset,
    /// both in decimal.
    pub open spec fn text(self) -> Seq<char> {
        seq!['0', 'x', digit_char((self.inst / 16) as nat), digit_char((self.inst % 16) as nat)]
            + seq![' ', 'a', 't', ' ', 'f', 'n', ' ', '#'] + decimal_text(self.fn_id as nat)
            + seq![':'] + decimal_text(self.inst_off as nat)
    }

    /// Names the place in words, as in `0x40 at fn #1:12`.
    pub fn describe(&self) -> (r: String)
        ensures
            r@ == self.text(),
    {
        proof {
            reveal_strlit("0x");
            reveal_strlit(" at fn #");
            reveal_strlit(":");
        }
        let mut s = String::from_str("0x");
        push_digit(&mut s, self.inst / 16);
        push_digit(&mut s, self.inst % 16);
        s.append(" at fn #");
        push_number(&mut s, self.fn_id as u64);
        s.append(":");
        push_number(&mut s, self.inst_off);
        assert(s@ =~= self.text());
        s
    }
}

/// Why the machine stopped. Every kind but `Halt` is a failure; `Halt` is the
/// clean end of a run.
#[derive(Debug, PartialEq, Eq, Clone, Copy, Structural)]
pub enum Error {
    /// An opcode that is unknown or reserved.
    InvalidInstruction(InvalidInstructionCtx),
    /// A push beyond the bound of the stack.
    StackOverflow,
    /// A pop or a frame access below what the stack holds.
    StackUnderflow,
    /// An access or a free at an address outside every live region.
    InvalidAddress(u64),
    /// A call of a function that the program does not have.
    InvalidFnId(u32),
    /// The address of a local or an argument that the frame does not have.
    InvalidLocalIndex(u32),
    /// The address of a global that the program does not have.
    InvalidGlobalIndex(u32),
    /// A branch to a place outside the function.
    InvalidInstructionOffset,
    /// An integer division by zero.
    DivZero,
    /// Kept for arithmetic that traps; no instruction raises it.
    ArithmeticErr,
    /// An allocation that cannot be granted.
    OutOfMemory,
    /// An access at an address that is no multiple of its width.
    UnalignedAccess(u64),
    /// The end of a function reached without a return.
    ControlReachesEnd(u32),
    /// A program without a start function.
    NoEntryPoint,
    /// The input gave out where an instruction had to read.
    IoError,
    /// Input that does not read as the value asked for.
    ParseError,
    /// The clean end of a run.
    Halt,
}

impl Error {
    /// Whether this is the clean end of a run and no failure.
    pub fn is_halt(&self) -> (r: bool)
        ensures
            r == (*self == Error::Halt),
    {
        match self {
            Error::Halt => true,
            _ => false,
        }
    }
}

} // verus!
