//! The machine as a mathematical object: its state, and what each
//! instruction makes of a state. The executable machine is specified
//! against these functions, one for one.

use crate::error::{Error, InvalidInstructionCtx};
use crate::opcodes::Op;
use crate::s0::{FnDef, S0};
use crate::vm::floats::{float_neg, float_order, FloatTask};
use crate::vm::mem::{
    global_addr, heap_addr, place_at, stack_addr, word_get, word_set, words_for, zeros, Block,
    Place, Region, Width, BLOCK_SPAN, MAX_BLOCKS, MAX_BLOCK_BYTES, MAX_STACK_SLOTS, REGION_SPAN,
};
use crate::vm::num::{
    int_order, low_u32_of, shift_left, shift_right_arith, shift_right_logical, signed,
    tri_state, trunc_div, wrap,
};
use crate::vm::text::{
    char_bytes, line_end, next_token, parse_int, signed_decimal, token_consumed,
};
use vstd::prelude::*;

verus! {

/// How a comparison reads the two slots that it orders.
#[derive(Debug, PartialEq, Eq, Clone, Copy, Structural)]
pub enum Reading {
    /// As two's-complement signed integers.
    Signed,
    /// As unsigned integers.
    Unsigned,
    /// As IEEE-754 doubles.
    Double,
}

impl Reading {
    /// -1, 0 or 1 as `lhs` is less than, equal to or greater than `rhs`
    /// under this reading; two doubles of which one is a NaN have the
    /// order 0.
    pub open spec fn order(self, lhs: u64, rhs: u64) -> int {
        match self {
            Reading::Signed => int_order(signed(lhs), signed(rhs)),
            Reading::Unsigned => int_order(lhs as int, rhs as int),
            Reading::Double => float_order(lhs, rhs),
        }
    }
}

/// What a step leaves behind: nothing more to do, work on doubles for the
/// embedder, or the reason why the run has ended.
pub type Outcome = Result<Option<FloatTask>, Error>;

/// The state of a machine between two instructions.
#[verifier::ext_equal]
pub struct State {
    /// The program, which a run never changes.
    pub prog: S0,
    /// The most slots that the stack may hold.
    pub max_stack: nat,
    /// The stack, bottom first.
    pub stack: Seq<u64>,
    /// The function that is running.
    pub fn_id: nat,
    /// The next instruction of that function.
    pub ip: nat,
    /// The base of the frame: the slot behind the locals. In a called
    /// function the three slots from here hold the caller's `bp`, `ip` and
    /// `fn_id`.
    pub bp: nat,
    /// The number of calls that have not returned.
    pub depth: nat,
    /// The heap, by block id.
    pub heap: Seq<Block>,
    /// The storage of the globals, by index.
    pub globals: Seq<Block>,
    /// The input that has not been read.
    pub input: Seq<u8>,
    /// The output that the embedder has not taken.
    pub output: Seq<u8>,
}

impl State {
    /// The function that is running.
    pub open spec fn cur_fn(self) -> FnDef {
        self.prog.functions@[self.fn_id as int]
    }

    /// What holds of a machine between any two instructions.
    pub open spec fn wf(self) -> bool {
        &&& self.fn_id < self.prog.functions@.len()
        &&& self.fn_id <= u32::MAX
        &&& self.ip <= self.cur_fn().ins@.len()
        &&& self.cur_fn().param_slots + self.cur_fn().loc_slots <= self.bp
        &&& self.floor() <= self.stack.len()
        &&& self.stack.len() <= self.max_stack
        &&& self.max_stack <= MAX_STACK_SLOTS
        &&& self.depth <= self.max_stack
        &&& self.heap.len() <= MAX_BLOCKS
        &&& self.globals.len() <= MAX_BLOCKS
        &&& self.globals.len() == self.prog.globals@.len()
        &&& forall|i: int| 0 <= i < self.heap.len() ==> (#[trigger] self.heap[i]).wf()
        &&& forall|i: int|
            0 <= i < self.globals.len() ==> (#[trigger] self.globals[i]).wf()
                && self.globals[i].live
    }

    /// The slot of the first argument of the running function.
    pub open spec fn args_base(self) -> int {
        self.bp - self.cur_fn().loc_slots - self.cur_fn().param_slots
    }

    /// The slot of the first local of the running function.
    pub open spec fn locals_base(self) -> int {
        self.bp - self.cur_fn().loc_slots
    }

    /// The stack floor: the lowest slot that can hold an operand of the
    /// running function. It is the frame base in the start function, and the
    /// slot behind the saved caller state in a called one. No pop reaches
    /// below it.
    pub open spec fn floor(self) -> nat {
        if self.depth == 0 {
            self.bp
        } else {
            self.bp + 3
        }
    }

    /// The slots that the caller's own saved state takes above its frame
    /// base: none where the caller is the start function.
    pub open spec fn caller_link(self) -> nat {
        if self.depth <= 1 {
            0
        } else {
            3
        }
    }

    /// The opcode byte of the instruction that was fetched last.
    pub open spec fn last_code(self) -> u8 {
        if 0 < self.ip <= self.cur_fn().ins@.len() {
            self.cur_fn().ins@[self.ip - 1].spec_code()
        } else {
            0
        }
    }

    /// Where the instruction that was fetched last stands, as a refusal
    /// reports it.
    pub open spec fn refusal(self, inst: u8) -> Error {
        Error::InvalidInstruction(
            InvalidInstructionCtx {
                inst,
                fn_id: self.fn_id as u32,
                inst_off: (if self.ip > 0 {
                    self.ip - 1
                } else {
                    0
                }) as u64,
            },
        )
    }

    // ==== the stack

    /// Pushes a slot; a stack that is full overflows.
    pub open spec fn push(self, x: u64) -> (State, Result<(), Error>) {
        if self.stack.len() >= self.max_stack {
            (self, Err(Error::StackOverflow))
        } else {
            (State { stack: self.stack.push(x), ..self }, Ok(()))
        }
    }

    /// Pops the top slot; a stack with no slot above the floor underflows.
    pub open spec fn pop(self) -> (State, Result<u64, Error>) {
        if self.stack.len() <= self.floor() {
            (self, Err(Error::StackUnderflow))
        } else {
            (State { stack: self.stack.drop_last(), ..self }, Ok(self.stack.last()))
        }
    }

    /// Two pops: the first gives the left operand, the second the right one.
    pub open spec fn pop2(self) -> (State, Result<(u64, u64), Error>) {
        let (s1, first) = self.pop();
        match first {
            Err(e) => (s1, Err(e)),
            Ok(lhs) => {
                let (s2, second) = s1.pop();
                match second {
                    Err(e) => (s2, Err(e)),
                    Ok(rhs) => (s2, Ok((lhs, rhs))),
                }
            },
        }
    }

    /// Removes the `n` top slots, or none where fewer lie above the floor.
    pub open spec fn pop_n(self, n: u32) -> (State, Result<(), Error>) {
        if self.floor() + n > self.stack.len() {
            (self, Err(Error::StackUnderflow))
        } else {
            (State { stack: self.stack.take(self.stack.len() - n), ..self }, Ok(()))
        }
    }

    /// Pushes a copy of the top slot.
    pub open spec fn dup(self) -> (State, Result<(), Error>) {
        if self.stack.len() <= self.floor() {
            (self, Err(Error::StackUnderflow))
        } else {
            self.push(self.stack.last())
        }
    }

    /// Pushes `count` zero slots; where they do not all fit, as many as fit.
    pub open spec fn stack_alloc(self, count: u32) -> (State, Result<(), Error>) {
        if self.stack.len() + count > self.max_stack {
            (
                State {
                    stack: self.stack + zeros((self.max_stack - self.stack.len()) as nat),
                    ..self
                },
                Err(Error::StackOverflow),
            )
        } else {
            (State { stack: self.stack + zeros(count as nat), ..self }, Ok(()))
        }
    }

    /// Pops one slot and pushes what `f` makes of it.
    pub open spec fn unary(self, f: spec_fn(u64) -> u64) -> (State, Result<(), Error>) {
        let (s, x) = self.pop();
        match x {
            Err(e) => (s, Err(e)),
            Ok(x) => s.push(f(x)),
        }
    }

    /// Pops the left operand, then the right one, and pushes what `f` makes
    /// of them.
    pub open spec fn binary(self, f: spec_fn(u64, u64) -> u64) -> (State, Result<(), Error>) {
        let (s, args) = self.pop2();
        match args {
            Err(e) => (s, Err(e)),
            Ok((lhs, rhs)) => s.push(f(lhs, rhs)),
        }
    }

    // ==== addresses

    /// Pushes the address of local `a` of the running function.
    pub open spec fn loc_a(self, a: u32) -> (State, Result<(), Error>) {
        if a >= self.cur_fn().loc_slots {
            (self, Err(Error::InvalidLocalIndex(a)))
        } else {
            self.push(stack_addr(self.locals_base() + a))
        }
    }

    /// Pushes the address of argument `a` of the running function.
    pub open spec fn arg_a(self, a: u32) -> (State, Result<(), Error>) {
        if a >= self.cur_fn().param_slots {
            (self, Err(Error::InvalidLocalIndex(a)))
        } else {
            self.push(stack_addr(self.args_base() + a))
        }
    }

    /// Pushes the address of global `a`.
    pub open spec fn glob_a(self, a: u32) -> (State, Result<(), Error>) {
        if a >= self.globals.len() {
            (self, Err(Error::InvalidGlobalIndex(a)))
        } else {
            self.push(global_addr(a as int))
        }
    }

    // ==== memory

    /// The region that an access of `width` at `addr` falls into, if it
    /// lies within live memory that may be accessed so, and its offset there.
    pub open spec fn region_of(self, addr: u64, width: Width, write: bool) -> Option<
        (Region, u64),
    > {
        let tag = addr / REGION_SPAN;
        let rest = (addr % REGION_SPAN) as u64;
        let id = (rest / BLOCK_SPAN) as int;
        let off = (rest % BLOCK_SPAN) as u64;
        if tag == 1 {
            if rest + width.spec_bytes() <= 8 * self.stack.len() {
                Some((Region::Stack, rest))
            } else {
                None
            }
        } else if tag == 2 {
            if id < self.heap.len() && self.heap[id].live && off + width.spec_bytes()
                <= self.heap[id].len {
                Some((Region::Heap(id), off))
            } else {
                None
            }
        } else if tag == 3 {
            if id < self.globals.len() && (self.globals[id].writable || !write) && off
                + width.spec_bytes() <= self.globals[id].len {
                Some((Region::Global(id), off))
            } else {
                None
            }
        } else {
            None
        }
    }

    /// Grants or refuses an access. One that does not lie within live memory
    /// is refused as `InvalidAddress`, whatever its alignment; one that does,
    /// at an address that is no multiple of its width, as `UnalignedAccess`.
    pub open spec fn locate(self, addr: u64, width: Width, write: bool) -> Result<Place, Error> {
        match self.region_of(addr, width, write) {
            None => Err(Error::InvalidAddress(addr)),
            Some((region, off)) => if off % width.spec_bytes() != 0 {
                Err(Error::UnalignedAccess(addr))
            } else {
                Ok(place_at(region, off))
            },
        }
    }

    /// The words of a region.
    pub open spec fn words(self, region: Region) -> Seq<u64> {
        match region {
            Region::Stack => self.stack,
            Region::Heap(id) => self.heap[id].words,
            Region::Global(id) => self.globals[id].words,
        }
    }

    /// The state with one word of a region replaced.
    pub open spec fn with_word(self, region: Region, word: int, value: u64) -> State {
        match region {
            Region::Stack => State { stack: self.stack.update(word, value), ..self },
            Region::Heap(id) => State {
                heap: self.heap.update(
                    id,
                    Block { words: self.heap[id].words.update(word, value), ..self.heap[id] },
                ),
                ..self
            },
            Region::Global(id) => State {
                globals: self.globals.update(
                    id,
                    Block {
                        words: self.globals[id].words.update(word, value),
                        ..self.globals[id]
                    },
                ),
                ..self
            },
        }
    }

    /// What a load of `width` at `addr` reads, zero-extended.
    pub open spec fn read(self, addr: u64, width: Width) -> Result<u64, Error> {
        match self.locate(addr, width, false) {
            Err(e) => Err(e),
            Ok(p) => Ok(word_get(self.words(p.region)[p.word], p.shift, width.spec_mask())),
        }
    }

    /// The state after a store of the low bits of `val` at `addr`.
    pub open spec fn write(self, addr: u64, width: Width, val: u64) -> (State, Result<
        (),
        Error,
    >) {
        match self.locate(addr, width, true) {
            Err(e) => (self, Err(e)),
            Ok(p) => (
                self.with_word(
                    p.region,
                    p.word,
                    word_set(self.words(p.region)[p.word], p.shift, width.spec_mask(), val),
                ),
                Ok(()),
            ),
        }
    }

    /// Pops an address and pushes what a load of `width` reads there.
    pub open spec fn load(self, width: Width) -> (State, Result<(), Error>) {
        let (s, addr) = self.pop();
        match addr {
            Err(e) => (s, Err(e)),
            Ok(addr) => match s.read(addr, width) {
                Err(e) => (s, Err(e)),
                Ok(v) => s.push(v),
            },
        }
    }

    /// Pops the value, then the address, and stores.
    pub open spec fn store(self, width: Width) -> (State, Result<(), Error>) {
        let (s, args) = self.pop2();
        match args {
            Err(e) => (s, Err(e)),
            Ok((val, addr)) => s.write(addr, width, val),
        }
    }

    /// Pops a size in bytes and pushes the address of a fresh block of that
    /// size, filled with zeros. Its id has never named another block.
    pub open spec fn allocate(self) -> (State, Result<(), Error>) {
        let (s, len) = self.pop();
        match len {
            Err(e) => (s, Err(e)),
            Ok(len) => if len > MAX_BLOCK_BYTES || s.heap.len() >= MAX_BLOCKS {
                (s, Err(Error::OutOfMemory))
            } else {
                State {
                    heap: s.heap.push(
                        Block {
                            words: zeros(words_for(len as nat)),
                            len: len as nat,
                            live: true,
                            writable: true,
                        },
                    ),
                    ..s
                }.push(heap_addr(s.heap.len() as int))
            },
        }
    }

    /// The id of the live heap block that starts at `addr`, if there is one.
    pub open spec fn block_at(self, addr: u64) -> Option<int> {
        let id = ((addr % REGION_SPAN) / BLOCK_SPAN) as int;
        if addr / REGION_SPAN == 2 && addr % BLOCK_SPAN == 0 && id < self.heap.len()
            && self.heap[id].live {
            Some(id)
        } else {
            None
        }
    }

    /// Pops an address and frees the block that starts there.
    pub open spec fn free(self) -> (State, Result<(), Error>) {
        let (s, addr) = self.pop();
        match addr {
            Err(e) => (s, Err(e)),
            Ok(addr) => match s.block_at(addr) {
                None => (s, Err(Error::InvalidAddress(addr))),
                Some(id) => (
                    State {
                        heap: s.heap.update(
                            id,
                            Block { words: Seq::empty(), live: false, ..s.heap[id] },
                        ),
                        ..s
                    },
                    Ok(()),
                ),
            },
        }
    }

    // ==== arithmetic

    /// The sum of two slots modulo 2^64.
    pub open spec fn add_i(self) -> (State, Result<(), Error>) {
        self.binary(|lhs: u64, rhs: u64| wrap(lhs + rhs))
    }

    /// The left slot less the right one, modulo 2^64.
    pub open spec fn sub_i(self) -> (State, Result<(), Error>) {
        self.binary(|lhs: u64, rhs: u64| wrap(lhs - rhs))
    }

    /// The product of two slots modulo 2^64.
    pub open spec fn mul_i(self) -> (State, Result<(), Error>) {
        self.binary(|lhs: u64, rhs: u64| wrap(lhs * rhs))
    }

    /// Signed division, rounded toward zero. The one quotient that no slot
    /// holds as signed, that of the least integer by -1, wraps to the least
    /// integer.
    pub open spec fn div_i(self) -> (State, Result<(), Error>) {
        let (s, args) = self.pop2();
        match args {
            Err(e) => (s, Err(e)),
            Ok((lhs, rhs)) => if rhs == 0 {
                (s, Err(Error::DivZero))
            } else {
                s.push(wrap(trunc_div(signed(lhs), signed(rhs))))
            },
        }
    }

    /// The unsigned quotient; a divisor of zero is an error.
    pub open spec fn div_u(self) -> (State, Result<(), Error>) {
        let (s, args) = self.pop2();
        match args {
            Err(e) => (s, Err(e)),
            Ok((lhs, rhs)) => if rhs == 0 {
                (s, Err(Error::DivZero))
            } else {
                s.push(lhs / rhs)
            },
        }
    }

    /// The left slot shifted left by the right one.
    pub open spec fn shl(self) -> (State, Result<(), Error>) {
        self.binary(|lhs: u64, rhs: u64| shift_left(lhs, rhs))
    }

    /// The left slot shifted right by the right one, the sign bit filling in.
    pub open spec fn shr(self) -> (State, Result<(), Error>) {
        self.binary(|lhs: u64, rhs: u64| shift_right_arith(lhs, rhs))
    }

    /// The left slot shifted right by the right one, zeros filling in.
    pub open spec fn shr_l(self) -> (State, Result<(), Error>) {
        self.binary(|lhs: u64, rhs: u64| shift_right_logical(lhs, rhs))
    }

    /// The bitwise and of two slots.
    pub open spec fn and(self) -> (State, Result<(), Error>) {
        self.binary(|lhs: u64, rhs: u64| lhs & rhs)
    }

    /// The bitwise or of two slots.
    pub open spec fn or(self) -> (State, Result<(), Error>) {
        self.binary(|lhs: u64, rhs: u64| lhs | rhs)
    }

    /// The bitwise exclusive or of two slots.
    pub open spec fn xor(self) -> (State, Result<(), Error>) {
        self.binary(|lhs: u64, rhs: u64| lhs ^ rhs)
    }

    /// The bitwise complement of the top slot.
    pub open spec fn not(self) -> (State, Result<(), Error>) {
        self.unary(|x: u64| !x)
    }

    /// The negation of the top slot modulo 2^64.
    pub open spec fn neg_i(self) -> (State, Result<(), Error>) {
        self.unary(|x: u64| wrap(-(x as int)))
    }

    /// The top slot with the sign bit of a double flipped.
    pub open spec fn neg_f(self) -> (State, Result<(), Error>) {
        self.unary(|x: u64| float_neg(x))
    }

    // ==== comparison

    /// Pops the left operand, then the right one, and pushes their order
    /// under the given reading of the slots.
    pub open spec fn order_t(self, reading: Reading) -> (State, Result<(), Error>) {
        self.binary(|lhs: u64, rhs: u64| tri_state(reading.order(lhs, rhs)))
    }

    /// The order of two slots as signed integers.
    pub open spec fn order_i(self) -> (State, Result<(), Error>) {
        self.order_t(Reading::Signed)
    }

    /// The order of two slots as unsigned integers.
    pub open spec fn order_u(self) -> (State, Result<(), Error>) {
        self.order_t(Reading::Unsigned)
    }

    /// The order of two slots as doubles.
    pub open spec fn order_f(self) -> (State, Result<(), Error>) {
        self.order_t(Reading::Double)
    }

    /// Replaces the top slot by 1 where it reads as negative, by 0 otherwise.
    pub open spec fn set_lt(self) -> (State, Result<(), Error>) {
        self.unary(
            |x: u64|
                if signed(x) < 0 {
                    1u64
                } else {
                    0u64
                },
        )
    }

    /// Replaces the top slot by 1 where it reads as positive, by 0 otherwise.
    pub open spec fn set_gt(self) -> (State, Result<(), Error>) {
        self.unary(
            |x: u64|
                if signed(x) > 0 {
                    1u64
                } else {
                    0u64
                },
        )
    }

    // ==== doubles

    /// Pops the left operand, then the right one, and hands them out.
    pub open spec fn float_binary(self, task: spec_fn(u64, u64) -> FloatTask) -> (State, Result<
        FloatTask,
        Error,
    >) {
        let (s, args) = self.pop2();
        match args {
            Err(e) => (s, Err(e)),
            Ok((lhs, rhs)) => (s, Ok(task(lhs, rhs))),
        }
    }

    /// Pops one slot and hands it out.
    pub open spec fn float_unary(self, task: spec_fn(u64) -> FloatTask) -> (State, Result<
        FloatTask,
        Error,
    >) {
        let (s, x) = self.pop();
        match x {
            Err(e) => (s, Err(e)),
            Ok(x) => (s, Ok(task(x))),
        }
    }

    /// Hands out the sum of two doubles.
    pub open spec fn add_f(self) -> (State, Result<FloatTask, Error>) {
        self.float_binary(|lhs: u64, rhs: u64| FloatTask::Add { lhs, rhs })
    }

    /// Hands out the difference of two doubles.
    pub open spec fn sub_f(self) -> (State, Result<FloatTask, Error>) {
        self.float_binary(|lhs: u64, rhs: u64| FloatTask::Sub { lhs, rhs })
    }

    /// Hands out the product of two doubles.
    pub open spec fn mul_f(self) -> (State, Result<FloatTask, Error>) {
        self.float_binary(|lhs: u64, rhs: u64| FloatTask::Mul { lhs, rhs })
    }

    /// Hands out the quotient of two doubles.
    pub open spec fn div_f(self) -> (State, Result<FloatTask, Error>) {
        self.float_binary(|lhs: u64, rhs: u64| FloatTask::Div { lhs, rhs })
    }

    /// Hands out the conversion of a signed integer to a double.
    pub open spec fn itof(self) -> (State, Result<FloatTask, Error>) {
        self.float_unary(|x: u64| FloatTask::FromInt(x))
    }

    /// Hands out the conversion of a double to a signed integer.
    pub open spec fn ftoi(self) -> (State, Result<FloatTask, Error>) {
        self.float_unary(|x: u64| FloatTask::ToInt(x))
    }

    /// Hands out the printing of a double.
    pub open spec fn print_f(self) -> (State, Result<FloatTask, Error>) {
        self.float_unary(|x: u64| FloatTask::Print(x))
    }

    // ==== control

    /// Moves `ip` by `off` instructions. A target outside the function,
    /// whose end counts as inside, is refused and nothing changes.
    pub open spec fn br(self, off: i32) -> (State, Result<(), Error>) {
        if 0 <= self.ip + off <= self.cur_fn().ins@.len() {
            (State { ip: (self.ip + off) as nat, ..self }, Ok(()))
        } else {
            (self, Err(Error::InvalidInstructionOffset))
        }
    }

    /// Pops one slot and branches where `taken` holds of it.
    pub open spec fn br_if(self, taken: spec_fn(u64) -> bool, off: i32) -> (State, Result<
        (),
        Error,
    >) {
        let (s, x) = self.pop();
        match x {
            Err(e) => (s, Err(e)),
            Ok(x) => if taken(x) {
                s.br(off)
            } else {
                (s, Ok(()))
            },
        }
    }

    /// Pops a slot and branches where it is zero.
    pub open spec fn bz(self, off: i32) -> (State, Result<(), Error>) {
        self.br_if(|x: u64| x == 0, off)
    }

    /// Pops a slot and branches where it is not zero.
    pub open spec fn bnz(self, off: i32) -> (State, Result<(), Error>) {
        self.br_if(|x: u64| x != 0, off)
    }

    /// Pops a slot and branches where it reads as negative.
    pub open spec fn bl(self, off: i32) -> (State, Result<(), Error>) {
        self.br_if(|x: u64| signed(x) < 0, off)
    }

    /// Pops a slot and branches where it reads as positive.
    pub open spec fn bg(self, off: i32) -> (State, Result<(), Error>) {
        self.br_if(|x: u64| signed(x) > 0, off)
    }

    /// Pops a slot and branches where it reads as negative or zero.
    pub open spec fn blz(self, off: i32) -> (State, Result<(), Error>) {
        self.br_if(|x: u64| signed(x) <= 0, off)
    }

    /// Pops a slot and branches where it reads as positive or zero.
    pub open spec fn bgz(self, off: i32) -> (State, Result<(), Error>) {
        self.br_if(|x: u64| signed(x) >= 0, off)
    }

    /// Enters function `id`. The caller has pushed the arguments; the call
    /// pushes the locals as zeros and then the caller's `bp`, `ip` and
    /// `fn_id`, whose first slot is the new `bp`.
    pub open spec fn call(self, id: u32) -> (State, Result<(), Error>) {
        if id >= self.prog.functions@.len() {
            (self, Err(Error::InvalidFnId(id)))
        } else if self.stack.len() < self.floor() + self.prog.functions@[id as int].param_slots {
            (self, Err(Error::StackUnderflow))
        } else if self.depth >= self.max_stack {
            (self, Err(Error::StackOverflow))
        } else {
            let (s1, r1) = self.stack_alloc(self.prog.functions@[id as int].loc_slots);
            if r1 is Err {
                (s1, r1)
            } else {
                let (s2, r2) = s1.push(self.bp as u64);
                if r2 is Err {
                    (s2, r2)
                } else {
                    let (s3, r3) = s2.push(self.ip as u64);
                    if r3 is Err {
                        (s3, r3)
                    } else {
                        let (s4, r4) = s3.push(self.fn_id as u64);
                        if r4 is Err {
                            (s4, r4)
                        } else {
                            (
                                State {
                                    fn_id: id as nat,
                                    ip: 0,
                                    bp: s1.stack.len(),
                                    depth: self.depth + 1,
                                    ..s4
                                },
                                Ok(()),
                            )
                        }
                    }
                }
            }
        }
    }

    /// Enters the function that entry `idx` of the name table resolves to.
    pub open spec fn call_name(self, idx: u32) -> (State, Result<(), Error>) {
        if idx >= self.prog.names@.len() {
            (self, Err(Error::InvalidFnId(idx)))
        } else {
            self.call(self.prog.names@[idx as int])
        }
    }

    /// Leaves the running function. In the start function this ends the run
    /// cleanly. In a called one it reads the caller's state from the three
    /// slots at `bp`, cuts the stack at the first argument and goes on in
    /// the caller; where what it reads is not the state of a well-formed
    /// frame below the cut, it fails and nothing changes.
    pub open spec fn ret(self) -> (State, Result<(), Error>) {
        if self.depth == 0 {
            (self, Err(Error::Halt))
        } else {
            let old_bp = self.stack[self.bp as int];
            let old_ip = self.stack[self.bp as int + 1];
            let old_fn = self.stack[self.bp as int + 2];
            if old_fn >= self.prog.functions@.len() || old_fn > u32::MAX {
                (self, Err(Error::InvalidFnId(low_u32_of(old_fn))))
            } else if old_ip > self.prog.functions@[old_fn as int].ins@.len() {
                (self, Err(Error::InvalidInstructionOffset))
            } else if old_bp + self.caller_link() > self.args_base() || old_bp
                < self.prog.functions@[old_fn as int].param_slots
                + self.prog.functions@[old_fn as int].loc_slots {
                (self, Err(Error::StackUnderflow))
            } else {
                (
                    State {
                        stack: self.stack.take(self.args_base()),
                        fn_id: old_fn as nat,
                        ip: old_ip as nat,
                        bp: old_bp as nat,
                        depth: (self.depth - 1) as nat,
                        ..self
                    },
                    Ok(()),
                )
            }
        }
    }

    // ==== input and output

    /// Takes one byte off the input and pushes it.
    pub open spec fn scan_c(self) -> (State, Result<(), Error>) {
        if self.input.len() == 0 {
            (self, Err(Error::IoError))
        } else {
            State { input: self.input.skip(1), ..self }.push(self.input[0] as u64)
        }
    }

    /// Takes the next token off the input, with the white space in front of
    /// it and the one byte of white space that ends it.
    pub open spec fn read_token(self) -> (State, Seq<u8>) {
        (
            State { input: self.input.skip(token_consumed(self.input) as int), ..self },
            next_token(self.input),
        )
    }

    /// Takes a token off the input and pushes the signed integer that it
    /// writes.
    pub open spec fn scan_i(self) -> (State, Result<(), Error>) {
        let (s, tok) = self.read_token();
        match parse_int(tok) {
            None => (s, Err(Error::ParseError)),
            Some(v) => s.push(wrap(v)),
        }
    }

    /// The state with `bytes` added to the output.
    pub open spec fn emit(self, bytes: Seq<u8>) -> State {
        State { output: self.output + bytes, ..self }
    }

    /// Pops a slot and writes it as a signed integer in decimal.
    pub open spec fn print_i(self) -> (State, Result<(), Error>) {
        let (s, x) = self.pop();
        match x {
            Err(e) => (s, Err(e)),
            Ok(x) => (s.emit(signed_decimal(signed(x))), Ok(())),
        }
    }

    /// Pops a slot and writes the character whose code is its low byte.
    pub open spec fn print_c(self) -> (State, Result<(), Error>) {
        let (s, x) = self.pop();
        match x {
            Err(e) => (s, Err(e)),
            Ok(x) => (s.emit(char_bytes((x % 256) as u8)), Ok(())),
        }
    }

    /// Writes the bytes of memory from `addr + i` up to `addr + len`, one
    /// load each, and stops at the first that is refused.
    pub open spec fn print_bytes(self, addr: u64, len: u64, i: u64) -> (State, Result<(), Error>)
        decreases len - i,
    {
        if i >= len {
            (self, Ok(()))
        } else {
            match self.read(wrap(addr + i), Width::W8) {
                Err(e) => (self, Err(e)),
                Ok(b) => self.emit(seq![b as u8]).print_bytes(addr, len, (i + 1) as u64),
            }
        }
    }

    /// Pops an address, then a length, and writes that many bytes of memory.
    pub open spec fn print_s(self) -> (State, Result<(), Error>) {
        let (s, args) = self.pop2();
        match args {
            Err(e) => (s, Err(e)),
            Ok((addr, len)) => s.print_bytes(addr, len, 0),
        }
    }

    /// Writes the end of a line.
    pub open spec fn print_ln(self) -> (State, Result<(), Error>) {
        (self.emit(line_end()), Ok(()))
    }

    // ==== the driver

    /// What one instruction makes of a state whose `ip` has moved past it.
    pub open spec fn exec(self, op: Op) -> (State, Outcome) {
        match op {
            Op::Nop => (self, Ok(None)),
            Op::Push(x) => done(self.push(x)),
            Op::Pop => done(discard(self.pop())),
            Op::PopN(n) => done(self.pop_n(n)),
            Op::Dup => done(self.dup()),
            Op::LocA(a) => done(self.loc_a(a)),
            Op::ArgA(a) => done(self.arg_a(a)),
            Op::GlobA(a) => done(self.glob_a(a)),
            Op::Load8 => done(self.load(Width::W8)),
            Op::Load16 => done(self.load(Width::W16)),
            Op::Load32 => done(self.load(Width::W32)),
            Op::Load64 => done(self.load(Width::W64)),
            Op::Store8 => done(self.store(Width::W8)),
            Op::Store16 => done(self.store(Width::W16)),
            Op::Store32 => done(self.store(Width::W32)),
            Op::Store64 => done(self.store(Width::W64)),
            Op::Alloc => done(self.allocate()),
            Op::Free => done(self.free()),
            Op::StackAlloc(n) => done(self.stack_alloc(n)),
            Op::AddI => done(self.add_i()),
            Op::SubI => done(self.sub_i()),
            Op::MulI => done(self.mul_i()),
            Op::DivI => done(self.div_i()),
            Op::AddF => handed(self.add_f()),
            Op::SubF => handed(self.sub_f()),
            Op::MulF => handed(self.mul_f()),
            Op::DivF => handed(self.div_f()),
            Op::DivU => done(self.div_u()),
            Op::Shl => done(self.shl()),
            Op::Shr => done(self.shr()),
            Op::And => done(self.and()),
            Op::Or => done(self.or()),
            Op::Xor => done(self.xor()),
            Op::Not => done(self.not()),
            Op::CmpI => done(self.order_i()),
            Op::CmpU => done(self.order_u()),
            Op::CmpF => done(self.order_f()),
            Op::NegI => done(self.neg_i()),
            Op::NegF => done(self.neg_f()),
            Op::IToF => handed(self.itof()),
            Op::FToI => handed(self.ftoi()),
            Op::ShrL => done(self.shr_l()),
            Op::SetLt => done(self.set_lt()),
            Op::SetGt => done(self.set_gt()),
            Op::BrA(_) => (self, Err(self.refusal(0x40))),
            Op::Br(off) => done(self.br(off)),
            Op::BrFalse(off) => done(self.bz(off)),
            Op::BrTrue(off) => done(self.bnz(off)),
            Op::Call(id) => done(self.call(id)),
            Op::CallName(idx) => done(self.call_name(idx)),
            Op::Ret => done(self.ret()),
            Op::ScanI => done(self.scan_i()),
            Op::ScanC => done(self.scan_c()),
            Op::ScanF => (self, Ok(Some(FloatTask::Scan))),
            Op::PrintI => done(self.print_i()),
            Op::PrintC => done(self.print_c()),
            Op::PrintF => handed(self.print_f()),
            Op::PrintS => done(self.print_s()),
            Op::PrintLn => done(self.print_ln()),
            Op::Panic => (self, Err(Error::Halt)),
        }
    }

    /// One step: fetch the instruction at `ip`, move `ip` past it, and carry
    /// it out. At the end of the function there is nothing to fetch.
    pub open spec fn step(self) -> (State, Outcome) {
        if self.ip >= self.cur_fn().ins@.len() {
            (self, Err(Error::ControlReachesEnd(self.fn_id as u32)))
        } else {
            State { ip: self.ip + 1, ..self }.exec(self.cur_fn().ins@[self.ip as int])
        }
    }

    /// Up to `fuel` steps: the machine steps until a step ends the run or
    /// leaves work for the embedder, or until the steps are used up.
    pub open spec fn run(self, fuel: nat) -> (State, Outcome)
        decreases fuel,
    {
        if fuel == 0 {
            (self, Ok(None))
        } else {
            let (s, r) = self.step();
            if r == Ok::<Option<FloatTask>, Error>(None) {
                s.run((fuel - 1) as nat)
            } else {
                (s, r)
            }
        }
    }
}

/// An instruction that left nothing for the embedder.
pub open spec fn done(r: (State, Result<(), Error>)) -> (State, Outcome) {
    match r.1 {
        Ok(_) => (r.0, Ok(None)),
        Err(e) => (r.0, Err(e)),
    }
}

/// An instruction that left work on doubles for the embedder.
pub open spec fn handed(r: (State, Result<FloatTask, Error>)) -> (State, Outcome) {
    match r.1 {
        Ok(task) => (r.0, Ok(Some(task))),
        Err(e) => (r.0, Err(e)),
    }
}

/// A pop whose value nobody reads.
pub open spec fn discard(r: (State, Result<u64, Error>)) -> (State, Result<(), Error>) {
    match r.1 {
        Ok(_) => (r.0, Ok(())),
        Err(e) => (r.0, Err(e)),
    }
}

/// The state in which a run of `prog` starts: in function 0, with zeros for
/// its arguments and locals on the stack, an empty heap, and each global
/// holding its initial bytes.
pub open spec fn initial_state(prog: S0, max_stack: nat, input: Seq<u8>) -> State {
    State {
        prog,
        max_stack,
        stack: zeros((prog.functions@[0].param_slots + prog.functions@[0].loc_slots) as nat),
        fn_id: 0,
        ip: 0,
        bp: (prog.functions@[0].param_slots + prog.functions@[0].loc_slots) as nat,
        depth: 0,
        heap: Seq::empty(),
        globals: Seq::new(prog.globals@.len(), |i: int| global_block(prog.globals@[i].bytes@, !prog.globals@[i].is_const)),
        input,
        output: Seq::empty(),
    }
}

/// The word at index `w` of the storage of bytes `bytes`: eight bytes, the
/// first in the low end, with zeros behind the last byte.
pub open spec fn packed_word(bytes: Seq<u8>, w: int) -> u64 {
    byte_or_zero(bytes, 8 * w) | byte_or_zero(bytes, 8 * w + 1) << 8 | byte_or_zero(
        bytes,
        8 * w + 2,
    ) << 16 | byte_or_zero(bytes, 8 * w + 3) << 24 | byte_or_zero(bytes, 8 * w + 4) << 32
        | byte_or_zero(bytes, 8 * w + 5) << 40 | byte_or_zero(bytes, 8 * w + 6) << 48
        | byte_or_zero(bytes, 8 * w + 7) << 56
}

/// The byte at `i`, widened, or 0 behind the end.
pub open spec fn byte_or_zero(bytes: Seq<u8>, i: int) -> u64 {
    if 0 <= i < bytes.len() {
        bytes[i] as u64
    } else {
        0
    }
}

/// The storage of a global that starts out as `bytes`.
pub open spec fn global_block(bytes: Seq<u8>, writable: bool) -> Block {
    Block {
        words: Seq::new(words_for(bytes.len()), |w: int| packed_word(bytes, w)),
        len: bytes.len(),
        live: true,
        writable,
    }
}

} // verus!
