//! The virtual machine: a stack of 64-bit slots, a heap of blocks, the
//! globals, and the place in the program where it stands.

pub mod access;
pub mod compare;
pub mod control;
pub mod driver;
pub mod floats;
pub mod io;
pub mod laws;
pub mod mem;
pub mod num;
pub mod ops;
pub mod state;
pub mod text;

use crate::error::Error;
use crate::opcodes::Op;
use crate::s0::{FnDef, S0};
use crate::vm::mem::{words_for, Block, MAX_BLOCKS, MAX_BLOCK_BYTES, MAX_STACK_SLOTS};
use crate::vm::state::{
    byte_or_zero, global_block, initial_state, packed_word, Outcome, State,
};
use vstd::prelude::*;

verus! {

/// A block of memory: a heap allocation or the storage of a global.
pub struct MemBlock {
    pub(crate) words: Vec<u64>,
    pub(crate) len: usize,
    pub(crate) live: bool,
    pub(crate) writable: bool,
}

impl View for MemBlock {
    type V = Block;

    open(crate) spec fn view(&self) -> Block {
        Block { words: self.words@, len: self.len as nat, live: self.live, writable: self.writable }
    }
}

/// The blocks of a region as the contracts see them.
pub open(crate) spec fn blocks_view(blocks: Seq<MemBlock>) -> Seq<Block> {
    Seq::new(blocks.len(), |i: int| blocks[i]@)
}

/// A machine that runs one program. Its input is a queue of bytes that the
/// embedder fills, its output a run of bytes that the embedder takes.
pub struct R0Vm<'src> {
    pub(crate) src: &'src S0,
    pub(crate) max_stack_size: usize,
    pub(crate) stack: Vec<u64>,
    pub(crate) fn_info: &'src FnDef,
    pub(crate) fn_id: usize,
    pub(crate) ip: usize,
    pub(crate) bp: usize,
    pub(crate) depth: usize,
    pub(crate) heap: Vec<MemBlock>,
    pub(crate) globals: Vec<MemBlock>,
    pub(crate) stdin: Vec<u8>,
    pub(crate) stdin_pos: usize,
    pub(crate) stdout: Vec<u8>,
}

impl<'src> View for R0Vm<'src> {
    type V = State;

    open(crate) spec fn view(&self) -> State {
        State {
            prog: *self.src,
            max_stack: self.max_stack_size as nat,
            stack: self.stack@,
            fn_id: self.fn_id as nat,
            ip: self.ip as nat,
            bp: self.bp as nat,
            depth: self.depth as nat,
            heap: blocks_view(self.heap@),
            globals: blocks_view(self.globals@),
            input: self.stdin@.skip(self.stdin_pos as int),
            output: self.stdout@,
        }
    }
}

impl<'src> R0Vm<'src> {
    /// What holds of a machine between any two instructions: its state is
    /// well formed, and it knows the function that it runs.
    pub open(crate) spec fn wf(&self) -> bool {
        &&& self@.wf()
        &&& self.stdin_pos <= self.stdin@.len()
        &&& *self.fn_info == self.src.functions@[self.fn_id as int]
    }

    /// A machine that is about to run `src` from its function 0, with the
    /// given input and the default bound on its stack.
    ///
    /// A program without functions has no entry point. A program with more
    /// globals, or a larger global, than the address space can name is out
    /// of memory before it runs. A start function whose frame does not fit
    /// the stack overflows it. Any other program gives a machine in the
    /// state in which a run starts.
    pub fn new(src: &'src S0, input: Vec<u8>) -> (r: Result<R0Vm<'src>, Error>)
        ensures
            match start_error(*src, DEFAULT_STACK_SLOTS as nat) {
                Some(e) => r matches Err(x) && x == e,
                None => r matches Ok(vm) && vm.wf() && vm@ == initial_state(
                    *src,
                    DEFAULT_STACK_SLOTS as nat,
                    input@,
                ),
            },
    {
        R0Vm::with_stack_limit(src, input, DEFAULT_STACK_SLOTS)
    }

    /// As `new`, with a stack of at most `max_stack_size` slots, and of no
    /// more than the address space can name.
    pub fn with_stack_limit(src: &'src S0, input: Vec<u8>, max_stack_size: usize) -> (r: Result<
        R0Vm<'src>,
        Error,
    >)
        ensures
            match start_error(*src, stack_limit(max_stack_size)) {
                Some(e) => r matches Err(x) && x == e,
                None => r matches Ok(vm) && vm.wf() && vm@ == initial_state(
                    *src,
                    stack_limit(max_stack_size),
                    input@,
                ),
            },
    {
        let max_stack_size = if max_stack_size > MAX_STACK_SLOTS {
            MAX_STACK_SLOTS
        } else {
            max_stack_size
        };
        if src.functions.len() == 0 {
            return Err(Error::NoEntryPoint);
        }
        if src.globals.len() > MAX_BLOCKS {
            return Err(Error::OutOfMemory);
        }
        let mut globals: Vec<MemBlock> = Vec::new();
        let mut i: usize = 0;
        while i < src.globals.len()
            invariant
                src.functions@.len() > 0,
                i <= src.globals.len() <= MAX_BLOCKS,
                globals.len() == i,
                forall|j: int| 0 <= j < i ==> src.globals@[j].bytes@.len() <= MAX_BLOCK_BYTES,
                forall|j: int|
                    0 <= j < i ==> (#[trigger] globals@[j])@ == global_block(
                        src.globals@[j].bytes@,
                        !src.globals@[j].is_const,
                    ),
            decreases src.globals.len() - i,
        {
            let g = &src.globals[i];
            if g.bytes.len() > MAX_BLOCK_BYTES {
                assert(src.globals@[i as int].bytes@.len() > MAX_BLOCK_BYTES);
                return Err(Error::OutOfMemory);
            }
            let words = pack_bytes(&g.bytes);
            globals.push(MemBlock { words, len: g.bytes.len(), live: true, writable: !g.is_const });
            i += 1;
        }
        let start = &src.functions[0];
        let frame = start.param_slots as u64 + start.loc_slots as u64;
        if frame > max_stack_size as u64 {
            return Err(Error::StackOverflow);
        }
        let frame = frame as usize;
        let stack = vec![0u64; frame];
        let vm = R0Vm {
            src,
            max_stack_size,
            stack,
            fn_info: start,
            fn_id: 0,
            ip: 0,
            bp: frame,
            depth: 0,
            heap: Vec::new(),
            globals,
            stdin: input,
            stdin_pos: 0,
            stdout: Vec::new(),
        };
        proof {
            let init = initial_state(*src, max_stack_size as nat, input@);
            assert(vm@.stack =~= init.stack);
            assert(vm@.heap =~= init.heap);
            assert(vm@.globals =~= init.globals);
            assert(vm@.input =~= init.input);
            assert(vm@ == init);
        }
        Ok(vm)
    }

    /// The stack, bottom first.
    pub fn stack(&self) -> (r: &Vec<u64>)
        ensures
            r@ == self@.stack,
    {
        &self.stack
    }

    /// The id of the function that is running.
    pub fn fn_id(&self) -> (r: usize)
        ensures
            r == self@.fn_id,
    {
        self.fn_id
    }

    /// The index of the next instruction in the function that is running.
    pub fn ip(&self) -> (r: usize)
        ensures
            r == self@.ip,
    {
        self.ip
    }

    /// The base of the running frame.
    pub fn bp(&self) -> (r: usize)
        ensures
            r == self@.bp,
    {
        self.bp
    }

    /// The instruction that the next step carries out, or `None` at the end
    /// of the function.
    pub fn next_op(&self) -> (r: Option<Op>)
        requires
            self.wf(),
        ensures
            r == (if self@.ip < self@.cur_fn().ins@.len() {
                Some(self@.cur_fn().ins@[self@.ip as int])
            } else {
                None
            }),
    {
        if self.ip < self.fn_info.ins.len() {
            Some(self.fn_info.ins[self.ip])
        } else {
            None
        }
    }

    /// One step: fetches the instruction at `ip`, moves `ip` past it, and
    /// carries it out. Where `ip` stands at the end of the function the run
    /// ends with `ControlReachesEnd`.
    ///
    /// `Ok(None)` says that the instruction is done. `Ok(Some(task))` says
    /// that the embedder has to finish it: to compute with doubles and push
    /// the result, to print one, or to read one from a token of the input.
    pub fn step(&mut self) -> (r: Outcome)
        requires
            old(self).wf(),
        ensures
            final(self).wf(),
            final(self)@ == old(self)@.step().0,
            r == old(self)@.step().1,
    {
        if self.ip >= self.fn_info.ins.len() {
            return Err(Error::ControlReachesEnd(self.fn_id as u32));
        }
        let op = self.fn_info.ins[self.ip];
        self.ip = self.ip + 1;
        self.exec_instruction(op)
    }

    /// Steps until a step ends the run or leaves work for the embedder, and
    /// for no more than `max_steps` steps. The result is that of the last
    /// step; `Ok(None)` says that the steps were used up with the machine
    /// still running. `Err(Error::Halt)` is the clean end of the run.
    pub fn run_to_end(&mut self, max_steps: u64) -> (r: Outcome)
        requires
            old(self).wf(),
        ensures
            final(self).wf(),
            final(self)@ == old(self)@.run(max_steps as nat).0,
            r == old(self)@.run(max_steps as nat).1,
    {
        let mut left = max_steps;
        while left > 0
            invariant
                self.wf(),
                old(self)@.run(max_steps as nat) == self@.run(left as nat),
            decreases left,
        {
            match self.step() {
                Ok(None) => {
                    left = left - 1;
                },
                other => {
                    return other;
                },
            }
        }
        Ok(None)
    }
}

/// The bound on the stack that `new` gives a machine.
pub const DEFAULT_STACK_SLOTS: usize = 0x10_0000;

/// The bound on the stack that a machine asked for `max_stack_size` slots
/// gets.
pub open spec fn stack_limit(max_stack_size: usize) -> nat {
    if max_stack_size > MAX_STACK_SLOTS {
        MAX_STACK_SLOTS as nat
    } else {
        max_stack_size as nat
    }
}

/// Why no machine can be made for a program, if that is so.
pub open spec fn start_error(prog: S0, max_stack: nat) -> Option<Error> {
    if prog.functions@.len() == 0 {
        Some(Error::NoEntryPoint)
    } else if prog.globals@.len() > MAX_BLOCKS || exists|i: int|
        0 <= i < prog.globals@.len() && (#[trigger] prog.globals@[i]).bytes@.len()
            > MAX_BLOCK_BYTES {
        Some(Error::OutOfMemory)
    } else if prog.functions@[0].param_slots + prog.functions@[0].loc_slots > max_stack {
        Some(Error::StackOverflow)
    } else {
        None
    }
}

/// The byte at `i`, widened, or 0 behind the end.
fn byte_at(bytes: &Vec<u8>, i: usize) -> (r: u64)
    ensures
        r == byte_or_zero(bytes@, i as int),
{
    if i < bytes.len() {
        bytes[i] as u64
    } else {
        0
    }
}

/// Packs bytes into words, eight to a word, the first in the low end.
fn pack_bytes(bytes: &Vec<u8>) -> (r: Vec<u64>)
    requires
        bytes.len() <= MAX_BLOCK_BYTES,
    ensures
        r@ == Seq::new(words_for(bytes@.len()), |w: int| packed_word(bytes@, w)),
{
    let n = (bytes.len() + 7) / 8;
    let mut words: Vec<u64> = Vec::new();
    let mut w: usize = 0;
    while w < n
        invariant
            w <= n,
            n == words_for(bytes@.len()),
            bytes.len() <= MAX_BLOCK_BYTES,
            words.len() == w,
            forall|j: int| 0 <= j < w ==> words@[j] == packed_word(bytes@, j),
        decreases n - w,
    {
        let b = 8 * w;
        let word = byte_at(bytes, b) | byte_at(bytes, b + 1) << 8 | byte_at(bytes, b + 2) << 16
            | byte_at(bytes, b + 3) << 24 | byte_at(bytes, b + 4) << 32 | byte_at(bytes, b + 5)
            << 40 | byte_at(bytes, b + 6) << 48 | byte_at(bytes, b + 7) << 56;
        words.push(word);
        w += 1;
    }
    assert(words@ =~= Seq::new(words_for(bytes@.len()), |w: int| packed_word(bytes@, w)));
    words
}

} // verus!
