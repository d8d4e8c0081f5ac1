//! What holds of every run: laws of the machine, each proved from the
//! functions on states that the handlers are held to.

use crate::error::Error;
use crate::opcodes::Op;
use crate::vm::floats::FloatTask;
use crate::vm::mem::{
    global_addr, heap_addr, lemma_word_set_get, lemma_word_set_keeps, place_at, word_get, Width,
    BLOCK_SPAN, MAX_BLOCKS, MAX_BLOCK_BYTES, REGION_SPAN,
};
use crate::vm::num::{signed, wrap};
use crate::vm::state::{initial_state, packed_word, State};
use vstd::prelude::*;

verus! {

/// Integer addition wraps. With the slots of two signed integers `a` and `b`
/// on top of the stack, the addition leaves the slot of `a + b` modulo
/// 2^64 in their place; read as signed, that slot is the sum wrapped into
/// the signed range.
pub proof fn lemma_add_i_wraps(s: State, a: i64, b: i64)
    requires
        s.wf(),
        s.stack.len() >= s.floor() + 2,
        s.stack[s.stack.len() - 1] == wrap(a as int),
        s.stack[s.stack.len() - 2] == wrap(b as int),
    ensures
        s.add_i().1 is Ok,
        s.add_i().0 == (State {
            stack: s.stack.take(s.stack.len() - 2).push(wrap(a + b)),
            ..s
        }),
        signed(wrap(a + b)) == vstd::wrapping::i64_specs::wrapping_add(a, b),
{
    let top = s.stack.len() - 1;
    assert(s.stack.drop_last().drop_last() == s.stack.take(s.stack.len() - 2));
    assert(wrap(wrap(a as int) + wrap(b as int)) == wrap(a + b));
}

/// A call and the return from it undo each other. After any call that
/// succeeds, a return at once succeeds too, and brings `fn_id`, `ip`, `bp`
/// and the call depth back to what they were; the stack is what it was
/// without the arguments of the call, and nothing else has changed. So the
/// stack has lost the callee's `param_slots` slots: the locals and the
/// saved caller state that the call pushed are gone with them.
pub proof fn lemma_call_then_ret(s: State, id: u32)
    requires
        s.wf(),
        s.call(id).1 is Ok,
    ensures
        s.call(id).0.wf(),
        s.call(id).0.ret().1 is Ok,
        s.call(id).0.ret().0 == (State {
            stack: s.stack.take(s.stack.len() - s.prog.functions@[id as int].param_slots),
            ..s
        }),
        s.call(id).0.ret().0.stack.len() + s.prog.functions@[id as int].param_slots
            == s.stack.len(),
{
    let f = s.prog.functions@[id as int];
    let s1 = s.call(id).0;
    let s2 = s1.ret().0;
    assert(s.ip <= s.cur_fn().ins.len());
    assert(s1.stack.len() == s.stack.len() + f.loc_slots + 3);
    assert(s1.bp == s.stack.len() + f.loc_slots);
    assert(s1.stack[s1.bp as int] == s.bp as u64);
    assert(s1.stack[s1.bp as int + 1] == s.ip as u64);
    assert(s1.stack[s1.bp as int + 2] == s.fn_id as u64);
    assert(s1.args_base() == s.stack.len() - f.param_slots);
    assert(s1.stack.take(s1.args_base()) =~= s.stack.take(s.stack.len() - f.param_slots));
}

/// A branch out of the function is refused, and changes nothing.
pub proof fn lemma_br_out_of_bounds(s: State, off: i32)
    requires
        !(0 <= s.ip + off <= s.cur_fn().ins@.len()),
    ensures
        s.br(off) == (s, Err::<(), Error>(Error::InvalidInstructionOffset)),
{
}

/// A conditional branch out of the function that is taken is refused, and
/// changes nothing but the stack, which has lost the condition. One that
/// is not taken succeeds wherever it points.
pub proof fn lemma_cond_br_out_of_bounds(s: State, off: i32)
    requires
        s.stack.len() > s.floor(),
        !(0 <= s.ip + off <= s.cur_fn().ins@.len()),
    ensures
        s.stack.last() == 0 ==> s.bz(off) == (
            State { stack: s.stack.drop_last(), ..s },
            Err::<(), Error>(Error::InvalidInstructionOffset),
        ),
        s.stack.last() != 0 ==> s.bz(off) == (
            State { stack: s.stack.drop_last(), ..s },
            Ok::<(), Error>(()),
        ),
        s.stack.last() != 0 ==> s.bnz(off) == (
            State { stack: s.stack.drop_last(), ..s },
            Err::<(), Error>(Error::InvalidInstructionOffset),
        ),
        s.stack.last() == 0 ==> s.bnz(off) == (
            State { stack: s.stack.drop_last(), ..s },
            Ok::<(), Error>(()),
        ),
{
}

/// A branch within the function, its end included, succeeds and moves
/// `ip` alone.
pub proof fn lemma_br_in_bounds(s: State, off: i32)
    requires
        0 <= s.ip + off <= s.cur_fn().ins@.len(),
    ensures
        s.br(off) == (State { ip: (s.ip + off) as nat, ..s }, Ok::<(), Error>(())),
{
}

/// Every access to a block that is not live, at any of its bytes and of any
/// width, is refused as an invalid address. A freed block is such a block.
pub proof fn lemma_dead_block_refuses(s: State, id: int, addr: u64, width: Width, val: u64)
    requires
        0 <= id < s.heap.len() <= MAX_BLOCKS,
        !s.heap[id].live,
        heap_addr(id) <= addr < heap_addr(id) + BLOCK_SPAN,
    ensures
        s.read(addr, width) == Err::<u64, Error>(Error::InvalidAddress(addr)),
        s.write(addr, width, val) == (s, Err::<(), Error>(Error::InvalidAddress(addr))),
{
    assert(addr / REGION_SPAN == 2);
    assert((addr % REGION_SPAN) / BLOCK_SPAN == id);
}

/// Freeing makes a block dead. Where a free succeeds on the address on top
/// of the stack, that address is the start of a live block, and in the
/// state that the free leaves that block is not live; every other block is
/// as it was.
pub proof fn lemma_free_kills(s: State)
    requires
        s.wf(),
        s.free().1 is Ok,
    ensures
        s.block_at(s.stack.last()) is Some,
        heap_addr(s.block_at(s.stack.last())->0) == s.stack.last(),
        !s.free().0.heap[s.block_at(s.stack.last())->0].live,
        s.free().0.heap.len() == s.heap.len(),
        forall|j: int|
            0 <= j < s.heap.len() && j != s.block_at(s.stack.last())->0 ==> s.free().0.heap[j]
                == s.heap[j],
{
}

/// The bytes of an aligned access lie within one word.
proof fn lemma_aligned_shift(off: u64, width: Width)
    requires
        off % width.spec_bytes() == 0,
    ensures
        place_at(crate::vm::mem::Region::Stack, off).shift % 8 == 0,
        place_at(crate::vm::mem::Region::Stack, off).shift + 8 * width.spec_bytes() <= 64,
        place_at(crate::vm::mem::Region::Stack, off).shift == 8 * (off % 8),
{
    match width {
        Width::W8 => {},
        Width::W16 => {
            assert(off % 2 == 0);
            assert((off % 8) % 2 == 0);
        },
        Width::W32 => {
            assert(off % 4 == 0);
            assert((off % 8) % 4 == 0);
        },
        Width::W64 => {
            assert(off % 8 == 0);
        },
    }
}

/// What a store writes, a load of the same width at the same address reads
/// back, cut to that width; a whole slot comes back bit for bit, whatever
/// it is read as.
pub proof fn lemma_write_then_read(s: State, addr: u64, width: Width, val: u64)
    requires
        s.wf(),
        s.write(addr, width, val).1 is Ok,
    ensures
        s.write(addr, width, val).0.read(addr, width) == Ok::<u64, Error>(
            val & width.spec_mask(),
        ),
        width == Width::W64 ==> s.write(addr, width, val).0.read(addr, width) == Ok::<u64, Error>(
            val,
        ),
{
    assert(val & 0xffff_ffff_ffff_ffff == val) by (bit_vector);
    let p = s.locate(addr, width, true)->Ok_0;
    let s1 = s.write(addr, width, val).0;
    let (region, off) = s.region_of(addr, width, true)->0;
    assert(s1.region_of(addr, width, false) == s.region_of(addr, width, true));
    lemma_aligned_shift(off, width);
    lemma_word_set_get(s.words(p.region)[p.word], p.shift, width, val);
}

} // verus!

verus! {

/// Writing bytes of memory to the output changes the output alone.
pub proof fn lemma_print_bytes_changes_output_only(s: State, addr: u64, len: u64, i: u64)
    ensures
        s.print_bytes(addr, len, i).0 == (State {
            output: s.print_bytes(addr, len, i).0.output,
            ..s
        }),
    decreases len - i,
{
    if i < len {
        match s.read(wrap(addr + i), Width::W8) {
            Err(_) => {},
            Ok(b) => {
                let s1 = s.emit(seq![b as u8]);
                lemma_print_bytes_changes_output_only(s1, addr, len, (i + 1) as u64);
            },
        }
    }
}

/// What it is for a block that was dead in `a` to be so still in `b`.
pub open spec fn still_dead(a: State, b: State, id: int) -> bool {
    &&& b.heap.len() >= a.heap.len()
    &&& !b.heap[id].live
    &&& b.heap[id].len == a.heap[id].len
}

/// The instructions that move slots and push addresses.
pub open spec fn is_stack_op(op: Op) -> bool {
    op is Nop || op is Push || op is Pop || op is PopN || op is Dup || op is LocA || op is ArgA
        || op is GlobA || op is StackAlloc
}

/// The instructions that compute with integers or order two slots.
pub open spec fn is_arith_op(op: Op) -> bool {
    op is AddI || op is SubI || op is MulI || op is DivI || op is DivU || op is Shl || op is Shr
        || op is ShrL || op is And || op is Or || op is Xor || op is Not || op is NegI
        || op is NegF || op is CmpI || op is CmpU || op is CmpF || op is SetLt || op is SetGt
}

/// The instructions that leave work on doubles to the embedder.
pub open spec fn is_float_op(op: Op) -> bool {
    op is AddF || op is SubF || op is MulF || op is DivF || op is IToF || op is FToI
        || op is PrintF || op is ScanF
}

/// The instructions that say where the run goes on.
pub open spec fn is_control_op(op: Op) -> bool {
    op is BrA || op is Br || op is BrFalse || op is BrTrue || op is Call || op is CallName
        || op is Ret || op is Panic
}

/// The instructions that read and write text.
pub open spec fn is_io_op(op: Op) -> bool {
    op is ScanI || op is ScanC || op is PrintI || op is PrintC || op is PrintS || op is PrintLn
}

/// The instructions that read memory.
pub open spec fn is_load_op(op: Op) -> bool {
    op is Load8 || op is Load16 || op is Load32 || op is Load64
}

/// The instructions that change memory.
pub open spec fn is_memory_op(op: Op) -> bool {
    op is Store8 || op is Store16 || op is Store32 || op is Store64 || op is Alloc || op is Free
}

proof fn lemma_stack_ops_keep_heap(s: State, op: Op)
    requires
        is_stack_op(op),
    ensures
        s.exec(op).0.heap == s.heap,
{
}

proof fn lemma_arith_ops_keep_heap(s: State, op: Op)
    requires
        is_arith_op(op),
    ensures
        s.exec(op).0.heap == s.heap,
{
}

proof fn lemma_float_ops_keep_heap(s: State, op: Op)
    requires
        is_float_op(op),
    ensures
        s.exec(op).0.heap == s.heap,
{
}

proof fn lemma_control_ops_keep_heap(s: State, op: Op)
    requires
        is_control_op(op),
    ensures
        s.exec(op).0.heap == s.heap,
{
}

proof fn lemma_io_ops_keep_heap(s: State, op: Op)
    requires
        is_io_op(op),
    ensures
        s.exec(op).0.heap == s.heap,
{
    if op is PrintS {
        let (s1, args) = s.pop2();
        if let Ok((addr, len)) = args {
            lemma_print_bytes_changes_output_only(s1, addr, len, 0);
        }
    }
}

proof fn lemma_load_ops_keep_heap(s: State, op: Op)
    requires
        is_load_op(op),
    ensures
        s.exec(op).0.heap == s.heap,
{
}

proof fn lemma_memory_ops_keep_dead(s: State, op: Op, id: int)
    requires
        is_memory_op(op),
        0 <= id < s.heap.len(),
        !s.heap[id].live,
    ensures
        still_dead(s, s.exec(op).0, id),
{
}

/// No instruction brings a block back. A heap block that is not live is not
/// live after any instruction, the heap has lost no block, and the size that
/// the block was made with is still on record.
pub proof fn lemma_exec_keeps_dead(s: State, op: Op, id: int)
    requires
        0 <= id < s.heap.len(),
        !s.heap[id].live,
    ensures
        still_dead(s, s.exec(op).0, id),
{
    if is_stack_op(op) {
        lemma_stack_ops_keep_heap(s, op);
    } else if is_arith_op(op) {
        lemma_arith_ops_keep_heap(s, op);
    } else if is_float_op(op) {
        lemma_float_ops_keep_heap(s, op);
    } else if is_control_op(op) {
        lemma_control_ops_keep_heap(s, op);
    } else if is_io_op(op) {
        lemma_io_ops_keep_heap(s, op);
    } else if is_load_op(op) {
        lemma_load_ops_keep_heap(s, op);
    } else {
        lemma_memory_ops_keep_dead(s, op, id);
    }
}

/// No step brings a block back.
pub proof fn lemma_step_keeps_dead(s: State, id: int)
    requires
        0 <= id < s.heap.len(),
        !s.heap[id].live,
    ensures
        still_dead(s, s.step().0, id),
{
    if s.ip < s.cur_fn().ins@.len() {
        lemma_exec_keeps_dead(State { ip: s.ip + 1, ..s }, s.cur_fn().ins@[s.ip as int], id);
    }
}

/// No run brings a block back: once a block has been freed, every access to
/// it is refused for the rest of the run.
pub proof fn lemma_run_keeps_dead(s: State, id: int, fuel: nat)
    requires
        0 <= id < s.heap.len(),
        !s.heap[id].live,
    ensures
        still_dead(s, s.run(fuel).0, id),
    decreases fuel,
{
    if fuel > 0 {
        lemma_step_keeps_dead(s, id);
        let (s1, r) = s.step();
        if r == Ok::<Option<FloatTask>, Error>(None) {
            lemma_run_keeps_dead(s1, id, (fuel - 1) as nat);
        }
    }
}

/// A step that ends the run cleanly changes nothing but `ip`. It is the
/// return of the start function or the instruction that halts: so the
/// stack that a clean run ends with is the stack that its last instruction
/// found.
pub proof fn lemma_halt_keeps_stack(s: State)
    requires
        s.wf(),
        s.step().1 == Err::<Option<FloatTask>, Error>(Error::Halt),
    ensures
        s.ip < s.cur_fn().ins@.len(),
        s.step().0 == (State { ip: s.ip + 1, ..s }),
        s.cur_fn().ins@[s.ip as int] is Panic || (s.cur_fn().ins@[s.ip as int] is Ret && s.depth
            == 0),
{
    if s.ip < s.cur_fn().ins@.len() {
        let s1 = State { ip: s.ip + 1, ..s };
        let op = s.cur_fn().ins@[s.ip as int];
        lemma_only_halting_halts(s1, op);
    }
}

/// Only `Panic`, and `Ret` in the start function, end a run cleanly.
proof fn lemma_only_halting_halts(s: State, op: Op)
    requires
        s.exec(op).1 == Err::<Option<FloatTask>, Error>(Error::Halt),
    ensures
        s.exec(op).0 == s,
        op is Panic || (op is Ret && s.depth == 0),
{
    if is_stack_op(op) {
        lemma_stack_ops_never_halt(s, op);
    } else if is_arith_op(op) {
        lemma_arith_ops_never_halt(s, op);
    } else if is_float_op(op) {
        lemma_float_ops_never_halt(s, op);
    } else if is_control_op(op) {
        lemma_control_ops_halt(s, op);
    } else if is_io_op(op) {
        lemma_io_ops_never_halt(s, op);
    } else if is_load_op(op) {
        lemma_load_ops_never_halt(s, op);
    } else {
        lemma_memory_ops_never_halt(s, op);
    }
}

proof fn lemma_stack_ops_never_halt(s: State, op: Op)
    requires
        is_stack_op(op),
    ensures
        s.exec(op).1 != Err::<Option<FloatTask>, Error>(Error::Halt),
{
}

proof fn lemma_arith_ops_never_halt(s: State, op: Op)
    requires
        is_arith_op(op),
    ensures
        s.exec(op).1 != Err::<Option<FloatTask>, Error>(Error::Halt),
{
}

proof fn lemma_float_ops_never_halt(s: State, op: Op)
    requires
        is_float_op(op),
    ensures
        s.exec(op).1 != Err::<Option<FloatTask>, Error>(Error::Halt),
{
}

proof fn lemma_control_ops_halt(s: State, op: Op)
    requires
        is_control_op(op),
        s.exec(op).1 == Err::<Option<FloatTask>, Error>(Error::Halt),
    ensures
        s.exec(op).0 == s,
        op is Panic || (op is Ret && s.depth == 0),
{
}

proof fn lemma_io_ops_never_halt(s: State, op: Op)
    requires
        is_io_op(op),
    ensures
        s.exec(op).1 != Err::<Option<FloatTask>, Error>(Error::Halt),
{
    if op is PrintS {
        let (s1, args) = s.pop2();
        if let Ok((addr, len)) = args {
            lemma_print_bytes_never_halts(s1, addr, len, 0);
        }
    }
}

proof fn lemma_load_ops_never_halt(s: State, op: Op)
    requires
        is_load_op(op),
    ensures
        s.exec(op).1 != Err::<Option<FloatTask>, Error>(Error::Halt),
{
}

proof fn lemma_memory_ops_never_halt(s: State, op: Op)
    requires
        is_memory_op(op),
    ensures
        s.exec(op).1 != Err::<Option<FloatTask>, Error>(Error::Halt),
{
}

/// Writing bytes of memory to the output fails only as a load fails.
proof fn lemma_print_bytes_never_halts(s: State, addr: u64, len: u64, i: u64)
    ensures
        s.print_bytes(addr, len, i).1 != Err::<(), Error>(Error::Halt),
    decreases len - i,
{
    if i < len {
        match s.read(wrap(addr + i), Width::W8) {
            Err(_) => {},
            Ok(b) => {
                lemma_print_bytes_never_halts(s.emit(seq![b as u8]), addr, len, (i + 1) as u64);
            },
        }
    }
}

} // verus!

verus! {

proof fn lemma_stack_ops_keep_wf(s: State, op: Op)
    requires
        s.wf(),
        is_stack_op(op),
    ensures
        s.exec(op).0.wf(),
{
}

proof fn lemma_arith_ops_keep_wf(s: State, op: Op)
    requires
        s.wf(),
        is_arith_op(op),
    ensures
        s.exec(op).0.wf(),
{
}

proof fn lemma_float_ops_keep_wf(s: State, op: Op)
    requires
        s.wf(),
        is_float_op(op),
    ensures
        s.exec(op).0.wf(),
{
}

proof fn lemma_call_keeps_wf(s: State, id: u32)
    requires
        s.wf(),
    ensures
        s.call(id).0.wf(),
{
    if id < s.prog.functions@.len() {
        let f = s.prog.functions@[id as int];
        let (s1, r1) = s.stack_alloc(f.loc_slots);
        assert(s1.wf());
        if r1 is Ok {
            let (s2, r2) = s1.push(s.bp as u64);
            let (s3, r3) = s2.push(s.ip as u64);
            let (s4, r4) = s3.push(s.fn_id as u64);
            assert(s2.wf() && s3.wf() && s4.wf());
        }
    }
}

proof fn lemma_ret_keeps_wf(s: State)
    requires
        s.wf(),
    ensures
        s.ret().0.wf(),
{
}

proof fn lemma_branches_keep_wf(s: State, op: Op)
    requires
        s.wf(),
        op is BrA || op is Br || op is BrFalse || op is BrTrue || op is Panic,
    ensures
        s.exec(op).0.wf(),
{
}

proof fn lemma_control_ops_keep_wf(s: State, op: Op)
    requires
        s.wf(),
        is_control_op(op),
    ensures
        s.exec(op).0.wf(),
{
    match op {
        Op::Call(id) => {
            lemma_call_keeps_wf(s, id);
        },
        Op::CallName(idx) => {
            if idx < s.prog.names@.len() {
                lemma_call_keeps_wf(s, s.prog.names@[idx as int]);
            }
        },
        Op::Ret => {
            lemma_ret_keeps_wf(s);
        },
        _ => {
            lemma_branches_keep_wf(s, op);
        },
    }
}

proof fn lemma_io_ops_keep_wf(s: State, op: Op)
    requires
        s.wf(),
        is_io_op(op),
    ensures
        s.exec(op).0.wf(),
{
    if op is PrintS {
        let (s1, args) = s.pop2();
        if let Ok((addr, len)) = args {
            lemma_print_bytes_changes_output_only(s1, addr, len, 0);
        }
    }
}

proof fn lemma_load_ops_keep_wf(s: State, op: Op)
    requires
        s.wf(),
        is_load_op(op),
    ensures
        s.exec(op).0.wf(),
{
}

proof fn lemma_memory_ops_keep_wf(s: State, op: Op)
    requires
        s.wf(),
        is_memory_op(op),
    ensures
        s.exec(op).0.wf(),
{
}

/// What holds between two instructions holds behind every instruction: the
/// stack within its bound, `ip` within the function, the frame base no
/// higher than the stack, the blocks well formed.
pub proof fn lemma_exec_keeps_wf(s: State, op: Op)
    requires
        s.wf(),
    ensures
        s.exec(op).0.wf(),
{
    if is_stack_op(op) {
        lemma_stack_ops_keep_wf(s, op);
    } else if is_arith_op(op) {
        lemma_arith_ops_keep_wf(s, op);
    } else if is_float_op(op) {
        lemma_float_ops_keep_wf(s, op);
    } else if is_control_op(op) {
        lemma_control_ops_keep_wf(s, op);
    } else if is_io_op(op) {
        lemma_io_ops_keep_wf(s, op);
    } else if is_load_op(op) {
        lemma_load_ops_keep_wf(s, op);
    } else {
        lemma_memory_ops_keep_wf(s, op);
    }
}

/// Every step keeps the machine well formed, and so does every run.
pub proof fn lemma_run_keeps_wf(s: State, fuel: nat)
    requires
        s.wf(),
    ensures
        s.step().0.wf(),
        s.run(fuel).0.wf(),
    decreases fuel,
{
    if s.ip < s.cur_fn().ins@.len() {
        lemma_exec_keeps_wf(State { ip: s.ip + 1, ..s }, s.cur_fn().ins@[s.ip as int]);
    }
    if fuel > 0 {
        let (s1, r) = s.step();
        if r == Ok::<Option<FloatTask>, Error>(None) {
            lemma_run_keeps_wf(s1, (fuel - 1) as nat);
        }
    }
}

} // verus!

verus! {

/// Byte `j` of a word that was packed from eight bytes is the `j`-th of
/// them.
proof fn lemma_packed_byte(b: Seq<u64>, j: int)
    requires
        b.len() == 8,
        forall|i: int| 0 <= i < 8 ==> b[i] <= 0xff,
        0 <= j < 8,
    ensures
        word_get(
            b[0] | b[1] << 8 | b[2] << 16 | b[3] << 24 | b[4] << 32 | b[5] << 40 | b[6] << 48 | b[7]
                << 56,
            (8 * j) as u64,
            0xff,
        ) == b[j],
{
    let (b0, b1, b2, b3, b4, b5, b6, b7) = (b[0], b[1], b[2], b[3], b[4], b[5], b[6], b[7]);
    let w = b0 | b1 << 8 | b2 << 16 | b3 << 24 | b4 << 32 | b5 << 40 | b6 << 48 | b7 << 56;
    assert((w >> 0) & 0xff == b0 && (w >> 8) & 0xff == b1 && (w >> 16) & 0xff == b2 && (w >> 24)
        & 0xff == b3 && (w >> 32) & 0xff == b4 && (w >> 40) & 0xff == b5 && (w >> 48) & 0xff == b6
        && (w >> 56) & 0xff == b7) by (bit_vector)
        requires
            w == b0 | b1 << 8 | b2 << 16 | b3 << 24 | b4 << 32 | b5 << 40 | b6 << 48 | b7 << 56,
            b0 <= 0xff,
            b1 <= 0xff,
            b2 <= 0xff,
            b3 <= 0xff,
            b4 <= 0xff,
            b5 <= 0xff,
            b6 <= 0xff,
            b7 <= 0xff,
    ;
}

/// A run starts with each global holding its initial bytes: in the state
/// in which a run starts, a load of one byte at offset `k` of global `g`
/// reads byte `k` of what the program says the global starts out as.
pub proof fn lemma_global_holds_its_bytes(
    prog: crate::s0::S0,
    max_stack: nat,
    input: Seq<u8>,
    g: int,
    k: int,
)
    requires
        0 <= g < prog.globals@.len() <= MAX_BLOCKS,
        0 <= k < prog.globals@[g].bytes@.len() <= MAX_BLOCK_BYTES,
    ensures
        initial_state(prog, max_stack, input).read((global_addr(g) + k) as u64, Width::W8) == Ok::<
            u64,
            Error,
        >(prog.globals@[g].bytes@[k] as u64),
{
    let s = initial_state(prog, max_stack, input);
    let bytes = prog.globals@[g].bytes@;
    let addr = (global_addr(g) + k) as u64;
    assert(addr / REGION_SPAN == 3);
    assert((addr % REGION_SPAN) / BLOCK_SPAN == g);
    assert((addr % REGION_SPAN) % BLOCK_SPAN == k);
    let w = k / 8;
    let j = k % 8;
    let b = Seq::new(8, |i: int| crate::vm::state::byte_or_zero(bytes, 8 * w + i));
    lemma_packed_byte(b, j);
    assert(s.globals[g].words[w] == packed_word(bytes, w));
}

} // verus!

verus! {

/// Where a callee has as many locals as result slots, a call and the
/// return from it leave a stack that is shorter by the arguments and the
/// locals and longer by the result slots.
pub proof fn lemma_call_then_ret_lengths(s: State, id: u32)
    requires
        s.wf(),
        s.call(id).1 is Ok,
        s.prog.functions@[id as int].loc_slots == s.prog.functions@[id as int].ret_slots,
    ensures
        s.call(id).0.ret().0.stack.len() == s.stack.len() - (s.prog.functions@[id as int].param_slots
            + s.prog.functions@[id as int].loc_slots) + s.prog.functions@[id as int].ret_slots,
{
    lemma_call_then_ret(s, id);
}

/// A load from a block that is not live fails with `InvalidAddress` and
/// has popped the address; a store to one fails so and has popped the
/// value and the address.
pub proof fn lemma_dead_block_refuses_instructions(s: State, id: int, addr: u64, width: Width)
    requires
        s.wf(),
        0 <= id < s.heap.len(),
        !s.heap[id].live,
        heap_addr(id) <= addr < heap_addr(id) + BLOCK_SPAN,
    ensures
        s.stack.len() > s.floor() && s.stack.last() == addr ==> s.load(width) == (
            State { stack: s.stack.drop_last(), ..s },
            Err::<(), Error>(Error::InvalidAddress(addr)),
        ),
        s.stack.len() > s.floor() + 1 && s.stack[s.stack.len() - 2] == addr ==> s.store(width) == (
            State { stack: s.stack.drop_last().drop_last(), ..s },
            Err::<(), Error>(Error::InvalidAddress(addr)),
        ),
{
    if s.stack.len() > s.floor() && s.stack.last() == addr {
        let s1 = s.pop().0;
        lemma_dead_block_refuses(s1, id, addr, width, 0);
    }
    if s.stack.len() > s.floor() + 1 && s.stack[s.stack.len() - 2] == addr {
        let s2 = s.pop2().0;
        lemma_dead_block_refuses(s2, id, addr, width, s.stack.last());
    }
}

/// The state that a run is in when it takes its last step: the state from
/// which the next step does not go on.
pub open spec fn before_last_step(s: State, fuel: nat) -> State
    decreases fuel,
{
    if fuel == 0 || s.step().1 != Ok::<Option<FloatTask>, Error>(None) {
        s
    } else {
        before_last_step(s.step().0, (fuel - 1) as nat)
    }
}

/// A run that ends, ends as its last step ends.
pub proof fn lemma_run_ends_with_last_step(s: State, fuel: nat)
    requires
        s.run(fuel).1 != Ok::<Option<FloatTask>, Error>(None),
    ensures
        s.run(fuel) == before_last_step(s, fuel).step(),
    decreases fuel,
{
    if fuel > 0 && s.step().1 == Ok::<Option<FloatTask>, Error>(None) {
        lemma_run_ends_with_last_step(s.step().0, (fuel - 1) as nat);
    }
}

/// A run that ends cleanly leaves the stack that its last instruction
/// found. So where the start function returns with just its result slots
/// above its frame, those are what the run leaves there.
pub proof fn lemma_clean_run_keeps_stack(s: State, fuel: nat)
    requires
        s.wf(),
        s.run(fuel).1 == Err::<Option<FloatTask>, Error>(Error::Halt),
    ensures
        s.run(fuel).0.stack == before_last_step(s, fuel).stack,
        before_last_step(s, fuel).stack.len() == before_last_step(s, fuel).floor()
            + s.prog.functions@[0].ret_slots ==> s.run(fuel).0.stack.len() == s.run(fuel).0.floor()
            + s.prog.functions@[0].ret_slots,
{
    lemma_run_ends_with_last_step(s, fuel);
    lemma_before_last_step_wf(s, fuel);
    lemma_halt_keeps_stack(before_last_step(s, fuel));
}

proof fn lemma_before_last_step_wf(s: State, fuel: nat)
    requires
        s.wf(),
    ensures
        before_last_step(s, fuel).wf(),
        before_last_step(s, fuel).prog == s.prog,
    decreases fuel,
{
    if fuel > 0 && s.step().1 == Ok::<Option<FloatTask>, Error>(None) {
        lemma_run_keeps_wf(s, 1);
        lemma_step_keeps_prog(s);
        lemma_before_last_step_wf(s.step().0, (fuel - 1) as nat);
    }
}

/// No step changes the program.
pub proof fn lemma_step_keeps_prog(s: State)
    ensures
        s.step().0.prog == s.prog,
        s.step().0.max_stack == s.max_stack,
{
    if s.ip < s.cur_fn().ins@.len() {
        let s1 = State { ip: s.ip + 1, ..s };
        let op = s.cur_fn().ins@[s.ip as int];
        if is_stack_op(op) {
            lemma_stack_ops_keep_prog(s1, op);
        } else if is_arith_op(op) {
            lemma_arith_ops_keep_prog(s1, op);
        } else if is_float_op(op) {
            lemma_float_ops_keep_prog(s1, op);
        } else if is_control_op(op) {
            lemma_control_ops_keep_prog(s1, op);
        } else if is_io_op(op) {
            lemma_io_ops_keep_prog(s1, op);
        } else if is_load_op(op) {
            lemma_load_ops_keep_prog(s1, op);
        } else {
            lemma_memory_ops_keep_prog(s1, op);
        }
    }
}

proof fn lemma_stack_ops_keep_prog(s: State, op: Op)
    requires
        is_stack_op(op),
    ensures
        s.exec(op).0.prog == s.prog,
        s.exec(op).0.max_stack == s.max_stack,
{
}

proof fn lemma_arith_ops_keep_prog(s: State, op: Op)
    requires
        is_arith_op(op),
    ensures
        s.exec(op).0.prog == s.prog,
        s.exec(op).0.max_stack == s.max_stack,
{
}

proof fn lemma_float_ops_keep_prog(s: State, op: Op)
    requires
        is_float_op(op),
    ensures
        s.exec(op).0.prog == s.prog,
        s.exec(op).0.max_stack == s.max_stack,
{
}

proof fn lemma_control_ops_keep_prog(s: State, op: Op)
    requires
        is_control_op(op),
    ensures
        s.exec(op).0.prog == s.prog,
        s.exec(op).0.max_stack == s.max_stack,
{
}

proof fn lemma_io_ops_keep_prog(s: State, op: Op)
    requires
        is_io_op(op),
    ensures
        s.exec(op).0.prog == s.prog,
        s.exec(op).0.max_stack == s.max_stack,
{
    if op is PrintS {
        let (s1, args) = s.pop2();
        if let Ok((addr, len)) = args {
            lemma_print_bytes_changes_output_only(s1, addr, len, 0);
        }
    }
}

proof fn lemma_load_ops_keep_prog(s: State, op: Op)
    requires
        is_load_op(op),
    ensures
        s.exec(op).0.prog == s.prog,
        s.exec(op).0.max_stack == s.max_stack,
{
}

proof fn lemma_memory_ops_keep_prog(s: State, op: Op)
    requires
        is_memory_op(op),
    ensures
        s.exec(op).0.prog == s.prog,
        s.exec(op).0.max_stack == s.max_stack,
{
}

/// A store changes the bytes that it names and no others: a load of one
/// byte at an address outside the stored bytes reads after the store what
/// it read before.
pub proof fn lemma_write_keeps_other_bytes(
    s: State,
    addr: u64,
    width: Width,
    val: u64,
    other: u64,
)
    requires
        s.wf(),
        s.write(addr, width, val).1 is Ok,
        other < addr || other >= addr + width.spec_bytes(),
    ensures
        s.write(addr, width, val).0.read(other, Width::W8) == s.read(other, Width::W8),
{
    let s1 = s.write(addr, width, val).0;
    let p = s.locate(addr, width, true)->Ok_0;
    let (region, off) = s.region_of(addr, width, true)->0;
    assert(s1.region_of(other, Width::W8, false) == s.region_of(other, Width::W8, false));
    match s.region_of(other, Width::W8, false) {
        None => {},
        Some((region2, off2)) => {
            let q = place_at(region2, off2);
            if region2 == region && q.word == p.word {
                assert(off % width.spec_bytes() == 0);
                assert(off2 / 8 == off / 8);
                assert(addr - off == other - off2);
                lemma_aligned_shift(off, width);
                lemma_word_set_keeps(s.words(region)[p.word], p.shift, width, val, q.shift);
            }
        },
    }
}

} // verus!

verus! {

/// What the machine writes for an integer, it reads back: with the text
/// that `PrintI` writes for `v` at the front of the input, and white space
/// or nothing behind it, `ScanI` pushes the slot of `v` and uses up the
/// text with the byte behind it.
pub proof fn lemma_scan_reads_what_print_writes(s: State, v: i64, rest: Seq<u8>)
    requires
        s.input == crate::vm::text::signed_decimal(v as int) + rest,
        rest.len() == 0 || crate::vm::text::is_space(rest[0]),
    ensures
        s.scan_i() == (State {
            input: if rest.len() > 0 {
                rest.skip(1)
            } else {
                rest
            },
            ..s
        }).push(wrap(v as int)),
{
    let tok = crate::vm::text::signed_decimal(v as int);
    crate::vm::text::lemma_written_integer_reads_back(v as int);
    crate::vm::text::lemma_token_in_front(tok, rest);
    if rest.len() > 0 {
        assert((tok + rest).skip(tok.len() as int + 1) =~= rest.skip(1));
    } else {
        assert((tok + rest).skip(tok.len() as int) =~= rest);
    }
}

/// The three regions of the address space lie apart, and so do the blocks
/// within a region: an address names a byte of one stack slot, of one heap
/// block or of one global, and never of two.
pub proof fn lemma_regions_lie_apart(slot: int, i: int, j: int, a: int, b: int)
    requires
        0 <= slot < crate::vm::mem::MAX_STACK_SLOTS,
        0 <= i < MAX_BLOCKS,
        0 <= j < MAX_BLOCKS,
        0 <= a < BLOCK_SPAN,
        0 <= b < BLOCK_SPAN,
    ensures
        crate::vm::mem::stack_addr(slot) + 8 <= heap_addr(0),
        heap_addr(i) + a < global_addr(0),
        global_addr(j) + b <= u64::MAX,
        i != j ==> heap_addr(i) + a != heap_addr(j) + b,
        i != j ==> global_addr(i) + a != global_addr(j) + b,
        0 < crate::vm::mem::stack_addr(slot),
{
}

} // verus!

verus! {

/// The calling convention. Where the caller has pushed the slots for the
/// result and then the arguments, a call and the return from it leave the
/// result slots on top of what lay below them: the arguments are gone, and
/// so are the locals and the saved state that the call pushed.
pub proof fn lemma_call_leaves_result_slots(
    s: State,
    id: u32,
    below: Seq<u64>,
    results: Seq<u64>,
    args: Seq<u64>,
)
    requires
        s.wf(),
        s.call(id).1 is Ok,
        s.stack == below + results + args,
        results.len() == s.prog.functions@[id as int].ret_slots,
        args.len() == s.prog.functions@[id as int].param_slots,
    ensures
        s.call(id).0.ret().1 is Ok,
        s.call(id).0.ret().0 == (State { stack: below + results, ..s }),
        s.call(id).0.stack.len() == s.stack.len() + s.prog.functions@[id as int].loc_slots + 3,
        s.call(id).0.ret().0.stack.len() == below.len() + s.prog.functions@[id as int].ret_slots,
{
    lemma_call_then_ret(s, id);
    assert(s.stack.take(s.stack.len() - args.len()) =~= below + results);
}

} // verus!
