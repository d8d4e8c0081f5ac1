//! Instruction streams. An instruction is its opcode byte, followed by its
//! immediate where it has one: four or eight bytes, the most significant
//! first. Of a signed displacement the low four bytes of its
//! two's-complement form are kept.

use crate::error::{Error, InvalidInstructionCtx};
use crate::opcodes::{imm_range, Op};
use vstd::prelude::*;

verus! {

/// The low `n` bytes of `x`, the most significant first.
pub open spec fn be_bytes(x: nat, n: nat) -> Seq<u8>
    decreases n,
{
    if n == 0 {
        Seq::empty()
    } else {
        be_bytes(x / 256, (n - 1) as nat).push((x % 256) as u8)
    }
}

/// The number that bytes write, the most significant first.
pub open spec fn be_value(bytes: Seq<u8>) -> nat
    decreases bytes.len(),
{
    if bytes.len() == 0 {
        0
    } else {
        be_value(bytes.drop_last()) * 256 + bytes.last() as nat
    }
}

/// The bytes that stand for one instruction.
pub open spec fn encoded(op: Op) -> Seq<u8> {
    seq![op.spec_code()] + be_bytes(
        op.spec_code_param() as nat,
        Op::spec_param_size(op.spec_code()),
    )
}

/// The bytes that stand for a run of instructions: those of each
/// instruction, one behind the other.
pub open spec fn encoded_all(ops: Seq<Op>) -> Seq<u8>
    decreases ops.len(),
{
    if ops.len() == 0 {
        Seq::empty()
    } else {
        encoded_all(ops.drop_last()) + encoded(ops.last())
    }
}

/// Whether a byte is the opcode of an operation.
pub open spec fn is_opcode(code: u8) -> bool {
    exists|op: Op| #[trigger] op.spec_code() == code
}

/// The operation that an opcode byte and an immediate stand for.
pub open spec fn decoded_op(code: u8, param: u64) -> Op {
    choose|op: Op| Op::decodes_to(code, param, op)
}

/// The refusal of the byte `inst` as instruction `index` of function
/// `fn_id`.
pub open spec fn refused(inst: u8, fn_id: u32, index: nat) -> Error {
    Error::InvalidInstruction(InvalidInstructionCtx { inst, fn_id, inst_off: index as u64 })
}

/// Instructions in front of what the rest of a stream decodes to.
pub open spec fn followed_by(ops: Seq<Op>, rest: Result<Seq<Op>, Error>) -> Result<
    Seq<Op>,
    Error,
> {
    match rest {
        Ok(more) => Ok(ops + more),
        Err(e) => Err(e),
    }
}

/// The instructions that a stream stands for, counted from `index`. The
/// stream is refused at the first byte in the place of an opcode that is
/// none, and at an instruction whose immediate the end of the stream cuts
/// short.
pub open spec fn decoded(bytes: Seq<u8>, fn_id: u32, index: nat) -> Result<Seq<Op>, Error>
    decreases bytes.len(),
{
    if bytes.len() == 0 {
        Ok(Seq::empty())
    } else if !is_opcode(bytes[0]) || bytes.len() < 1 + Op::spec_param_size(bytes[0]) {
        Err(refused(bytes[0], fn_id, index))
    } else {
        followed_by(
            seq![
                decoded_op(
                    bytes[0],
                    be_value(bytes.subrange(1, 1 + Op::spec_param_size(bytes[0]) as int)) as u64,
                ),
            ],
            decoded(bytes.skip(1 + Op::spec_param_size(bytes[0]) as int), fn_id, index + 1),
        )
    }
}

/// The low bytes of a number, written and read again, are that number cut
/// to as many bytes.
pub proof fn lemma_be_round_trip(x: nat, n: nat)
    ensures
        be_bytes(x, n).len() == n,
        n == 0 ==> be_value(be_bytes(x, n)) == 0,
        n == 4 ==> be_value(be_bytes(x, n)) == x % 0x1_0000_0000,
        n == 8 ==> be_value(be_bytes(x, n)) == x % 0x1_0000_0000_0000_0000,
{
    lemma_be_len(x, n);
    if n == 4 {
        lemma_be_value_step(x, 4);
        lemma_be_value_step(x / 256, 3);
        lemma_be_value_step(x / 256 / 256, 2);
        lemma_be_value_step(x / 256 / 256 / 256, 1);
    } else if n == 8 {
        lemma_be_value_step(x, 8);
        lemma_be_value_step(x / 256, 7);
        lemma_be_value_step(x / 256 / 256, 6);
        lemma_be_value_step(x / 256 / 256 / 256, 5);
        lemma_be_value_step(x / 256 / 256 / 256 / 256, 4);
        lemma_be_value_step(x / 256 / 256 / 256 / 256 / 256, 3);
        lemma_be_value_step(x / 256 / 256 / 256 / 256 / 256 / 256, 2);
        lemma_be_value_step(x / 256 / 256 / 256 / 256 / 256 / 256 / 256, 1);
    }
}

proof fn lemma_be_len(x: nat, n: nat)
    ensures
        be_bytes(x, n).len() == n,
    decreases n,
{
    if n > 0 {
        lemma_be_len(x / 256, (n - 1) as nat);
    }
}

proof fn lemma_be_value_step(x: nat, n: nat)
    requires
        n > 0,
    ensures
        be_value(be_bytes(x, n)) == be_value(be_bytes(x / 256, (n - 1) as nat)) * 256 + x % 256,
{
    let s = be_bytes(x, n);
    assert(s.drop_last() =~= be_bytes(x / 256, (n - 1) as nat));
}

/// The bytes of a run of instructions start with the bytes of its first
/// instruction.
pub proof fn lemma_encoded_all_front(op: Op, rest: Seq<Op>)
    ensures
        encoded_all(seq![op] + rest) == encoded(op) + encoded_all(rest),
    decreases rest.len(),
{
    let all = seq![op] + rest;
    if rest.len() == 0 {
        assert(all.len() == 1);
        assert(all.last() == op);
        assert(all.drop_last() =~= Seq::<Op>::empty());
        assert(encoded_all(all.drop_last()) =~= Seq::<u8>::empty());
        assert(encoded_all(rest) =~= Seq::<u8>::empty());
        assert(encoded_all(all) =~= encoded(op) + encoded_all(rest));
    } else {
        lemma_encoded_all_front(op, rest.drop_last());
        assert(all.drop_last() =~= seq![op] + rest.drop_last());
        assert(all.last() == rest.last());
        assert(encoded_all(all) =~= encoded(op) + encoded_all(rest));
    }
}

/// The immediate of an instruction as it is written reads back as an
/// immediate that stands for the same instruction.
proof fn lemma_own_immediate(op: Op)
    ensures
        is_opcode(op.spec_code()),
        decoded_op(
            op.spec_code(),
            be_value(
                be_bytes(op.spec_code_param() as nat, Op::spec_param_size(op.spec_code())),
            ) as u64,
        ) == op,
        be_bytes(op.spec_code_param() as nat, Op::spec_param_size(op.spec_code())).len()
            == Op::spec_param_size(op.spec_code()),
{
    let code = op.spec_code();
    let size = Op::spec_param_size(code);
    let p = op.spec_code_param() as nat;
    lemma_be_round_trip(p, size);
    let param = be_value(be_bytes(p, size)) as u64;
    assert(param as int % imm_range(size) == p as int % imm_range(size)) by {
        if size == 4 {
            assert(be_value(be_bytes(p, size)) == p % 0x1_0000_0000);
            assert((p % 0x1_0000_0000) % 0x1_0000_0000 == p % 0x1_0000_0000);
        } else if size == 8 {
            assert(be_value(be_bytes(p, size)) == p % 0x1_0000_0000_0000_0000);
        } else {
            assert(size == 0);
        }
    }
    lemma_decodes(op, param);
}

proof fn lemma_decodes(op: Op, param: u64)
    requires
        param as int % imm_range(Op::spec_param_size(op.spec_code())) == op.spec_code_param() as int
            % imm_range(Op::spec_param_size(op.spec_code())),
    ensures
        is_opcode(op.spec_code()),
        decoded_op(op.spec_code(), param) == op,
{
    assert(Op::decodes_to(op.spec_code(), param, op));
    Op::lemma_decoding_is_unique(op.spec_code(), param, op, decoded_op(op.spec_code(), param));
}

/// A stream that starts with the bytes of an instruction decodes to that
/// instruction and what the rest of the stream decodes to.
proof fn lemma_decoded_front(op: Op, tail: Seq<u8>, fn_id: u32, index: nat)
    ensures
        decoded(encoded(op) + tail, fn_id, index) == followed_by(
            seq![op],
            decoded(tail, fn_id, index + 1),
        ),
{
    let bytes = encoded(op) + tail;
    let size = Op::spec_param_size(op.spec_code());
    let imm = be_bytes(op.spec_code_param() as nat, size);
    lemma_own_immediate(op);
    assert(bytes[0] == op.spec_code());
    assert(bytes.len() >= 1 + size);
    assert(bytes.subrange(1, 1 + size as int) =~= imm);
    assert(bytes.skip(1 + size as int) =~= tail);
}

/// Decoding undoes encoding: the bytes of any run of instructions decode
/// to that run.
pub proof fn lemma_decoded_encoded(ops: Seq<Op>, fn_id: u32, index: nat)
    ensures
        decoded(encoded_all(ops), fn_id, index) == Ok::<Seq<Op>, Error>(ops),
    decreases ops.len(),
{
    if ops.len() == 0 {
        assert(ops =~= Seq::<Op>::empty());
    } else {
        let op = ops[0];
        let rest = ops.skip(1);
        assert(ops =~= seq![op] + rest);
        lemma_encoded_all_front(op, rest);
        lemma_decoded_front(op, encoded_all(rest), fn_id, index);
        lemma_decoded_encoded(rest, fn_id, index + 1);
    }
}

/// Reads four bytes, the most significant first.
fn read_be4(bytes: &[u8], pos: usize) -> (r: u64)
    requires
        pos + 4 <= bytes.len(),
    ensures
        r == be_value(bytes@.subrange(pos as int, pos + 4)),
        r < 0x1_0000_0000,
{
    let ghost s = bytes@.subrange(pos as int, pos + 4);
    proof {
        let s3 = s.drop_last();
        let s2 = s3.drop_last();
        let s1 = s2.drop_last();
        assert(s1.drop_last().len() == 0);
        assert(be_value(s1.drop_last()) == 0);
        assert(be_value(s1) == s[0]);
        assert(be_value(s2) == be_value(s1) * 256 + s[1]);
        assert(be_value(s3) == be_value(s2) * 256 + s[2]);
        assert(be_value(s) == be_value(s3) * 256 + s[3]);
    }
    bytes[pos] as u64 * 0x100_0000 + bytes[pos + 1] as u64 * 0x1_0000 + bytes[pos + 2] as u64
        * 0x100 + bytes[pos + 3] as u64
}

/// Reads eight bytes, the most significant first.
fn read_be8(bytes: &[u8], pos: usize) -> (r: u64)
    requires
        pos + 8 <= bytes.len(),
    ensures
        r == be_value(bytes@.subrange(pos as int, pos + 8)),
{
    let ghost s = bytes@.subrange(pos as int, pos + 8);
    proof {
        assert(s.drop_last() =~= bytes@.subrange(pos as int, pos + 4) + bytes@.subrange(
            pos + 4,
            pos + 7,
        ));
        lemma_be_value_concat(
            bytes@.subrange(pos as int, pos + 4),
            bytes@.subrange(pos + 4, pos + 8),
        );
        assert(s =~= bytes@.subrange(pos as int, pos + 4) + bytes@.subrange(pos + 4, pos + 8));
    }
    let high = read_be4(bytes, pos);
    let low = read_be4(bytes, pos + 4);
    high * 0x1_0000_0000 + low
}

/// The number that four bytes behind other bytes write.
proof fn lemma_be_value_concat(high: Seq<u8>, low: Seq<u8>)
    requires
        low.len() == 4,
    ensures
        be_value(high + low) == be_value(high) * 0x1_0000_0000 + be_value(low),
        be_value(low) < 0x1_0000_0000,
{
    let s = high + low;
    let s3 = s.drop_last();
    let s2 = s3.drop_last();
    let s1 = s2.drop_last();
    assert(s1.drop_last() =~= high);
    let l3 = low.drop_last();
    let l2 = l3.drop_last();
    let l1 = l2.drop_last();
    assert(l1.drop_last().len() == 0);
    assert(be_value(l1.drop_last()) == 0);
    assert(be_value(l1) == low[0]);
    assert(be_value(l2) == be_value(l1) * 256 + low[1]);
    assert(be_value(l3) == be_value(l2) * 256 + low[2]);
    assert(be_value(low) == be_value(l3) * 256 + low[3]);
    assert(be_value(s1) == be_value(high) * 256 + low[0]);
    assert(be_value(s2) == be_value(s1) * 256 + low[1]);
    assert(be_value(s3) == be_value(s2) * 256 + low[2]);
    assert(be_value(s) == be_value(s3) * 256 + low[3]);
}

/// Decodes a stream of instructions of function `fn_id`. A byte in the
/// place of an opcode that is none, and an instruction that the end of the
/// stream cuts short, are refused as invalid instructions, with the byte
/// and the index of the instruction.
pub fn decode_ins(bytes: &[u8], fn_id: u32) -> (r: Result<Vec<Op>, Error>)
    ensures
        match decoded(bytes@, fn_id, 0) {
            Ok(ops) => r matches Ok(v) && v@ == ops,
            Err(e) => r matches Err(x) && x == e,
        },
{
    let mut ops: Vec<Op> = Vec::new();
    let mut pos: usize = 0;
    proof {
        assert(bytes@.skip(0) =~= bytes@);
        assert(Seq::<Op>::empty() + Seq::<Op>::empty() =~= Seq::<Op>::empty());
    }
    while pos < bytes.len()
        invariant
            pos <= bytes@.len(),
            ops@.len() <= pos,
            decoded(bytes@, fn_id, 0) == followed_by(
                ops@,
                decoded(bytes@.skip(pos as int), fn_id, ops@.len()),
            ),
        decreases bytes@.len() - pos,
    {
        let ghost rest = bytes@.skip(pos as int);
        let code = bytes[pos];
        let size = Op::param_size(code);
        assert(rest[0] == code);
        if bytes.len() - pos < 1 + size {
            return Err(
                Error::InvalidInstruction(
                    InvalidInstructionCtx { inst: code, fn_id, inst_off: ops.len() as u64 },
                ),
            );
        }
        let param = if size == 4 {
            read_be4(bytes, pos + 1)
        } else if size == 8 {
            read_be8(bytes, pos + 1)
        } else {
            0
        };
        proof {
            assert(rest.subrange(1, 1 + size) =~= bytes@.subrange(pos + 1, pos + 1 + size));
            assert(rest.skip(1 + size) =~= bytes@.skip(pos + 1 + size));
            if size == 0 {
                assert(rest.subrange(1, 1).len() == 0);
            }
        }
        match Op::from_code(code, param) {
            Some(op) => {
                proof {
                    assert(op.spec_code() == code);
                    Op::lemma_decoding_is_unique(code, param, op, decoded_op(code, param));
                    let more = decoded(rest.skip(1 + size), fn_id, ops@.len() + 1);
                    if let Ok(tail) = more {
                        assert(ops@ + (seq![op] + tail) =~= ops@.push(op) + tail);
                    }
                }
                ops.push(op);
                pos = pos + 1 + size;
            },
            None => {
                return Err(
                    Error::InvalidInstruction(
                        InvalidInstructionCtx { inst: code, fn_id, inst_off: ops.len() as u64 },
                    ),
                );
            },
        }
    }
    proof {
        assert(bytes@.skip(pos as int).len() == 0);
        assert(ops@ + Seq::<Op>::empty() =~= ops@);
    }
    Ok(ops)
}

/// The low four bytes of a number, one by one.
proof fn lemma_be_bytes_4(x: nat)
    ensures
        be_bytes(x, 4) == seq![
            ((x / 0x100_0000) % 256) as u8,
            ((x / 0x1_0000) % 256) as u8,
            ((x / 0x100) % 256) as u8,
            (x % 256) as u8,
        ],
{
    let x1 = x / 256;
    let x2 = x1 / 256;
    let x3 = x2 / 256;
    assert(x2 == x / 0x1_0000);
    assert(x3 == x / 0x100_0000);
    assert(be_bytes(x3 / 256, 0) =~= Seq::<u8>::empty());
    assert(be_bytes(x3, 1) =~= seq![(x3 % 256) as u8]);
    assert(be_bytes(x2, 2) =~= seq![(x3 % 256) as u8, (x2 % 256) as u8]);
    assert(be_bytes(x1, 3) =~= seq![(x3 % 256) as u8, (x2 % 256) as u8, (x1 % 256) as u8]);
    assert(be_bytes(x, 4) =~= seq![
        (x3 % 256) as u8,
        (x2 % 256) as u8,
        (x1 % 256) as u8,
        (x % 256) as u8,
    ]);
}

/// The low eight bytes of a number: the four of its high half, then the
/// four of its low half.
proof fn lemma_be_bytes_8(x: nat)
    ensures
        be_bytes(x, 8) == be_bytes(x / 0x1_0000_0000, 4) + be_bytes(x, 4),
{
    let x1 = x / 256;
    let x2 = x1 / 256;
    let x3 = x2 / 256;
    let x4 = x3 / 256;
    assert(x4 == x / 0x1_0000_0000);
    assert(be_bytes(x4 / 256 / 256 / 256 / 256, 0) =~= Seq::<u8>::empty());
    let high = be_bytes(x4, 4);
    assert(be_bytes(x3, 5) =~= high.push((x3 % 256) as u8));
    assert(be_bytes(x2, 6) =~= high.push((x3 % 256) as u8).push((x2 % 256) as u8));
    assert(be_bytes(x1, 7) =~= high.push((x3 % 256) as u8).push((x2 % 256) as u8).push(
        (x1 % 256) as u8,
    ));
    assert(be_bytes(x, 8) =~= high.push((x3 % 256) as u8).push((x2 % 256) as u8).push(
        (x1 % 256) as u8,
    ).push((x % 256) as u8));
    lemma_be_bytes_4(x);
    assert(x2 == x / 0x1_0000);
    assert(x3 == x / 0x100_0000);
    assert(be_bytes(x, 8) =~= high + be_bytes(x, 4));
}

/// Appends the low four bytes of a number, the most significant first.
fn push_be4(out: &mut Vec<u8>, x: u64)
    ensures
        final(out)@ == old(out)@ + be_bytes(x as nat, 4),
{
    proof {
        lemma_be_bytes_4(x as nat);
    }
    out.push(((x / 0x100_0000) % 256) as u8);
    out.push(((x / 0x1_0000) % 256) as u8);
    out.push(((x / 0x100) % 256) as u8);
    out.push((x % 256) as u8);
    assert(final(out)@ =~= old(out)@ + be_bytes(x as nat, 4));
}

/// Appends the bytes that stand for one instruction.
pub fn encode_op(out: &mut Vec<u8>, op: &Op)
    ensures
        final(out)@ == old(out)@ + encoded(*op),
{
    let code = op.code();
    let param = op.code_param();
    let size = Op::param_size(code);
    out.push(code);
    if size == 8 {
        proof {
            lemma_be_bytes_8(param as nat);
        }
        push_be4(out, param / 0x1_0000_0000);
        push_be4(out, param);
    } else if size == 4 {
        push_be4(out, param);
    } else {
        assert(be_bytes(param as nat, 0) =~= Seq::<u8>::empty());
    }
    assert(final(out)@ =~= old(out)@ + encoded(*op));
}

/// The bytes that stand for a run of instructions.
pub fn encode_ins(ops: &Vec<Op>) -> (out: Vec<u8>)
    ensures
        out@ == encoded_all(ops@),
{
    let mut out: Vec<u8> = Vec::new();
    let mut i: usize = 0;
    while i < ops.len()
        invariant
            i <= ops.len(),
            out@ == encoded_all(ops@.take(i as int)),
        decreases ops.len() - i,
    {
        encode_op(&mut out, &ops[i]);
        proof {
            assert(ops@.take(i + 1).drop_last() =~= ops@.take(i as int));
        }
        i += 1;
    }
    assert(ops@.take(i as int) =~= ops@);
    out
}

} // verus!

verus! {

/// Bytes that are read as a number and written again are the same bytes.
pub proof fn lemma_be_bytes_of_value(bytes: Seq<u8>)
    ensures
        be_bytes(be_value(bytes), bytes.len()) == bytes,
        be_value(bytes) / 256 == (if bytes.len() > 0 {
            be_value(bytes.drop_last())
        } else {
            0
        }),
    decreases bytes.len(),
{
    if bytes.len() > 0 {
        let front = bytes.drop_last();
        lemma_be_bytes_of_value(front);
        let v = be_value(bytes);
        assert(v == be_value(front) * 256 + bytes.last() as nat);
        assert(v / 256 == be_value(front));
        assert(v % 256 == bytes.last() as nat);
        assert(be_bytes(v, bytes.len()) =~= be_bytes(be_value(front), front.len()).push(
            bytes.last(),
        ));
        assert(front.push(bytes.last()) =~= bytes);
    } else {
        assert(be_bytes(0, 0) =~= bytes);
    }
}

/// The low bytes of a number are those of the number cut to as many bytes.
proof fn lemma_be_bytes_of_low(x: nat, y: nat, n: nat)
    requires
        n == 0 || n == 4 || n == 8,
        x as int % imm_range(n) == y as int % imm_range(n),
    ensures
        be_bytes(x, n) == be_bytes(y, n),
{
    lemma_be_round_trip(x, n);
    lemma_be_round_trip(y, n);
    lemma_be_bytes_of_value(be_bytes(x, n));
    lemma_be_bytes_of_value(be_bytes(y, n));
}

/// An opcode with any immediate stands for some operation.
proof fn lemma_opcode_decodes(code: u8, param: u64)
    requires
        is_opcode(code),
    ensures
        Op::decodes_to(code, param, decoded_op(code, param)),
{
    let some = choose|op: Op| #[trigger] op.spec_code() == code;
    let low = param as u32;
    let disp = param as i64 as i32;
    assert(low as u64 % 0x1_0000_0000 == param % 0x1_0000_0000) by (bit_vector)
        requires
            low == param as u32,
    ;
    assert((disp as i64 as u64) % 0x1_0000_0000 == param % 0x1_0000_0000) by (bit_vector)
        requires
            disp == param as i64 as i32,
    ;
    let op = match some {
        Op::Push(_) => Op::Push(param),
        Op::BrA(_) => Op::BrA(param),
        Op::PopN(_) => Op::PopN(low),
        Op::LocA(_) => Op::LocA(low),
        Op::ArgA(_) => Op::ArgA(low),
        Op::GlobA(_) => Op::GlobA(low),
        Op::StackAlloc(_) => Op::StackAlloc(low),
        Op::Call(_) => Op::Call(low),
        Op::CallName(_) => Op::CallName(low),
        Op::Br(_) => Op::Br(disp),
        Op::BrFalse(_) => Op::BrFalse(disp),
        Op::BrTrue(_) => Op::BrTrue(disp),
        other => other,
    };
    assert(Op::decodes_to(code, param, op));
}

/// Encoding undoes decoding: a stream that decodes is the bytes of the
/// instructions that it decodes to. So no two streams stand for the same
/// instructions.
pub proof fn lemma_encoded_decoded(bytes: Seq<u8>, fn_id: u32, index: nat)
    requires
        decoded(bytes, fn_id, index) is Ok,
    ensures
        encoded_all(decoded(bytes, fn_id, index)->Ok_0) == bytes,
    decreases bytes.len(),
{
    if bytes.len() == 0 {
        assert(encoded_all(Seq::<Op>::empty()) =~= bytes);
    } else {
        let code = bytes[0];
        let size = Op::spec_param_size(code);
        let imm = bytes.subrange(1, 1 + size as int);
        let tail = bytes.skip(1 + size as int);
        let param = be_value(imm) as u64;
        let op = decoded_op(code, param);
        let rest = decoded(tail, fn_id, index + 1)->Ok_0;
        lemma_encoded_decoded(tail, fn_id, index + 1);
        lemma_opcode_decodes(code, param);
        lemma_be_bytes_of_value(imm);
        lemma_be_value_bound(imm);
        lemma_be_bytes_of_low(op.spec_code_param() as nat, be_value(imm), size);
        lemma_encoded_all_front(op, rest);
        assert(encoded(op) =~= seq![code] + imm);
        assert(seq![code] + imm + tail =~= bytes);
    }
}

/// A number that `n` bytes write is less than 256 to the `n`.
proof fn lemma_be_value_bound(bytes: Seq<u8>)
    ensures
        bytes.len() == 0 ==> be_value(bytes) == 0,
        bytes.len() == 4 ==> be_value(bytes) < 0x1_0000_0000,
        bytes.len() == 8 ==> be_value(bytes) < 0x1_0000_0000_0000_0000,
{
    if bytes.len() == 4 {
        lemma_be_value_concat(Seq::<u8>::empty(), bytes);
        assert(Seq::<u8>::empty() + bytes =~= bytes);
    } else if bytes.len() == 8 {
        let high = bytes.subrange(0, 4);
        let low = bytes.subrange(4, 8);
        lemma_be_value_concat(high, low);
        lemma_be_value_concat(Seq::<u8>::empty(), high);
        assert(Seq::<u8>::empty() + high =~= high);
        assert(high + low =~= bytes);
    }
}

} // verus!
