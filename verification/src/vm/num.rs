//! A slot read as a number. A slot is 64 bits without a type: each
//! instruction reads it as unsigned or as two's-complement signed.

use vstd::prelude::*;

verus! {

/// The number of values of a slot, 2^64.
pub open spec fn slot_range() -> int {
    0x1_0000_0000_0000_0000
}

/// A slot read as a two's-complement signed integer.
pub open spec fn signed(x: u64) -> int {
    if x < 0x8000_0000_0000_0000 {
        x as int
    } else {
        x - slot_range()
    }
}

/// The slot that holds an integer, taken modulo 2^64.
pub open spec fn wrap(v: int) -> u64 {
    (v % slot_range()) as u64
}

/// The slot that a comparison leaves: all ones, which reads as -1, for a
/// negative order, then 0 and 1.
pub open spec fn tri_state(order: int) -> u64 {
    if order < 0 {
        u64::MAX
    } else if order == 0 {
        0
    } else {
        1
    }
}

/// -1, 0 or 1 as `a` is less than, equal to or greater than `b`.
pub open spec fn int_order(a: int, b: int) -> int {
    if a < b {
        -1
    } else if a > b {
        1
    } else {
        0
    }
}

/// The quotient of two integers rounded toward zero, for a divisor other
/// than zero.
pub open spec fn trunc_div(a: int, b: int) -> int {
    if a >= 0 {
        if b > 0 {
            a / b
        } else {
            -(a / (-b))
        }
    } else {
        if b > 0 {
            -((-a) / b)
        } else {
            (-a) / (-b)
        }
    }
}

/// The number of places that a shift moves its operand: the low six bits of
/// the amount.
pub open spec fn shift_places(amount: u64) -> u64 {
    amount % 64
}

/// A left shift; the bits that leave the slot are lost.
pub open spec fn shift_left(x: u64, amount: u64) -> u64 {
    x << shift_places(amount)
}

/// A right shift that fills with zeros.
pub open spec fn shift_right_logical(x: u64, amount: u64) -> u64 {
    x >> shift_places(amount)
}

/// A right shift that fills with the sign bit.
pub open spec fn shift_right_arith(x: u64, amount: u64) -> u64 {
    ((x as i64) >> shift_places(amount)) as u64
}

/// The low 32 bits of a slot.
pub open spec fn low_u32_of(x: u64) -> u32 {
    (x % 0x1_0000_0000) as u32
}

/// The low 32 bits of a slot.
pub fn low_u32(x: u64) -> (r: u32)
    ensures
        r == low_u32_of(x),
        r == x as u32,
{
    assert(x as u32 == x % 0x1_0000_0000) by (bit_vector);
    #[verifier::truncate]
    (x as u32)
}

/// Reads a slot as signed.
pub fn to_signed(x: u64) -> (r: i64)
    ensures
        r == signed(x),
        r == x as i64,
{
    assert(x < 0x8000_0000_0000_0000 ==> (x as i64) == x) by (bit_vector);
    assert(x >= 0x8000_0000_0000_0000 ==> (x as i64) == x - 0x1_0000_0000_0000_0000)
        by (bit_vector);
    #[verifier::truncate]
    (x as i64)
}

/// The slot that holds a signed integer.
pub fn from_signed(v: i64) -> (r: u64)
    ensures
        r == wrap(v as int),
        r == v as u64,
        signed(r) == v,
{
    assert(v >= 0 ==> (v as u64) == v) by (bit_vector);
    assert(v < 0 ==> (v as u64) == v + 0x1_0000_0000_0000_0000) by (bit_vector);
    #[verifier::truncate]
    (v as u64)
}

/// The low six bits of a shift amount, which are all that a shift of a slot
/// looks at.
pub fn places(amount: u64) -> (r: u32)
    ensures
        r == shift_places(amount),
{
    (amount % 64) as u32
}

/// Reading a slot as signed and storing it back gives the same slot, and the
/// other way round: the two readings share their bits.
pub proof fn lemma_signed_round_trip(x: u64, v: i64)
    ensures
        wrap(signed(x)) == x,
        signed(wrap(v as int)) == v,
{
}

/// Wrapping addition is addition modulo 2^64, under either reading of the
/// slots: the sum of two signed integers, wrapped into a slot, is the
/// wrapping sum of their slots; and so is the sum of two unsigned ones.
pub proof fn lemma_add_wraps(a: i64, b: i64)
    ensures
        wrap(a + b) == vstd::wrapping::u64_specs::wrapping_add(wrap(a as int), wrap(b as int)),
        signed(vstd::wrapping::u64_specs::wrapping_add(wrap(a as int), wrap(b as int)))
            == vstd::wrapping::i64_specs::wrapping_add(a, b),
        forall|x: u64, y: u64|
            #[trigger] vstd::wrapping::u64_specs::wrapping_add(x, y) == wrap(x + y),
{
}

} // verus!
