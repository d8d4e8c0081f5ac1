//! The text that the machine reads and writes: tokens between white space,
//! signed decimal integers, and the bytes of a character.

use vstd::prelude::*;

verus! {

/// Whether a byte separates tokens: tab, line feed, carriage return, space.
pub open spec fn is_space(b: u8) -> bool {
    b == 9 || b == 10 || b == 13 || b == 32
}

/// Whether a byte is a decimal digit.
pub open spec fn is_digit(b: u8) -> bool {
    48 <= b <= 57
}

/// The number of bytes at the front of `s` that separate tokens.
pub open spec fn space_run(s: Seq<u8>) -> nat
    decreases s.len(),
{
    if s.len() > 0 && is_space(s[0]) {
        1 + space_run(s.skip(1))
    } else {
        0
    }
}

/// The number of bytes at the front of `s` that belong to a token.
pub open spec fn token_run(s: Seq<u8>) -> nat
    decreases s.len(),
{
    if s.len() > 0 && !is_space(s[0]) {
        1 + token_run(s.skip(1))
    } else {
        0
    }
}

/// Where the next token of `s` starts: behind the white space at the front.
pub open spec fn token_start(s: Seq<u8>) -> nat {
    space_run(s)
}

/// Where the next token of `s` ends.
pub open spec fn token_end(s: Seq<u8>) -> nat {
    token_start(s) + token_run(s.skip(token_start(s) as int))
}

/// The next token of `s`: the bytes behind the leading white space, up to
/// the next white space or the end. It is empty where `s` holds no token.
pub open spec fn next_token(s: Seq<u8>) -> Seq<u8> {
    s.subrange(token_start(s) as int, token_end(s) as int)
}

/// How many bytes of `s` reading a token uses up: the white space in front,
/// the token, and the one byte of white space that ends it, if there is one.
pub open spec fn token_consumed(s: Seq<u8>) -> nat {
    if token_end(s) < s.len() {
        token_end(s) + 1
    } else {
        token_end(s)
    }
}

/// The number that a run of decimal digits writes.
pub open spec fn digits_value(s: Seq<u8>) -> nat
    decreases s.len(),
{
    if s.len() == 0 {
        0
    } else {
        digits_value(s.drop_last()) * 10 + (s.last() - 48) as nat
    }
}

/// Whether `s` is a run of one or more decimal digits.
pub open spec fn is_digits(s: Seq<u8>) -> bool {
    s.len() > 0 && forall|i: int| 0 <= i < s.len() ==> is_digit(#[trigger] s[i])
}

/// The signed integer that a token writes: an optional `+` or `-`, then one
/// or more decimal digits, with a value that a signed 64-bit integer holds.
/// Any other token writes none.
pub open spec fn parse_int(tok: Seq<u8>) -> Option<int> {
    if tok.len() > 0 && tok[0] == 45 {
        if is_digits(tok.skip(1)) && digits_value(tok.skip(1)) <= 0x8000_0000_0000_0000 {
            Some(-(digits_value(tok.skip(1)) as int))
        } else {
            None
        }
    } else if tok.len() > 0 && tok[0] == 43 {
        if is_digits(tok.skip(1)) && digits_value(tok.skip(1)) <= 0x7fff_ffff_ffff_ffff {
            Some(digits_value(tok.skip(1)) as int)
        } else {
            None
        }
    } else {
        if is_digits(tok) && digits_value(tok) <= 0x7fff_ffff_ffff_ffff {
            Some(digits_value(tok) as int)
        } else {
            None
        }
    }
}

/// The decimal digits of a natural number, without leading zeros.
pub open spec fn decimal(n: nat) -> Seq<u8>
    decreases n,
{
    if n < 10 {
        seq![(48 + n) as u8]
    } else {
        decimal(n / 10).push((48 + n % 10) as u8)
    }
}

/// A signed integer in decimal, with `-` in front where it is negative.
pub open spec fn signed_decimal(v: int) -> Seq<u8> {
    if v < 0 {
        seq![45u8] + decimal((-v) as nat)
    } else {
        decimal(v as nat)
    }
}

/// The bytes that write the character with the code `b`: the byte itself
/// below 128, and the two bytes of its UTF-8 form from there on.
pub open spec fn char_bytes(b: u8) -> Seq<u8> {
    if b < 128 {
        seq![b]
    } else {
        seq![(0xc0 + b / 64) as u8, (0x80 + b % 64) as u8]
    }
}

/// The end of a line as the machine writes it.
pub open spec fn line_end() -> Seq<u8> {
    seq![13u8, 10u8]
}

} // verus!

verus! {

/// The index behind the white space that starts at `pos`.
pub fn skip_space(input: &Vec<u8>, pos: usize) -> (r: usize)
    requires
        pos <= input.len(),
    ensures
        r == pos + space_run(input@.skip(pos as int)),
        r <= input.len(),
{
    let mut i = pos;
    while i < input.len() && (input[i] == 9 || input[i] == 10 || input[i] == 13 || input[i] == 32)
        invariant
            pos <= i <= input.len(),
            pos + space_run(input@.skip(pos as int)) == i + space_run(input@.skip(i as int)),
        decreases input.len() - i,
    {
        assert(input@.skip(i as int).skip(1) == input@.skip(i + 1));
        i += 1;
    }
    proof {
        lemma_run_ends(input@.skip(i as int));
    }
    i
}

/// The index behind the token that starts at `pos`.
pub fn skip_token(input: &Vec<u8>, pos: usize) -> (r: usize)
    requires
        pos <= input.len(),
    ensures
        r == pos + token_run(input@.skip(pos as int)),
        r <= input.len(),
{
    let mut i = pos;
    while i < input.len() && !(input[i] == 9 || input[i] == 10 || input[i] == 13 || input[i]
        == 32)
        invariant
            pos <= i <= input.len(),
            pos + token_run(input@.skip(pos as int)) == i + token_run(input@.skip(i as int)),
        decreases input.len() - i,
    {
        assert(input@.skip(i as int).skip(1) == input@.skip(i + 1));
        i += 1;
    }
    proof {
        lemma_run_ends(input@.skip(i as int));
    }
    i
}

/// A run ends where the bytes end or the next byte is of the other kind.
proof fn lemma_run_ends(s: Seq<u8>)
    ensures
        (s.len() == 0 || !is_space(s[0])) ==> space_run(s) == 0,
        (s.len() == 0 || is_space(s[0])) ==> token_run(s) == 0,
{
}

/// The value of a run of digits is no less than that of any run that it
/// starts with.
pub proof fn lemma_digits_value_grows(s: Seq<u8>, k: int)
    requires
        is_digits(s),
        0 <= k <= s.len(),
    ensures
        digits_value(s.take(k)) <= digits_value(s),
    decreases s.len(),
{
    if k == s.len() {
        assert(s.take(k) == s);
    } else {
        let front = s.drop_last();
        assert(front.take(k) == s.take(k));
        if front.len() > 0 {
            lemma_digits_value_grows(front, k);
        } else {
            assert(s.take(k) == front);
        }
    }
}

/// The number that the digits of `input` from `start` up to `end` write, if
/// they are one or more digits that write no more than `limit`.
fn parse_digits(input: &Vec<u8>, start: usize, end: usize, limit: u64) -> (r: Option<u64>)
    requires
        start <= end <= input.len(),
    ensures
        r == (if is_digits(input@.subrange(start as int, end as int)) && digits_value(
            input@.subrange(start as int, end as int),
        ) <= limit {
            Some(digits_value(input@.subrange(start as int, end as int)) as u64)
        } else {
            None
        }),
{
    let ghost s = input@.subrange(start as int, end as int);
    if start == end {
        return None;
    }
    let mut acc: u64 = 0;
    let mut i = start;
    while i < end
        invariant
            start <= i <= end <= input.len(),
            s == input@.subrange(start as int, end as int),
            forall|j: int| 0 <= j < i - start ==> is_digit(#[trigger] s[j]),
            acc == digits_value(s.take(i - start)),
            acc <= limit,
        decreases end - i,
    {
        let b = input[i];
        if b < 48 || b > 57 {
            assert(!is_digit(s[i - start]));
            return None;
        }
        let d = (b - 48) as u64;
        assert(s.take(i - start + 1).drop_last() == s.take(i - start));
        if d > limit || acc > (limit - d) / 10 {
            proof {
                if is_digits(s) {
                    lemma_digits_value_grows(s, i - start + 1);
                }
            }
            return None;
        }
        acc = acc * 10 + d;
        i += 1;
    }
    assert(s.take(end - start) == s);
    Some(acc)
}

/// Reads the bytes of `input` from `start` up to `end` as a signed decimal
/// integer.
pub fn parse_int_in(input: &Vec<u8>, start: usize, end: usize) -> (r: Option<i64>)
    requires
        start <= end <= input.len(),
    ensures
        match parse_int(input@.subrange(start as int, end as int)) {
            Some(v) => r == Some(v as i64) && i64::MIN <= v <= i64::MAX,
            None => r is None,
        },
{
    let ghost tok = input@.subrange(start as int, end as int);
    if start < end && input[start] == 45 {
        assert(tok.skip(1) == input@.subrange(start + 1, end as int));
        match parse_digits(input, start + 1, end, 0x8000_0000_0000_0000) {
            Some(m) => if m == 0x8000_0000_0000_0000 {
                Some(i64::MIN)
            } else {
                Some(-(m as i64))
            },
            None => None,
        }
    } else if start < end && input[start] == 43 {
        assert(tok.skip(1) == input@.subrange(start + 1, end as int));
        match parse_digits(input, start + 1, end, 0x7fff_ffff_ffff_ffff) {
            Some(m) => Some(m as i64),
            None => None,
        }
    } else {
        match parse_digits(input, start, end, 0x7fff_ffff_ffff_ffff) {
            Some(m) => Some(m as i64),
            None => None,
        }
    }
}

/// Appends the decimal digits of `n` to `out`.
pub fn push_decimal(out: &mut Vec<u8>, n: u64)
    ensures
        final(out)@ == old(out)@ + decimal(n as nat),
    decreases n,
{
    if n >= 10 {
        push_decimal(out, n / 10);
    }
    out.push(48 + (n % 10) as u8);
    assert(final(out)@ == old(out)@ + decimal(n as nat));
}

/// Appends the bytes that write the character with the code `b` to `out`.
pub fn push_char(out: &mut Vec<u8>, b: u8)
    ensures
        final(out)@ == old(out)@ + char_bytes(b),
{
    if b < 128 {
        out.push(b);
    } else {
        out.push(0xc0 + b / 64);
        out.push(0x80 + b % 64);
    }
    assert(final(out)@ == old(out)@ + char_bytes(b));
}

} // verus!

verus! {

/// The decimal digits of a number are digits, and write that number.
pub proof fn lemma_decimal_is_digits(n: nat)
    ensures
        is_digits(decimal(n)),
        digits_value(decimal(n)) == n,
    decreases n,
{
    if n < 10 {
        let s = seq![(48 + n) as u8];
        assert(s.drop_last() =~= Seq::<u8>::empty());
        assert(digits_value(s.drop_last()) == 0);
    } else {
        lemma_decimal_is_digits(n / 10);
        let s = decimal(n / 10).push((48 + n % 10) as u8);
        assert(s.drop_last() =~= decimal(n / 10));
    }
}

/// What is written for a signed integer reads back as that integer.
pub proof fn lemma_written_integer_reads_back(v: int)
    requires
        i64::MIN <= v <= i64::MAX,
    ensures
        parse_int(signed_decimal(v)) == Some(v),
        forall|i: int| 0 <= i < signed_decimal(v).len() ==> !is_space(#[trigger] signed_decimal(v)[i]),
        signed_decimal(v).len() > 0,
{
    if v < 0 {
        lemma_decimal_is_digits((-v) as nat);
        let tok = seq![45u8] + decimal((-v) as nat);
        assert(tok.skip(1) =~= decimal((-v) as nat));
    } else {
        lemma_decimal_is_digits(v as nat);
        assert(is_digit(decimal(v as nat)[0]));
    }
}

/// A run of bytes without white space, with white space or nothing behind
/// it, is the next token of the text, which is used up with the byte
/// behind it.
pub proof fn lemma_token_in_front(tok: Seq<u8>, rest: Seq<u8>)
    requires
        tok.len() > 0,
        forall|i: int| 0 <= i < tok.len() ==> !is_space(#[trigger] tok[i]),
        rest.len() == 0 || is_space(rest[0]),
    ensures
        next_token(tok + rest) == tok,
        token_consumed(tok + rest) == (if rest.len() > 0 {
            tok.len() + 1
        } else {
            tok.len()
        }),
{
    let s = tok + rest;
    assert(s[0] == tok[0]);
    assert(space_run(s) == 0);
    assert(s.skip(0) =~= s);
    lemma_token_run(tok, rest, 0);
    assert(s.subrange(0, tok.len() as int) =~= tok);
}

/// The token that starts at `k` within a run of bytes without white space
/// ends where the run ends.
proof fn lemma_token_run(tok: Seq<u8>, rest: Seq<u8>, k: int)
    requires
        0 <= k <= tok.len(),
        forall|i: int| 0 <= i < tok.len() ==> !is_space(#[trigger] tok[i]),
        rest.len() == 0 || is_space(rest[0]),
    ensures
        token_run((tok + rest).skip(k)) == tok.len() - k,
    decreases tok.len() - k,
{
    let s = (tok + rest).skip(k);
    if k < tok.len() {
        assert(s[0] == tok[k]);
        assert(s.skip(1) =~= (tok + rest).skip(k + 1));
        lemma_token_run(tok, rest, k + 1);
    } else {
        assert(s =~= rest);
    }
}

} // verus!
