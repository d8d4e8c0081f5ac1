//! The text that shows an error with the piece of source that it is about:
//! the message, the lines that the piece lies in with the lines around
//! them, and a row of carets under the piece.
//!
//! The lines are found with `line_span`, and the columns that a piece of
//! text takes on a terminal are counted by `unicode_width`.

use crate::syntax::span::Span;
use crate::vm::text::{decimal, push_decimal};
use core::ops::Range;
use vstd::prelude::*;
use vstd::string::StringSliceAdditionalSpecFns;
use vstd::utf8::{
    decode_utf8, encode_utf8_valid_utf8, is_char_boundary,
    is_char_boundary_iff_not_is_continuation_byte, is_char_boundary_start_end_of_seq, valid_utf8,
};

verus! {

/// The number of columns that a text takes when it is displayed, as
/// `unicode_width` counts them.
pub uninterp spec fn display_width(text: Seq<char>) -> nat;

/// The index behind the last line feed in front of `index`, or 0 where
/// there is none: where the line that `index` lies in starts.
pub open spec fn line_start(text: Seq<u8>, index: int) -> int
    decreases index,
{
    if index <= 0 {
        0
    } else if text[index - 1] == 10 {
        index
    } else {
        line_start(text, index - 1)
    }
}

/// The index of the first line feed at or behind `index`, or the length of
/// the text where there is none.
pub open spec fn line_feed_from(text: Seq<u8>, index: int) -> int
    decreases text.len() - index,
{
    if index >= text.len() {
        text.len() as int
    } else if text[index] == 10 {
        index
    } else {
        line_feed_from(text, index + 1)
    }
}

/// `end` without the carriage return in front of it, if there is one.
pub open spec fn before_return(text: Seq<u8>, end: int) -> int {
    if end > 0 && text[end - 1] == 13 {
        end - 1
    } else {
        end
    }
}

/// Where the line that `index` lies in ends: at its line feed, or at the
/// carriage return in front of that, or at the end of the text.
pub open spec fn line_end(text: Seq<u8>, index: int) -> int {
    before_return(text, line_feed_from(text, index))
}

/// The line behind the one that `index` lies in, if there is one.
pub open spec fn next_line(text: Seq<u8>, index: int) -> Option<(int, int)> {
    if line_feed_from(text, index) < text.len() {
        Some((line_feed_from(text, index) + 1, line_end(text, line_feed_from(text, index) + 1)))
    } else {
        None
    }
}

/// The line in front of the one that `index` lies in, if there is one.
pub open spec fn prev_line(text: Seq<u8>, index: int) -> Option<(int, int)> {
    if line_start(text, index) > 0 {
        Some(
            (
                line_start(text, before_return(text, line_start(text, index) - 1)),
                before_return(text, line_start(text, index) - 1),
            ),
        )
    } else {
        None
    }
}

/// `line_span::find_line_range`: the range of the line that `index` lies
/// in, from behind the last line feed in front of `index` up to the line's
/// own line ending. The function slices the text at `index`, so `index` has
/// to lie within the text and between two characters. The contract is
/// taken on trust.
#[verifier::external_body]
fn find_line_range(text: &str, index: usize) -> (r: Range<usize>)
    requires
        is_char_boundary(text.spec_bytes(), index as int),
    ensures
        r.start == line_start(text.spec_bytes(), index as int),
        r.end == line_end(text.spec_bytes(), index as int),
{
    line_span::find_line_range(text, index)
}

/// `line_span::find_prev_line_range`: the range of the line in front of the
/// one that `index` lies in, or `None` where that is the first line. The
/// contract is taken on trust.
#[verifier::external_body]
fn find_prev_line_range(text: &str, index: usize) -> (r: Option<Range<usize>>)
    requires
        is_char_boundary(text.spec_bytes(), index as int),
    ensures
        match prev_line(text.spec_bytes(), index as int) {
            Some((start, end)) => r matches Some(range) && range.start == start && range.end
                == end,
            None => r is None,
        },
{
    line_span::find_prev_line_range(text, index)
}

/// `line_span::find_next_line_range`: the range of the line behind the one
/// that `index` lies in, or `None` where that is the last line. The
/// contract is taken on trust.
#[verifier::external_body]
fn find_next_line_range(text: &str, index: usize) -> (r: Option<Range<usize>>)
    requires
        is_char_boundary(text.spec_bytes(), index as int),
    ensures
        match next_line(text.spec_bytes(), index as int) {
            Some((start, end)) => r matches Some(range) && range.start == start && range.end
                == end,
            None => r is None,
        },
{
    line_span::find_next_line_range(text, index)
}

/// `unicode_width::UnicodeWidthStr::width`: the number of columns that the
/// text takes when it is displayed. The contract is taken on trust: it
/// gives the result a name and says nothing of its value, which the
/// tables of the crate decide.
#[verifier::external_body]
fn str_width(text: &str) -> (w: usize)
    ensures
        w == display_width(text@),
{
    unicode_width::UnicodeWidthStr::width(text)
}

} // verus!

verus! {

/// `n` copies of a byte.
pub open spec fn repeated(byte: u8, n: nat) -> Seq<u8> {
    Seq::new(n, |i: int| byte)
}

/// The columns that the bytes of `text` from `a` up to `b` take.
pub open spec fn width_of(text: Seq<u8>, a: int, b: int) -> nat {
    display_width(decode_utf8(text.subrange(a, b)))
}

/// The bytes of `text` from `a` up to `b`, and a line feed.
pub open spec fn line_text(text: Seq<u8>, a: int, b: int) -> Seq<u8> {
    text.subrange(a, b).push(10)
}

/// A line of marks: `spaces` spaces, `carets` carets, and a line feed.
pub open spec fn marks(spaces: nat, carets: nat) -> Seq<u8> {
    (repeated(32, spaces) + repeated(94, carets)).push(10)
}

/// Where a line starts lies between the start of the text and the index,
/// behind a line feed or at the start, with no line feed from there up to
/// the index.
pub proof fn lemma_line_start(text: Seq<u8>, index: int)
    requires
        0 <= index <= text.len(),
    ensures
        0 <= line_start(text, index) <= index,
        line_start(text, index) == 0 || text[line_start(text, index) - 1] == 10,
        forall|j: int| line_start(text, index) <= j < index ==> text[j] != 10,
    decreases index,
{
    if index > 0 && text[index - 1] != 10 {
        lemma_line_start(text, index - 1);
    }
}

/// The next line feed lies between the index and the end of the text, with
/// no line feed from the index up to it.
pub proof fn lemma_line_feed_from(text: Seq<u8>, index: int)
    requires
        0 <= index <= text.len(),
    ensures
        index <= line_feed_from(text, index) <= text.len(),
        line_feed_from(text, index) == text.len() || text[line_feed_from(text, index)] == 10,
        forall|j: int| index <= j < line_feed_from(text, index) ==> text[j] != 10,
    decreases text.len() - index,
{
    if index < text.len() && text[index] != 10 {
        lemma_line_feed_from(text, index + 1);
    }
}

/// In well-formed text, a byte below 128 is a character of its own: the
/// text can be cut in front of it and behind it.
pub proof fn lemma_cut_at_ascii(text: Seq<u8>, i: int)
    requires
        valid_utf8(text),
        0 <= i < text.len(),
        text[i] < 128,
    ensures
        is_char_boundary(text, i),
        is_char_boundary(text, i + 1),
{
    is_char_boundary_iff_not_is_continuation_byte(text, i);
    assert(is_char_boundary(text, i));
    vstd::utf8::valid_utf8_split(text, i);
    let tail = text.subrange(i, text.len() as int);
    assert(tail[0] == text[i]);
    assert(valid_utf8(tail));
    reveal_with_fuel(is_char_boundary, 2);
    assert(is_char_boundary(tail, 1));
    if i + 1 < text.len() {
        is_char_boundary_iff_not_is_continuation_byte(tail, 1);
        assert(tail[1] == text[i + 1]);
        is_char_boundary_iff_not_is_continuation_byte(text, i + 1);
    } else {
        is_char_boundary_start_end_of_seq(text);
    }
}

/// In well-formed text, the text can be cut where a line starts and where
/// it ends.
pub proof fn lemma_cut_at_lines(text: Seq<u8>, index: int)
    requires
        valid_utf8(text),
        0 <= index <= text.len(),
    ensures
        is_char_boundary(text, line_start(text, index)),
        is_char_boundary(text, line_feed_from(text, index)),
        is_char_boundary(text, line_end(text, index)),
        0 <= line_start(text, index) <= index <= line_feed_from(text, index) <= text.len(),
        line_start(text, index) <= line_end(text, index) <= line_feed_from(text, index),
{
    lemma_line_start(text, index);
    lemma_line_feed_from(text, index);
    is_char_boundary_start_end_of_seq(text);
    let s = line_start(text, index);
    if s > 0 {
        lemma_cut_at_ascii(text, s - 1);
    }
    let f = line_feed_from(text, index);
    if f < text.len() {
        lemma_cut_at_ascii(text, f);
    }
    if f > 0 && text[f - 1] == 13 {
        lemma_cut_at_ascii(text, f - 1);
    }
}

/// In well-formed text, the lines in front of and behind the line of an
/// index lie within the text, and the text can be cut at their ends.
pub proof fn lemma_cut_at_neighbours(text: Seq<u8>, index: int)
    requires
        valid_utf8(text),
        0 <= index <= text.len(),
    ensures
        match prev_line(text, index) {
            Some((a, b)) => 0 <= a <= b < index && is_char_boundary(text, a) && is_char_boundary(
                text,
                b,
            ),
            None => true,
        },
        match next_line(text, index) {
            Some((a, b)) => index < a <= b <= text.len() && is_char_boundary(text, a)
                && is_char_boundary(text, b) && line_start(text, a) == a,
            None => true,
        },
{
    lemma_line_start(text, index);
    lemma_line_feed_from(text, index);
    if line_start(text, index) > 0 {
        let p = line_start(text, index) - 1;
        lemma_cut_at_lines(text, before_return(text, p));
        if before_return(text, p) < p {
            lemma_cut_at_ascii(text, p - 1);
        } else {
            lemma_cut_at_ascii(text, p);
        }
    }
    if line_feed_from(text, index) < text.len() {
        let a = line_feed_from(text, index) + 1;
        lemma_cut_at_lines(text, a);
        lemma_cut_at_ascii(text, a - 1);
    }
}

/// Appends the bytes of `bytes` from `a` up to `b`.
fn push_range(out: &mut Vec<u8>, bytes: &[u8], a: usize, b: usize)
    requires
        a <= b <= bytes@.len(),
    ensures
        final(out)@ == old(out)@ + bytes@.subrange(a as int, b as int),
{
    let mut i = a;
    while i < b
        invariant
            a <= i <= b <= bytes@.len(),
            out@ == old(out)@ + bytes@.subrange(a as int, i as int),
        decreases b - i,
    {
        out.push(bytes[i]);
        i += 1;
        assert(out@ =~= old(out)@ + bytes@.subrange(a as int, i as int));
    }
}

/// Appends `n` copies of a byte.
pub fn push_repeated(out: &mut Vec<u8>, byte: u8, n: usize)
    ensures
        final(out)@ == old(out)@ + repeated(byte, n as nat),
{
    let mut i: usize = 0;
    while i < n
        invariant
            i <= n,
            out@ == old(out)@ + repeated(byte, i as nat),
        decreases n - i,
    {
        out.push(byte);
        i += 1;
        assert(out@ =~= old(out)@ + repeated(byte, i as nat));
    }
}

/// Appends a line of marks: `spaces` spaces, then `carets` carets, then a
/// line feed.
pub fn push_marks(out: &mut Vec<u8>, spaces: usize, carets: usize)
    ensures
        final(out)@ == old(out)@ + marks(spaces as nat, carets as nat),
{
    push_repeated(out, 32, spaces);
    push_repeated(out, 94, carets);
    out.push(10);
    assert(final(out)@ =~= old(out)@ + marks(spaces as nat, carets as nat));
}

/// The piece of `text` from `a` up to `b`.
fn substring<'a>(text: &'a str, a: usize, b: usize) -> (r: &'a str)
    requires
        a <= b,
        is_char_boundary(text.spec_bytes(), a as int),
        is_char_boundary(text.spec_bytes(), b as int),
    ensures
        r.spec_bytes() == text.spec_bytes().subrange(a as int, b as int),
        decode_utf8(text.spec_bytes().subrange(a as int, b as int)) == r@,
{
    let ghost bytes = text.spec_bytes();
    proof {
        encode_utf8_valid_utf8(text@);
    }
    let (head, _) = text.split_at(b);
    proof {
        vstd::utf8::valid_utf8_split(bytes, b as int);
        let p = bytes.subrange(0, b as int);
        assert(head.spec_bytes() == p);
        if a < b {
            is_char_boundary_iff_not_is_continuation_byte(bytes, a as int);
            is_char_boundary_iff_not_is_continuation_byte(p, a as int);
        } else {
            is_char_boundary_start_end_of_seq(p);
        }
    }
    let (_, tail) = head.split_at(a);
    proof {
        assert(tail.spec_bytes() =~= bytes.subrange(a as int, b as int));
        vstd::utf8::encode_utf8_decode_utf8(tail@);
    }
    tail
}

/// The columns that the piece of `text` from `a` up to `b` takes.
fn width_between(text: &str, a: usize, b: usize) -> (w: usize)
    requires
        a <= b,
        is_char_boundary(text.spec_bytes(), a as int),
        is_char_boundary(text.spec_bytes(), b as int),
    ensures
        w == width_of(text.spec_bytes(), a as int, b as int),
{
    str_width(substring(text, a, b))
}

} // verus!

verus! {

/// The last line of a text as its lines are counted: a line feed at the
/// very end ends the last line and starts no further one.
pub open spec fn last_line(text: Seq<u8>) -> (int, int) {
    if text.len() > 0 && text.last() == 10 {
        (
            line_start(text, before_return(text, text.len() - 1)),
            before_return(text, text.len() - 1),
        )
    } else {
        (line_start(text, text.len() as int), text.len() as int)
    }
}

/// A number in decimal, with spaces in front that fill it up to as many
/// columns as the number says.
pub open spec fn right_aligned(w: nat) -> Seq<u8> {
    if w > decimal(w).len() {
        repeated(32, (w - decimal(w).len()) as nat) + decimal(w)
    } else {
        decimal(w)
    }
}

/// The lines that lie between the line that starts at `pos` and the line
/// that starts at `stop`, each with a line of carets as wide as itself
/// under it.
pub open spec fn middle_lines(text: Seq<u8>, pos: int, stop: int) -> Seq<u8>
    decreases text.len() - pos,
{
    match next_line(text, pos) {
        Some((s, e)) => if pos < s < stop && s <= text.len() {
            line_text(text, s, e) + marks(0, width_of(text, s, e)) + middle_lines(text, s, stop)
        } else {
            Seq::empty()
        },
        None => Seq::empty(),
    }
}

/// What is shown for an error at the end of the text: the message, the
/// last line, and under it the width of that line as a number, filled up
/// with spaces in front to that very width, with a caret behind it.
pub open spec fn rendered_at_end(text: Seq<u8>, error: Seq<u8>) -> Seq<u8> {
    error.push(10) + line_text(text, last_line(text).0, last_line(text).1) + right_aligned(
        width_of(text, last_line(text).0, last_line(text).1),
    ) + seq![94u8, 10u8]
}

/// The line in front of the one that `index` lies in, as it is shown, or
/// nothing where that is the first line.
pub open spec fn line_before(text: Seq<u8>, index: int) -> Seq<u8> {
    match prev_line(text, index) {
        Some((a, b)) => line_text(text, a, b),
        None => Seq::empty(),
    }
}

/// The line behind the one that `index` lies in, as it is shown, or
/// nothing where that is the last line.
pub open spec fn line_after(text: Seq<u8>, index: int) -> Seq<u8> {
    match next_line(text, index) {
        Some((a, b)) => line_text(text, a, b),
        None => Seq::empty(),
    }
}

/// Whether the piece of the text from `from` up to `to` lies within one
/// line.
pub open spec fn on_one_line(text: Seq<u8>, from: int, to: int) -> bool {
    line_start(text, from) == line_start(text, to) && line_end(text, from) == line_end(text, to)
}

/// The last line that is shown of a piece that runs over several lines:
/// the line that the piece ends in, or, where that line is empty, the line
/// in front of it.
pub open spec fn closing_line(text: Seq<u8>, to: int) -> (int, int) {
    if line_start(text, to) < line_end(text, to) {
        (line_start(text, to), line_end(text, to))
    } else {
        match prev_line(text, to) {
            Some(line) => line,
            None => (line_start(text, to), line_end(text, to)),
        }
    }
}

/// The lines that a piece lies in, each with its marks under it. Under a
/// piece within one line stand spaces up to the piece and carets under
/// it. Of a piece that runs over several lines, the first line has carets
/// from the start of the piece to the end of the line, each line between
/// the first and the closing line has carets under all of it, and the
/// closing line has carets as wide as the part of the piece that lies in
/// the line where it ends.
pub open spec fn marked_lines(text: Seq<u8>, from: int, to: int) -> Seq<u8> {
    if on_one_line(text, from, to) {
        line_text(text, line_start(text, from), line_end(text, from)) + marks(
            width_of(text, line_start(text, from), from),
            width_of(text, from, to),
        )
    } else {
        line_text(text, line_start(text, from), line_end(text, from)) + marks(
            width_of(text, line_start(text, from), from),
            width_of(text, from, line_end(text, from)),
        ) + middle_lines(text, line_start(text, from), closing_line(text, to).0) + line_text(
            text,
            closing_line(text, to).0,
            closing_line(text, to).1,
        ) + marks(0, width_of(text, line_start(text, to), to))
    }
}

/// What is shown for an error about the piece of the text from `from` up
/// to `to`: the message, the line in front of the piece, the lines of the
/// piece with their marks, and the line behind it.
pub open spec fn rendered_at(text: Seq<u8>, error: Seq<u8>, from: int, to: int) -> Seq<u8> {
    error.push(10) + line_before(text, from) + marked_lines(text, from, to) + line_after(text, to)
}

/// What is shown for an error about `span` of the text.
pub open spec fn rendered(text: Seq<u8>, error: Seq<u8>, span: Span) -> Seq<u8> {
    if span == (Span { idx: usize::MAX, len: 0 }) {
        rendered_at_end(text, error)
    } else {
        rendered_at(text, error, span.idx as int, span.end())
    }
}

/// Whether a span names a piece of the text that can be shown: the span of
/// the end of the file always; any other where it lies within the text,
/// starts and ends between two characters, and does not start between the
/// carriage return and the line feed of a line that it runs beyond.
pub open spec fn span_fits(text: Seq<u8>, span: Span) -> bool {
    span == (Span { idx: usize::MAX, len: 0 }) || {
        &&& span.end() <= text.len()
        &&& is_char_boundary(text, span.idx as int)
        &&& is_char_boundary(text, span.end())
        &&& on_one_line(text, span.idx as int, span.end()) || span.idx <= line_end(
            text,
            span.idx as int,
        )
    }
}

/// Where the line that `index` lies in starts.
fn find_line_start(bytes: &[u8], index: usize) -> (r: usize)
    requires
        index <= bytes@.len(),
    ensures
        r == line_start(bytes@, index as int),
{
    let mut i = index;
    while i > 0 && bytes[i - 1] != 10
        invariant
            i <= index <= bytes@.len(),
            line_start(bytes@, index as int) == line_start(bytes@, i as int),
        decreases i,
    {
        i -= 1;
    }
    i
}

/// The range of the last line of a text.
fn find_last_line(bytes: &[u8]) -> (r: (usize, usize))
    ensures
        r.0 == last_line(bytes@).0,
        r.1 == last_line(bytes@).1,
        r.0 <= r.1 <= bytes@.len(),
{
    let len = bytes.len();
    let end = if len > 0 && bytes[len - 1] == 10 {
        if len > 1 && bytes[len - 2] == 13 {
            len - 2
        } else {
            len - 1
        }
    } else {
        len
    };
    proof {
        lemma_line_start(bytes@, end as int);
    }
    (find_line_start(bytes, end), end)
}

/// Whether `span` names a piece of `input` that can be shown.
pub fn span_fits_in(input: &str, span: Span) -> (r: bool)
    ensures
        r == span_fits(input.spec_bytes(), span),
{
    if span.is_eof() {
        return true;
    }
    let len = input.as_bytes().len();
    if span.idx > len || span.len > len - span.idx {
        return false;
    }
    let to = span.idx + span.len;
    if !input.is_char_boundary(span.idx) || !input.is_char_boundary(to) {
        return false;
    }
    let start = find_line_range(input, span.idx);
    let end = find_line_range(input, to);
    (start.start == end.start && start.end == end.end) || span.idx <= start.end
}

/// Appends the bytes of `bytes` from `a` up to `b`, and a line feed.
fn push_line(out: &mut Vec<u8>, bytes: &[u8], a: usize, b: usize)
    requires
        a <= b <= bytes@.len(),
    ensures
        final(out)@ == old(out)@ + line_text(bytes@, a as int, b as int),
{
    push_range(out, bytes, a, b);
    out.push(10);
    assert(final(out)@ =~= old(out)@ + line_text(bytes@, a as int, b as int));
}

/// Appends a number in decimal, with spaces in front that fill it up to as
/// many columns as the number says.
pub fn push_right_aligned(out: &mut Vec<u8>, w: usize)
    ensures
        final(out)@ == old(out)@ + right_aligned(w as nat),
{
    let mut number: Vec<u8> = Vec::new();
    push_decimal(&mut number, w as u64);
    assert(number@ =~= decimal(w as nat));
    if w > number.len() {
        push_repeated(out, 32, w - number.len());
    }
    push_range(out, number.as_slice(), 0, number.len());
    assert(number@.subrange(0, number@.len() as int) =~= number@);
    assert(final(out)@ =~= old(out)@ + right_aligned(w as nat));
}

/// Appends what is shown under the message for an error at the end of the
/// text.
fn push_end_of_text(out: &mut Vec<u8>, input: &str)
    ensures
        final(out)@ == old(out)@ + (line_text(
            input.spec_bytes(),
            last_line(input.spec_bytes()).0,
            last_line(input.spec_bytes()).1,
        ) + right_aligned(
            width_of(
                input.spec_bytes(),
                last_line(input.spec_bytes()).0,
                last_line(input.spec_bytes()).1,
            ),
        ) + seq![94u8, 10u8]),
{
    let bytes = input.as_bytes();
    let ghost text = input.spec_bytes();
    proof {
        encode_utf8_valid_utf8(input@);
        is_char_boundary_start_end_of_seq(text);
    }
    let (a, b) = find_last_line(bytes);
    proof {
        lemma_cut_at_lines(text, b as int);
        if b < text.len() {
            lemma_cut_at_ascii(text, b as int);
        }
    }
    push_line(out, bytes, a, b);
    push_right_aligned(out, width_between(input, a, b));
    out.push(94);
    out.push(10);
    assert(final(out)@ =~= old(out)@ + (line_text(text, a as int, b as int) + right_aligned(
        width_of(text, a as int, b as int),
    ) + seq![94u8, 10u8]));
}

/// Appends the line in front of the one that `index` lies in, if there is
/// one.
fn push_line_before(out: &mut Vec<u8>, input: &str, index: usize)
    requires
        is_char_boundary(input.spec_bytes(), index as int),
    ensures
        final(out)@ == old(out)@ + line_before(input.spec_bytes(), index as int),
{
    let bytes = input.as_bytes();
    proof {
        encode_utf8_valid_utf8(input@);
        lemma_cut_at_neighbours(input.spec_bytes(), index as int);
    }
    match find_prev_line_range(input, index) {
        Some(line) => {
            push_line(out, bytes, line.start, line.end);
        },
        None => {
            assert(final(out)@ =~= old(out)@ + line_before(input.spec_bytes(), index as int));
        },
    }
}

/// Appends the line behind the one that `index` lies in, if there is one.
fn push_line_after(out: &mut Vec<u8>, input: &str, index: usize)
    requires
        is_char_boundary(input.spec_bytes(), index as int),
    ensures
        final(out)@ == old(out)@ + line_after(input.spec_bytes(), index as int),
{
    let bytes = input.as_bytes();
    proof {
        encode_utf8_valid_utf8(input@);
        lemma_cut_at_neighbours(input.spec_bytes(), index as int);
    }
    match find_next_line_range(input, index) {
        Some(line) => {
            push_line(out, bytes, line.start, line.end);
        },
        None => {
            assert(final(out)@ =~= old(out)@ + line_after(input.spec_bytes(), index as int));
        },
    }
}

/// Appends the lines that the piece from `from` up to `to` lies in, each
/// with its marks under it.
fn push_marked_lines(out: &mut Vec<u8>, input: &str, from: usize, to: usize)
    requires
        from <= to,
        is_char_boundary(input.spec_bytes(), from as int),
        is_char_boundary(input.spec_bytes(), to as int),
        on_one_line(input.spec_bytes(), from as int, to as int) || from <= line_end(
            input.spec_bytes(),
            from as int,
        ),
    ensures
        final(out)@ == old(out)@ + marked_lines(input.spec_bytes(), from as int, to as int),
{
    let bytes = input.as_bytes();
    let ghost text = input.spec_bytes();
    proof {
        encode_utf8_valid_utf8(input@);
        lemma_cut_at_lines(text, from as int);
        lemma_cut_at_lines(text, to as int);
    }
    let start = find_line_range(input, from);
    let end = find_line_range(input, to);
    push_line(out, bytes, start.start, start.end);
    if start.start == end.start && start.end == end.end {
        push_marks(out, width_between(input, start.start, from), width_between(input, from, to));
        assert(final(out)@ =~= old(out)@ + marked_lines(text, from as int, to as int));
    } else {
        push_marks(
            out,
            width_between(input, start.start, from),
            width_between(input, from, start.end),
        );
        let (last_start, last_end) = if end.start < end.end {
            (end.start, end.end)
        } else {
            match find_prev_line_range(input, to) {
                Some(line) => (line.start, line.end),
                None => (end.start, end.end),
            }
        };
        proof {
            lemma_cut_at_neighbours(text, to as int);
        }
        push_middle_lines(out, input, start.start, last_start);
        push_line(out, bytes, last_start, last_end);
        push_marks(out, 0, width_between(input, end.start, to));
        assert(final(out)@ =~= old(out)@ + marked_lines(text, from as int, to as int));
    }
}

/// The text that shows an error about a piece of the input: the message
/// `error`, the lines of `input` that the piece `span` lies in with one line
/// of context on either side, and carets under the piece. Each line ends
/// with a line feed.
pub fn pretty_print_error(input: &str, error: &str, span: Span) -> (out: Vec<u8>)
    requires
        span_fits(input.spec_bytes(), span),
    ensures
        out@ == rendered(input.spec_bytes(), error.spec_bytes(), span),
{
    let ghost text = input.spec_bytes();
    let mut out: Vec<u8> = Vec::new();
    let err = error.as_bytes();
    push_line(&mut out, err, 0, err.len());
    assert(err@.subrange(0, err@.len() as int) =~= err@);
    assert(out@ =~= error.spec_bytes().push(10));
    if span.is_eof() {
        push_end_of_text(&mut out, input);
        assert(out@ =~= rendered_at_end(text, error.spec_bytes()));
    } else {
        let len = input.as_bytes().len();
        let from = span.idx;
        let to = span.idx + span.len;
        push_line_before(&mut out, input, from);
        push_marked_lines(&mut out, input, from, to);
        push_line_after(&mut out, input, to);
        assert(out@ =~= rendered_at(text, error.spec_bytes(), from as int, to as int));
    }
    out
}

/// Appends the lines between the line that starts at `pos` and the line
/// that starts at `stop`, each with carets under all of it.
fn push_middle_lines(out: &mut Vec<u8>, input: &str, pos: usize, stop: usize)
    requires
        is_char_boundary(input.spec_bytes(), pos as int),
    ensures
        final(out)@ == old(out)@ + middle_lines(input.spec_bytes(), pos as int, stop as int),
{
    let bytes = input.as_bytes();
    let ghost text = input.spec_bytes();
    proof {
        encode_utf8_valid_utf8(input@);
    }
    let mut pos = pos;
    let ghost first = pos;
    loop
        invariant
            text == input.spec_bytes(),
            bytes@ == text,
            valid_utf8(text),
            pos <= text.len(),
            is_char_boundary(text, pos as int),
            old(out)@ + middle_lines(text, first as int, stop as int) == out@ + middle_lines(
                text,
                pos as int,
                stop as int,
            ),
        ensures
            out@ == old(out)@ + middle_lines(text, first as int, stop as int),
        decreases text.len() - pos,
    {
        proof {
            lemma_cut_at_neighbours(text, pos as int);
        }
        match find_next_line_range(input, pos) {
            Some(line) => {
                if line.start < stop {
                    let ghost before = out@;
                    push_range(out, bytes, line.start, line.end);
                    out.push(10);
                    push_marks(out, 0, width_between(input, line.start, line.end));
                    assert(out@ =~= before + (line_text(text, line.start as int, line.end as int)
                        + marks(0, width_of(text, line.start as int, line.end as int))));
                    pos = line.start;
                } else {
                    break ;
                }
            },
            None => {
                break ;
            },
        }
    }
}

} // verus!
