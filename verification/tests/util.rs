use r0vm::codegen::err::{CompileError, CompileErrorKind, WithSpan};
use r0vm::syntax::span::Span;
use r0vm::util::{pretty_print_error, push_marks, push_right_aligned, span_fits_in};
use unicode_width::UnicodeWidthStr;

fn shown(input: &str, error: &str, span: Span) -> String {
    assert!(span_fits_in(input, span));
    String::from_utf8(pretty_print_error(input, error, span)).unwrap()
}

#[test]
fn span_between_two_indices_in_either_order() {
    let a = Span::new_idx(3, 10);
    let b = Span::new_idx(10, 3);
    assert_eq!(a, Span::new(3, 7));
    assert_eq!(a, b);
    assert_eq!(Span::new_idx(4, 4), Span::new(4, 0));
}

#[test]
fn span_of_the_end_of_file() {
    let e = Span::eof();
    assert_eq!(e.idx, usize::MAX);
    assert_eq!(e.len, 0);
    assert!(e.is_eof());
    assert!(!Span::new(0, 0).is_eof());
    assert_eq!(Span::default(), Span::new(0, 0));
    assert_eq!(Span::dummy(), Span::new(0, 0));
}

#[test]
fn span_sum_runs_from_the_first_to_the_end_of_the_second() {
    assert_eq!(Span::new(2, 3) + Span::new(10, 4), Span::new(2, 12));
    assert_eq!(Span::new(2, 3) + Span::new(2, 1), Span::new(2, 1));
}

#[test]
fn span_from_a_lexer_range() {
    let r: logos::Span = 4..9;
    assert_eq!(Span::from(r), Span::new(4, 5));
}

#[test]
fn span_slices_a_vector() {
    let v = vec![10, 11, 12, 13, 14];
    assert_eq!(Span::new(1, 3).slice_of(&v), &[11, 12, 13]);
    assert_eq!(Span::new(5, 0).slice_of(&v), &[] as &[i32]);
}

#[test]
fn compile_error_takes_a_span() {
    let e = CompileError(CompileErrorKind::NotLValue, None);
    assert!(e.span.is_none());
    let e = e.with_span(Span::new(3, 2));
    assert_eq!(e.span, Some(Span::new(3, 2)));
    assert!(matches!(e.kind, CompileErrorKind::NotLValue));
    let e = e.with_span(Span::new(7, 1));
    assert_eq!(e.span, Some(Span::new(7, 1)));
}

#[test]
fn result_takes_a_span_on_failure_only() {
    let ok: Result<u8, CompileError> = Ok(3);
    assert!(matches!(ok.with_span(Span::new(1, 1)), Ok(3)));
    let err: Result<u8, CompileError> =
        Err(CompileError(CompileErrorKind::UnknownType("t".to_string()), None));
    match err.with_span(Span::new(1, 1)) {
        Err(e) => {
            assert_eq!(e.span, Some(Span::new(1, 1)));
            assert!(matches!(e.kind, CompileErrorKind::UnknownType(ref s) if s == "t"));
        }
        Ok(_) => panic!("an error was expected"),
    }
}

#[test]
fn error_within_one_line_is_underlined() {
    let input = "let a = 1;\nlet b = ;\nlet c = 3;";
    let out = shown(input, "unexpected token", Span::new(19, 1));
    assert_eq!(
        out,
        "unexpected token\nlet a = 1;\nlet b = ;\n        ^\nlet c = 3;\n"
    );
}

#[test]
fn error_on_the_first_line_has_no_line_before() {
    let input = "abc def\nsecond";
    let out = shown(input, "e", Span::new(4, 3));
    assert_eq!(out, "e\nabc def\n    ^^^\nsecond\n");
}

#[test]
fn error_on_the_last_line_has_no_line_after() {
    let input = "first\r\nabc def";
    let out = shown(input, "e", Span::new(7, 3));
    assert_eq!(out, "e\nfirst\nabc def\n^^^\n");
}

#[test]
fn error_over_several_lines_marks_each_line() {
    let input = "zero\none two\nthree\nfour five\nsix";
    // from "two" to "four"
    let out = shown(input, "e", Span::new(9, 14));
    assert_eq!(
        out,
        "e\nzero\none two\n    ^^^\nthree\n^^^^^\nfour five\n^^^^\nsix\n"
    );
}

#[test]
fn wide_characters_take_two_columns() {
    let input = "字 = x";
    let out = shown(input, "e", Span::new(6, 1));
    assert_eq!(out, "e\n字 = x\n     ^\n");
    let out = shown(input, "e", Span::new(0, 3));
    assert_eq!(out, "e\n字 = x\n^^\n");
}

#[test]
fn error_at_the_end_of_file_shows_the_last_line() {
    let out = shown("abc\ndef", "e", Span::eof());
    assert_eq!(out, "e\ndef\n  3^\n");
    let out = shown("abc\ndef\n", "e", Span::eof());
    assert_eq!(out, "e\ndef\n  3^\n");
    let out = shown("", "e", Span::eof());
    assert_eq!(out, "e\n\n0^\n");
    let out = shown("0123456789ab\r\n", "e", Span::eof());
    assert_eq!(out, "e\n0123456789ab\n          12^\n");
}

#[test]
fn end_of_file_marks_are_what_the_formatter_writes() {
    for w in [0usize, 1, 2, 9, 10, 11, 100, 123] {
        let mut out = Vec::new();
        push_right_aligned(&mut out, w);
        assert_eq!(String::from_utf8(out).unwrap(), format!("{:w$}", w, w = w));
    }
}

#[test]
fn marks_are_spaces_then_carets() {
    let mut out = b"x".to_vec();
    push_marks(&mut out, 3, 2);
    assert_eq!(out, b"x   ^^\n");
    let mut out = Vec::new();
    push_marks(&mut out, 0, 0);
    assert_eq!(out, b"\n");
    for (s, c) in [(0usize, 1usize), (4, 0), (7, 3)] {
        let mut out = Vec::new();
        push_marks(&mut out, s, c);
        let want = format!("{:s$}{:^^c$}\n", "", "", s = s, c = c);
        assert_eq!(String::from_utf8(out).unwrap(), want);
    }
}

#[test]
fn spans_that_do_not_fit_are_told_apart() {
    let input = "ab\r\ncd";
    assert!(span_fits_in(input, Span::eof()));
    assert!(span_fits_in(input, Span::new(0, 2)));
    assert!(span_fits_in(input, Span::new(0, 6)));
    assert!(span_fits_in(input, Span::new(6, 0)));
    // beyond the text
    assert!(!span_fits_in(input, Span::new(5, 2)));
    assert!(!span_fits_in(input, Span::new(7, 0)));
    assert!(!span_fits_in(input, Span::new(usize::MAX, 1)));
    // between a carriage return and its line feed, running on to the next line
    assert!(!span_fits_in(input, Span::new(3, 2)));
    // within a character
    assert!(!span_fits_in("字", Span::new(1, 1)));
    assert!(!span_fits_in("字", Span::new(0, 2)));
}

/// The same text put together with the formatter and the line functions
/// themselves.
fn by_the_formatter(input: &str, error: &str, span: Span) -> String {
    let mut out = String::new();
    out.push_str(&format!("{}\n", error));
    if span == Span::eof() {
        let line = input.lines().last().unwrap_or("");
        out.push_str(&format!("{}\n", line));
        let width = line.width();
        out.push_str(&format!("{:width$}^\n", width, width = width));
    } else {
        let from = span.idx;
        let to = span.idx + span.len;
        let start = line_span::find_line_range(input, from);
        let end = line_span::find_line_range(input, to);
        if let Some(line) = line_span::find_prev_line_range(input, from) {
            out.push_str(&format!("{}\n", &input[line]));
        }
        if start == end {
            out.push_str(&format!("{}\n", &input[start.clone()]));
            out.push_str(&format!(
                "{:space_width$}{:^^line_width$}\n",
                "",
                "",
                space_width = input[start.start..from].width(),
                line_width = input[from..to].width()
            ));
        } else {
            let lines = input[start.start..end.end].lines().collect::<Vec<_>>();
            out.push_str(&format!("{}\n", lines[0]));
            out.push_str(&format!(
                "{:space_width$}{:^^line_width$}\n",
                "",
                "",
                space_width = input[start.start..from].width(),
                line_width = input[from..start.end].width()
            ));
            for i in 1..(lines.len() - 1) {
                out.push_str(&format!("{}\n", lines[i]));
                out.push_str(&format!("{:^^len$}\n", "", len = lines[i].width()));
            }
            out.push_str(&format!("{}\n", lines[lines.len() - 1]));
            out.push_str(&format!(
                "{:^^line_width$}\n",
                "",
                line_width = input[end.start..to].width()
            ));
        }
        if let Some(line) = line_span::find_next_line_range(input, to) {
            out.push_str(&format!("{}\n", &input[line]));
        }
    }
    out
}

const TEXTS: [&str; 14] = [
    "",
    "a",
    "\n",
    "ab\ncd",
    "ab\ncd\n",
    "ab\r\ncd\r\n",
    "one\ntwo\nthree\nfour\nfive",
    "\n\n\n",
    "a\n\nb",
    "\r\n\r\nx",
    "字字\n= 1\n",
    "é\tñ\r\nö",
    "tab\there\nand there",
    "x\r",
];

#[test]
fn every_span_that_fits_is_shown_as_the_formatter_shows_it() {
    let mut shown_spans = 0;
    for input in TEXTS.iter() {
        for idx in 0..=input.len() + 1 {
            for len in 0..=input.len() + 1 {
                let span = Span::new(idx, len);
                if !span_fits_in(input, span) {
                    continue;
                }
                let want = by_the_formatter(input, "message", span);
                assert_eq!(shown(input, "message", span), want, "{:?} {:?}", input, span);
                shown_spans += 1;
            }
        }
    }
    assert!(shown_spans > 400);
}

#[test]
fn the_end_of_every_text_is_shown_as_the_formatter_shows_it() {
    for input in TEXTS.iter() {
        let want = by_the_formatter(input, "at the end", Span::eof());
        assert_eq!(shown(input, "at the end", Span::eof()), want, "{:?}", input);
    }
    let wide = "0123456789".repeat(12);
    assert_eq!(shown(&wide, "e", Span::eof()), by_the_formatter(&wide, "e", Span::eof()));
}

#[test]
fn a_span_fits_where_the_slices_can_be_taken() {
    for input in TEXTS.iter() {
        for idx in 0..=input.len() + 1 {
            for len in 0..=input.len() + 1 {
                let to = idx + len;
                let fits = to <= input.len()
                    && input.is_char_boundary(idx)
                    && input.is_char_boundary(to)
                    && {
                        let start = line_span::find_line_range(input, idx);
                        let end = line_span::find_line_range(input, to);
                        start == end || idx <= start.end
                    };
                assert_eq!(span_fits_in(input, Span::new(idx, len)), fits, "{:?} {} {}", input, idx, len);
            }
        }
    }
}

fn line_start_of(text: &[u8], index: usize) -> usize {
    let mut i = index;
    while i > 0 && text[i - 1] != b'\n' {
        i -= 1;
    }
    i
}

fn line_end_of(text: &[u8], index: usize) -> usize {
    let mut i = index;
    while i < text.len() && text[i] != b'\n' {
        i += 1;
    }
    before_return_of(text, i)
}

fn before_return_of(text: &[u8], end: usize) -> usize {
    if end > 0 && text[end - 1] == b'\r' {
        end - 1
    } else {
        end
    }
}

#[test]
fn lines_are_found_where_the_line_feeds_say() {
    let mut checked = 0;
    for input in TEXTS.iter() {
        let text = input.as_bytes();
        for index in 0..=input.len() {
            if !input.is_char_boundary(index) {
                continue;
            }
            let start = line_start_of(text, index);
            let end = line_end_of(text, index);
            assert_eq!(line_span::find_line_range(input, index), start..end);
            let prev = if start > 0 {
                let e = before_return_of(text, start - 1);
                Some(line_start_of(text, e)..e)
            } else {
                None
            };
            assert_eq!(line_span::find_prev_line_range(input, index), prev);
            let mut feed = index;
            while feed < text.len() && text[feed] != b'\n' {
                feed += 1;
            }
            let next = if feed < text.len() {
                Some(feed + 1..line_end_of(text, feed + 1))
            } else {
                None
            };
            assert_eq!(line_span::find_next_line_range(input, index), next);
            checked += 1;
        }
    }
    assert!(checked > 80);
}
