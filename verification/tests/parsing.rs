use rukey::config::{ComputerInput, KeyboardInput, MappingMode, MouseInput, RukeyControl, RukeyInput};
use rukey::kdl_mapping::{
    after_colon_span_is_measurable, split_by_plus, Diagnostic, Entry, EntryValue, MappingKdl, SourceSpan,
};
use rukey::text::{integer_chars, parse_i16, parse_u16, parse_u8};

fn chars(s: &str) -> Vec<char> {
    s.chars().collect()
}

#[test]
fn integer_parsing_follows_from_str() {
    assert_eq!(parse_u16(&chars("0")), Some(0));
    assert_eq!(parse_u16(&chars("65535")), Some(65535));
    assert_eq!(parse_u16(&chars("65536")), None);
    assert_eq!(parse_u16(&chars("+12")), Some(12));
    assert_eq!(parse_u16(&chars("-0")), None);
    assert_eq!(parse_u16(&chars("")), None);
    assert_eq!(parse_u16(&chars("+")), None);
    assert_eq!(parse_u16(&chars(" 1")), None);
    assert_eq!(parse_u16(&chars("0000000000000000000042")), Some(42));
    assert_eq!(parse_u16(&chars("99999999999999999999999")), None);
    assert_eq!(parse_u8(&chars("255")), Some(255));
    assert_eq!(parse_u8(&chars("256")), None);
    assert_eq!(parse_i16(&chars("-32768")), Some(-32768));
    assert_eq!(parse_i16(&chars("-32769")), None);
    assert_eq!(parse_i16(&chars("32767")), Some(32767));
    assert_eq!(parse_i16(&chars("-")), None);
    assert_eq!(parse_i16(&chars("--1")), None);
    for s in ["0", "1", "17", "+5", "-5", "300", "x", "", "12a"] {
        assert_eq!(parse_u16(&chars(s)), s.parse::<u16>().ok(), "{s}");
        assert_eq!(parse_i16(&chars(s)), s.parse::<i16>().ok(), "{s}");
        assert_eq!(parse_u8(&chars(s)), s.parse::<u8>().ok(), "{s}");
    }
}

#[test]
fn integer_text_matches_to_string() {
    for n in [0i128, 7, 10, 20, -1, -20, 123456789, i128::MAX, i128::MIN] {
        let text: String = integer_chars(n).into_iter().collect();
        assert_eq!(text, n.to_string());
    }
}

fn text(s: &str, offset: usize) -> Entry {
    Entry {
        value: EntryValue::Text(s.to_string()),
        span: SourceSpan { offset, len: s.len() },
        debug: format!("String({s:?})"),
    }
}

fn integer(n: i128, offset: usize) -> Entry {
    Entry {
        value: EntryValue::Integer(n),
        span: SourceSpan { offset, len: n.to_string().len() },
        debug: format!("Integer({n})"),
    }
}

/// Entries of a mapping line, words separated by single spaces from `offset` on.
fn line(words: &[&str], offset: usize) -> Vec<Entry> {
    let mut entries = Vec::new();
    let mut at = offset;
    for w in words {
        if let Ok(n) = w.parse::<i128>() {
            entries.push(integer(n, at));
        } else {
            entries.push(text(w, at));
        }
        at += w.len() + 1;
    }
    entries
}

const NODE: SourceSpan = SourceSpan { offset: 0, len: 100 };

fn parse(words: &[&str]) -> (Option<MappingKdl>, Vec<Diagnostic>) {
    let entries = line(words, 10);
    assert!(after_colon_span_is_measurable(&entries));
    let mut diagnostics = Vec::new();
    let r = MappingKdl::parse_entries(&entries, NODE, &mut diagnostics);
    (r, diagnostics)
}

fn parse_error(words: &[&str]) -> Diagnostic {
    let (r, mut d) = parse(words);
    assert!(r.is_none());
    assert_eq!(d.len(), 1);
    d.pop().unwrap()
}

#[test]
fn mapping_lines_that_parse() {
    let (m, d) = parse(&["on-press", ":", "row0-col0", "->", "mouse-scroll-up", "20"]);
    assert!(d.is_empty());
    let m = m.unwrap().finalize();
    assert_eq!(m.input_set.as_slice(), &[RukeyInput::Row0Col0]);
    assert_eq!(m.mode, MappingMode::OnPress);
    assert_eq!(m.output_sequence.as_slice(), &[ComputerInput::Mouse(MouseInput::ScrollUp(20))]);

    let (m, d) = parse(&[
        "on-hold", "50", ":", "row1-col0", "+", "row1-col1", "->", "after-millis-hold", "50", "+",
        "set-profile", "2",
    ]);
    assert!(d.is_empty());
    let m = m.unwrap();
    assert_eq!(m.input_set.as_slice(), &[RukeyInput::Row1Col0, RukeyInput::Row1Col1]);
    assert_eq!(m.mode, MappingMode::OnHold { hold_ms: 50 });
    assert_eq!(
        m.output_sequence.as_slice(),
        &[
            ComputerInput::Control(RukeyControl::AfterMillisHold(50)),
            ComputerInput::Control(RukeyControl::SetProfile(2))
        ]
    );

    let (m, _) = parse(&["toggle", ":", "row5-col13", "->", "keyboard-page-down", "+", "restart"]);
    assert_eq!(
        m.unwrap().output_sequence.as_slice(),
        &[
            ComputerInput::Keyboard(KeyboardInput::PageDown),
            ComputerInput::Control(RukeyControl::Restart)
        ]
    );
}

#[test]
fn mapping_lines_with_errors() {
    let d = parse_error(&["on-pressa", ":", "row0-col0", "->", "mouse-scroll-up", "20"]);
    assert_eq!(d.message, "Unknown mode \"on-pressa\"");
    assert_eq!(d.span, SourceSpan { offset: 10, len: 9 });

    let d = parse_error(&["on-press", ":", "row0-col1", "+", "->", "mouse-scroll-down", "20"]);
    assert_eq!(d.message, "Empty input group, check for duplicate or leading/trailing `+`");
    assert_eq!(d.span, NODE);

    let d = parse_error(&["on-press", ":", "row0-col2", "mouse-scroll-left", "20"]);
    assert_eq!(d.message, "Mapping needs `->` separator between inputs and outputs");
    assert_eq!(d.span, SourceSpan { offset: 21, len: 30 });

    let d = parse_error(&["on-press", ":", "row0-col3", "->", "mouse-scroll-right"]);
    assert_eq!(d.message, "Unknown mouse output \"mouse-scroll-right\"");
    assert_eq!(d.span, SourceSpan { offset: 34, len: 18 });

    let d = parse_error(&["on-press", ":", "row0-col99", "->", "keyboard-a"]);
    assert_eq!(d.message, "Unknown input \"row0-col99\"");
    assert_eq!(d.span, SourceSpan { offset: 21, len: 10 });

    let d = parse_error(&["on-press", "row0-col99", "->", "keyboard-a"]);
    assert_eq!(d.message, "Mapping needs format `mode : inputs -> outputs`");
    assert_eq!(d.span, NODE);

    let d = parse_error(&["on-press", ":"]);
    assert_eq!(d.message, "Mapping needs `->` separator between inputs and outputs");
    assert_eq!(d.span, NODE);

    let d = parse_error(&[":", "row0-col0", "->", "keyboard-a"]);
    assert_eq!(d.message, "Mapping is missing mode before `:`");

    let d = parse_error(&["5", ":", "row0-col0", "->", "keyboard-a"]);
    assert_eq!(d.message, "Expected mode string but got Integer(5)");

    let d = parse_error(&["on-press", ":", "row0-col0", "->", "keyboard-nope"]);
    assert_eq!(d.message, "Unknown keyboard output \"keyboard-nope\"");

    let d = parse_error(&["on-press", ":", "row0-col0", "->", "jump"]);
    assert_eq!(d.message, "Unknown output \"jump\"");

    let d = parse_error(&["on-press", ":", "row0-col0", "->", "keyboard-a", "+"]);
    assert_eq!(d.message, "Empty output group, check for duplicate or leading/trailing `+`");

    let d = parse_error(&[
        "on-press", ":", "row0-col0", "+", "row0-col1", "+", "row0-col2", "+", "row0-col3", "+",
        "row0-col4", "->", "keyboard-a",
    ]);
    assert_eq!(d.message, "Too many inputs, max is 4");

    let d = parse_error(&[
        "on-press", ":", "row0-col0", "->", "keyboard-a", "+", "keyboard-b", "+", "keyboard-c",
        "+", "keyboard-d", "+", "keyboard-e", "+", "keyboard-f",
    ]);
    assert_eq!(d.message, "Too many outputs, max is 5");

    let d = parse_error(&["on-press", ":", "7", "->", "keyboard-a"]);
    assert_eq!(d.message, "Expected a string but got Integer(7)");
}

#[test]
fn groups_split_at_plus() {
    let entries = line(&["a", "+", "b", "c", "+", "+", "d"], 0);
    assert_eq!(split_by_plus(&entries, 0, entries.len()), vec![(0, 1), (2, 4), (5, 5), (6, 7)]);
    assert_eq!(split_by_plus(&entries, 2, 2), vec![(2, 2)]);
    assert_eq!(split_by_plus(&entries, 1, 2), vec![(1, 1), (2, 2)]);
}

#[test]
fn entries_out_of_order_before_the_end_still_read() {
    // the first entries stand in no particular order; only the span after the
    // colon, from its first entry to the end of the last, is measured
    let mut entries = line(&["on-press", ":", "row0-col0", "->", "keyboard-a"], 10);
    entries[0].span.offset = 90;
    assert!(after_colon_span_is_measurable(&entries));
    let mut diagnostics = Vec::new();
    let m = MappingKdl::parse_entries(&entries, NODE, &mut diagnostics).unwrap();
    assert!(diagnostics.is_empty());
    assert_eq!(m.mode, MappingMode::OnPress);
    // a last entry that ends before the first entry after the colon starts cannot be measured
    let mut bad = line(&["on-press", ":", "row0-col0", "->", "keyboard-a"], 10);
    bad[4].span.offset = 0;
    assert!(!after_colon_span_is_measurable(&bad));
}
