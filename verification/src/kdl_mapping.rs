//! Reading one mapping of the configuration file, written as
//! `mode : inputs -> outputs`, where inputs and outputs are groups of KDL
//! entries separated by `+`.
//!
//! The entries come from the KDL parser as plain values: their text or
//! integer, their place in the source, and how the parser's `Debug` shows them.

use vstd::prelude::*;
use vstd::string::*;

use crate::collections::{input_set_items, output_sequence_items, InputSet, OutputSequence};
use crate::config::{
    keyboard_input_named, mapping_mode_named, mouse_input_named, rukey_control_named,
    rukey_input_named, ComputerInput, KeyboardInput, Mapping, MappingMode, MouseInput,
    RukeyControl, RukeyInput, Device, MAX_COMPUTER_INPUTS, MAX_RUKEY_INPUTS,
};
use crate::text::{
    ascii_upper, chars_equal, chars_of, debug_quote, debug_quoted, decimal_text, integer_chars,
    integer_text, small_decimal, string_from_chars, to_ascii_upper,
};

verus! {

/// A byte range of the configuration source.
#[derive(Debug, Clone, Copy, PartialEq, Eq, Structural)]
pub struct SourceSpan {
    pub offset: usize,
    pub len: usize,
}

/// The value of a KDL entry, as far as mappings care.
pub enum EntryValue {
    Text(String),
    Integer(i128),
    /// A floating-point number (its value plays no part here).
    Float,
    Bool(bool),
    Null,
}

/// One entry of a KDL node.
pub struct Entry {
    pub value: EntryValue,
    pub span: SourceSpan,
    /// How the KDL parser's `Debug` shows the value.
    pub debug: String,
}

/// A problem found in the configuration, with the part of the source it concerns.
pub struct Diagnostic {
    pub span: SourceSpan,
    pub message: String,
}

/// A mapping as read from the configuration file.
pub struct MappingKdl {
    pub input_set: InputSet,
    pub mode: MappingMode,
    pub output_sequence: OutputSequence,
}

/// The place and text of a diagnostic.
pub open spec fn diagnostic_view(d: Diagnostic) -> (SourceSpan, Seq<char>) {
    (d.span, d.message@)
}

/// Whether the entry is the text `token`.
pub open spec fn is_token(e: Entry, token: Seq<char>) -> bool {
    match e.value {
        EntryValue::Text(s) => s@ == token,
        _ => false,
    }
}

/// The span from the first entry after the colon to the end of the last
/// entry can be measured: its end fits in a `usize` and does not lie before
/// its start. It is the only span a mapping measures.
pub open spec fn after_colon_span_fits(entries: Seq<Entry>) -> bool {
    match first_token_from(entries, ":"@, 0) {
        Some(c) => c + 1 < entries.len() ==> {
            let first = entries[c + 1].span;
            let last = entries.last().span;
            last.offset + last.len <= usize::MAX && first.offset <= last.offset + last.len
        },
        None => true,
    }
}

/// The index of the first entry at or after `i` that is the text `token`.
pub open spec fn first_token_from(entries: Seq<Entry>, token: Seq<char>, i: int) -> Option<int>
    decreases entries.len() - i,
{
    if i < 0 || i >= entries.len() {
        None
    } else if is_token(entries[i], token) {
        Some(i)
    } else {
        first_token_from(entries, token, i + 1)
    }
}

/// The span from the first entry after the colon to the end of the last
/// entry, or `span` when nothing follows the colon.
pub open spec fn after_colon_span(entries: Seq<Entry>, colon: int, span: SourceSpan) -> SourceSpan {
    if colon + 1 < entries.len() {
        let first = entries[colon + 1].span;
        let last = entries.last().span;
        SourceSpan {
            offset: first.offset,
            len: (last.offset + last.len - first.offset) as usize,
        }
    } else {
        span
    }
}

/// The groups of entries `start..hi` separated by `+` tokens, as index ranges,
/// with the scan at `i` and the current group starting at `start`.
pub open spec fn plus_groups_from(entries: Seq<Entry>, hi: int, start: int, i: int) -> Seq<
    (int, int),
>
    decreases hi - i,
{
    if i >= hi {
        seq![(start, hi)]
    } else if is_token(entries[i], "+"@) {
        seq![(start, i)] + plus_groups_from(entries, hi, i + 1, i + 1)
    } else {
        plus_groups_from(entries, hi, start, i + 1)
    }
}

/// The groups of entries `lo..hi` separated by `+` tokens, as index ranges.
pub open spec fn plus_groups(entries: Seq<Entry>, lo: int, hi: int) -> Seq<(int, int)> {
    plus_groups_from(entries, hi, lo, lo)
}

/// Kebab case to Pascal case: the first character is made uppercase, and each
/// `-` is dropped and makes the character after it uppercase.
pub open spec fn pascal_case_from(s: Seq<char>, upper: bool) -> Seq<char>
    decreases s.len(),
{
    if s.len() == 0 {
        seq![]
    } else if upper {
        seq![ascii_upper(s[0])] + pascal_case_from(s.drop_first(), false)
    } else if s[0] == '-' {
        pascal_case_from(s.drop_first(), true)
    } else {
        seq![s[0]] + pascal_case_from(s.drop_first(), false)
    }
}

pub open spec fn pascal_case(s: Seq<char>) -> Seq<char> {
    pascal_case_from(s, true)
}

/// The number of `-` in `s`.
pub open spec fn dash_count(s: Seq<char>) -> nat
    decreases s.len(),
{
    if s.len() == 0 {
        0
    } else {
        dash_count(s.drop_first()) + if s[0] == '-' {
            1nat
        } else {
            0nat
        }
    }
}

/// `s` holds no `-`.
pub open spec fn dashless(s: Seq<char>) -> bool {
    forall|i: int| 0 <= i < s.len() ==> s[i] != '-'
}

/// No two `-` of `s` are next to each other.
pub open spec fn single_dashes(s: Seq<char>) -> bool {
    forall|i: int| #![trigger s[i]] 0 <= i < s.len() - 1 ==> !(s[i] == '-' && s[i + 1] == '-')
}

proof fn lemma_pascal_case_from_drops_dashes(s: Seq<char>, upper: bool)
    requires
        single_dashes(s),
        upper && s.len() > 0 ==> s[0] != '-',
    ensures
        dashless(pascal_case_from(s, upper)),
        pascal_case_from(s, upper).len() == s.len() - dash_count(s),
    decreases s.len(),
{
    if s.len() > 0 {
        let t = s.drop_first();
        assert(single_dashes(t)) by {
            assert forall|i: int| #![trigger t[i]] 0 <= i < t.len() - 1 implies !(t[i] == '-' && t[i + 1] == '-') by {
                assert(t[i] == s[i + 1] && t[i + 1] == s[i + 2]);
            }
        }
        if upper {
            lemma_pascal_case_from_drops_dashes(t, false);
            let r = pascal_case_from(s, upper);
            assert forall|i: int| 0 <= i < r.len() implies r[i] != '-' by {
                if i > 0 {
                    assert(r[i] == pascal_case_from(t, false)[i - 1]);
                }
            }
        } else if s[0] == '-' {
            if t.len() > 0 {
                assert(s[0] == '-' && s[1] == t[0]);
            }
            lemma_pascal_case_from_drops_dashes(t, true);
        } else {
            lemma_pascal_case_from_drops_dashes(t, false);
            let r = pascal_case_from(s, upper);
            assert forall|i: int| 0 <= i < r.len() implies r[i] != '-' by {
                if i > 0 {
                    assert(r[i] == pascal_case_from(t, false)[i - 1]);
                }
            }
        }
    }
}

proof fn lemma_pascal_case_keeps_dashless(t: Seq<char>)
    requires
        dashless(t),
    ensures
        pascal_case_from(t, false) == t,
    decreases t.len(),
{
    if t.len() > 0 {
        lemma_pascal_case_keeps_dashless(t.drop_first());
        assert(seq![t[0]] + t.drop_first() =~= t);
    }
}

/// For a kebab-case name that does not start with `-` and has no `--`,
/// Pascal case drops every `-` (so the result is shorter by their number),
/// and is already in Pascal case itself.
pub proof fn lemma_pascal_case_drops_the_dashes(s: Seq<char>)
    requires
        s.len() > 0 ==> s[0] != '-',
        single_dashes(s),
    ensures
        dashless(pascal_case(s)),
        pascal_case(s).len() == s.len() - dash_count(s),
        pascal_case(pascal_case(s)) == pascal_case(s),
{
    lemma_pascal_case_from_drops_dashes(s, true);
    let r = pascal_case(s);
    if r.len() > 0 {
        let rest = r.drop_first();
        assert(dashless(rest)) by {
            assert forall|i: int| 0 <= i < rest.len() implies rest[i] != '-' by {
                assert(rest[i] == r[i + 1]);
            }
        }
        lemma_pascal_case_keeps_dashless(rest);
        assert(r[0] == ascii_upper(s[0]));
        assert(ascii_upper(ascii_upper(s[0])) == ascii_upper(s[0]));
        assert(seq![ascii_upper(r[0])] + rest =~= r);
    }
}

/// The number that follows the name in entries `lo..hi`, as text; empty when
/// the second entry is missing or not an integer.
pub open spec fn number_text(entries: Seq<Entry>, lo: int, hi: int) -> Seq<char> {
    if lo + 1 < hi {
        match entries[lo + 1].value {
            EntryValue::Integer(n) => integer_text(n as int),
            _ => seq![],
        }
    } else {
        seq![]
    }
}

/// The mode of a mapping from the entries before the colon.
pub open spec fn mode_result(entries: Seq<Entry>, colon: int, span: SourceSpan) -> Result<
    MappingMode,
    (SourceSpan, Seq<char>),
> {
    if colon == 0 {
        Err((span, "Mapping is missing mode before `:`"@))
    } else {
        match entries[0].value {
            EntryValue::Text(name) => match mapping_mode_named(
                pascal_case(name@),
                number_text(entries, 0, colon),
            ) {
                Some(m) => Ok(m),
                None => Err((entries[0].span, "Unknown mode "@ + debug_quoted(name@))),
            },
            _ => Err((entries[0].span, "Expected mode string but got "@ + entries[0].debug@)),
        }
    }
}

/// The input named by an entry.
pub open spec fn input_result(e: Entry) -> Result<RukeyInput, (SourceSpan, Seq<char>)> {
    match e.value {
        EntryValue::Text(v) => match rukey_input_named(v@) {
            Some(x) => Ok(x),
            None => Err((e.span, "Unknown input "@ + debug_quoted(v@))),
        },
        _ => Err((e.span, "Expected a string but got "@ + e.debug@)),
    }
}

/// The output named by the non-empty group of entries `a..b`: `mouse-…` names
/// a mouse action, `keyboard-…` a key, anything else a control.
pub open spec fn output_result(entries: Seq<Entry>, a: int, b: int) -> Result<
    ComputerInput,
    (SourceSpan, Seq<char>),
> {
    let e = entries[a];
    match e.value {
        EntryValue::Text(name) => {
            let n = name@;
            let num = number_text(entries, a, b);
            if "mouse-"@.is_prefix_of(n) {
                match mouse_input_named(n.skip("mouse-"@.len() as int), num) {
                    Some(m) => Ok(ComputerInput::Mouse(m)),
                    None => Err((e.span, "Unknown mouse output "@ + debug_quoted(n))),
                }
            } else if "keyboard-"@.is_prefix_of(n) {
                match keyboard_input_named(pascal_case(n.skip("keyboard-"@.len() as int))) {
                    Some(k) => Ok(ComputerInput::Keyboard(k)),
                    None => Err((e.span, "Unknown keyboard output "@ + debug_quoted(n))),
                }
            } else {
                match rukey_control_named(pascal_case(n), num) {
                    Some(c) => Ok(ComputerInput::Control(c)),
                    None => Err((e.span, "Unknown output "@ + debug_quoted(n))),
                }
            }
        },
        _ => Err((e.span, "Expected a string but got "@ + e.debug@)),
    }
}

pub open spec fn empty_input_group_message() -> Seq<char> {
    "Empty input group, check for duplicate or leading/trailing `+`"@
}

pub open spec fn empty_output_group_message() -> Seq<char> {
    "Empty output group, check for duplicate or leading/trailing `+`"@
}

pub open spec fn too_many_inputs_message() -> Seq<char> {
    "Too many inputs, max is "@ + decimal_text(MAX_RUKEY_INPUTS as nat)
}

pub open spec fn too_many_outputs_message() -> Seq<char> {
    "Too many outputs, max is "@ + decimal_text(MAX_COMPUTER_INPUTS as nat)
}

/// The inputs of groups `k..`, after the inputs `acc` of the earlier groups;
/// each group names one input by its first entry.
pub open spec fn inputs_from(
    entries: Seq<Entry>,
    groups: Seq<(int, int)>,
    k: int,
    acc: Seq<RukeyInput>,
    span: SourceSpan,
) -> Result<Seq<RukeyInput>, (SourceSpan, Seq<char>)>
    decreases groups.len() - k,
{
    if k < 0 || k >= groups.len() {
        Ok(acc)
    } else if groups[k].0 >= groups[k].1 {
        Err((span, empty_input_group_message()))
    } else {
        match input_result(entries[groups[k].0]) {
            Err(d) => Err(d),
            Ok(x) => if acc.len() >= MAX_RUKEY_INPUTS {
                Err((span, too_many_inputs_message()))
            } else {
                inputs_from(entries, groups, k + 1, acc.push(x), span)
            },
        }
    }
}

/// The outputs of groups `k..`, after the outputs `acc` of the earlier groups.
pub open spec fn outputs_from(
    entries: Seq<Entry>,
    groups: Seq<(int, int)>,
    k: int,
    acc: Seq<ComputerInput>,
    span: SourceSpan,
) -> Result<Seq<ComputerInput>, (SourceSpan, Seq<char>)>
    decreases groups.len() - k,
{
    if k < 0 || k >= groups.len() {
        Ok(acc)
    } else if groups[k].0 >= groups[k].1 {
        Err((span, empty_output_group_message()))
    } else {
        match output_result(entries, groups[k].0, groups[k].1) {
            Err(d) => Err(d),
            Ok(x) => if acc.len() >= MAX_COMPUTER_INPUTS {
                Err((span, too_many_outputs_message()))
            } else {
                outputs_from(entries, groups, k + 1, acc.push(x), span)
            },
        }
    }
}

/// The mapping that the entries of a node at `span` describe, or the first
/// problem found in them.
pub open spec fn mapping_from_entries(entries: Seq<Entry>, span: SourceSpan) -> Result<
    (Seq<RukeyInput>, MappingMode, Seq<ComputerInput>),
    (SourceSpan, Seq<char>),
> {
    match first_token_from(entries, ":"@, 0) {
        None => Err((span, "Mapping needs format `mode : inputs -> outputs`"@)),
        Some(colon) => match first_token_from(entries, "->"@, colon + 1) {
            None => Err(
                (
                    after_colon_span(entries, colon, span),
                    "Mapping needs `->` separator between inputs and outputs"@,
                ),
            ),
            Some(arrow) => match mode_result(entries, colon, span) {
                Err(d) => Err(d),
                Ok(mode) => match inputs_from(
                    entries,
                    plus_groups(entries, colon + 1, arrow),
                    0,
                    seq![],
                    span,
                ) {
                    Err(d) => Err(d),
                    Ok(ins) => match outputs_from(
                        entries,
                        plus_groups(entries, arrow + 1, entries.len() as int),
                        0,
                        seq![],
                        span,
                    ) {
                        Err(d) => Err(d),
                        Ok(outs) => Ok((ins, mode, outs)),
                    },
                },
            },
        },
    }
}

/// A diagnostic at `span` with the text `message`.
pub(crate) fn diagnostic(span: SourceSpan, message: String) -> (d: Diagnostic)
    ensures
        diagnostic_view(d) == (span, message@),
{
    Diagnostic { span, message }
}

/// A token found from `i` on lies at or after `i` and within the entries, and is that token.
proof fn lemma_first_token_bounds(entries: Seq<Entry>, token: Seq<char>, i: int)
    ensures
        first_token_from(entries, token, i) matches Some(j) ==> i <= j < entries.len() && is_token(
            entries[j],
            token,
        ),
    decreases entries.len() - i,
{
    if 0 <= i < entries.len() && !is_token(entries[i], token) {
        lemma_first_token_bounds(entries, token, i + 1);
    }
}

/// Whether the entry is the text `token`.
fn entry_is_token(e: &Entry, token: &str) -> (r: bool)
    ensures
        r == is_token(*e, token@),
{
    match &e.value {
        EntryValue::Text(s) => {
            let a = chars_of(s.as_str());
            let b = chars_of(token);
            chars_equal(a.as_slice(), b.as_slice())
        },
        _ => false,
    }
}

/// The index of the first entry at or after `from` that is the text `token`.
fn find_token(entries: &[Entry], from: usize, token: &str) -> (r: Option<usize>)
    ensures
        r matches Some(i) ==> first_token_from(entries@, token@, from as int) == Some(i as int),
        r is None ==> first_token_from(entries@, token@, from as int) is None,
{
    let mut i = from;
    while i < entries.len()
        invariant
            from <= i,
            first_token_from(entries@, token@, from as int) == first_token_from(
                entries@,
                token@,
                i as int,
            ),
        decreases entries@.len() - i,
    {
        if entry_is_token(&entries[i], token) {
            return Some(i);
        }
        i += 1;
    }
    None
}

/// Whether the span after the colon of a mapping can be measured.
pub fn after_colon_span_is_measurable(entries: &[Entry]) -> (r: bool)
    ensures
        r == after_colon_span_fits(entries@),
{
    match find_token(entries, 0, ":") {
        None => true,
        Some(c) => {
            if c < entries.len() && c + 1 < entries.len() {
                let first = entries[c + 1].span;
                let last = entries[entries.len() - 1].span;
                last.len <= usize::MAX - last.offset && first.offset <= last.offset + last.len
            } else {
                true
            }
        },
    }
}

/// The groups of entries `lo..hi` separated by `+` tokens, as index ranges.
pub fn split_by_plus(entries: &[Entry], lo: usize, hi: usize) -> (r: Vec<(usize, usize)>)
    requires
        lo <= hi <= entries@.len(),
    ensures
        r@.len() == plus_groups(entries@, lo as int, hi as int).len(),
        forall|k: int|
            0 <= k < r@.len() ==> (#[trigger] r@[k].0 as int, r@[k].1 as int) == plus_groups(
                entries@,
                lo as int,
                hi as int,
            )[k],
{
    let mut groups: Vec<(usize, usize)> = Vec::new();
    let mut start = lo;
    let mut i = lo;
    let ghost mut done: Seq<(int, int)> = seq![];
    while i < hi
        invariant
            lo <= start <= i <= hi,
            hi <= entries@.len(),
            groups@.len() == done.len(),
            forall|k: int| 0 <= k < done.len() ==> (#[trigger] groups@[k].0 as int, groups@[k].1 as int) == done[k],
            done + plus_groups_from(entries@, hi as int, start as int, i as int) == plus_groups(
                entries@,
                lo as int,
                hi as int,
            ),
        decreases hi - i,
    {
        if entry_is_token(&entries[i], "+") {
            groups.push((start, i));
            proof {
                let rest = plus_groups_from(entries@, hi as int, (i + 1) as int, (i + 1) as int);
                assert(done + plus_groups_from(entries@, hi as int, start as int, i as int) =~= done
                    .push((start as int, i as int)) + rest);
                done = done.push((start as int, i as int));
            }
            start = i + 1;
        }
        i += 1;
    }
    groups.push((start, hi));
    proof {
        assert(done + plus_groups_from(entries@, hi as int, start as int, i as int) =~= done.push(
            (start as int, hi as int),
        ));
        done = done.push((start as int, hi as int));
    }
    groups
}

/// Kebab case to Pascal case on characters.
pub fn pascal_case_chars(s: &[char]) -> (r: Vec<char>)
    ensures
        r@ == pascal_case(s@),
{
    let mut result: Vec<char> = Vec::new();
    let mut upper = true;
    let mut i: usize = 0;
    assert(s@.skip(0) =~= s@);
    assert(result@ + pascal_case_from(s@, true) =~= pascal_case(s@));
    while i < s.len()
        invariant
            i <= s@.len(),
            result@ + pascal_case_from(s@.skip(i as int), upper) == pascal_case(s@),
        decreases s@.len() - i,
    {
        let c = s[i];
        let ghost rest = s@.skip(i as int);
        assert(rest.drop_first() =~= s@.skip(i + 1));
        assert(rest[0] == c);
        if upper {
            result.push(to_ascii_upper(c));
            upper = false;
        } else if c == '-' {
            upper = true;
        } else {
            result.push(c);
        }
        i += 1;
        assert(result@ + pascal_case_from(s@.skip(i as int), upper) =~= pascal_case(s@));
    }
    assert(s@.skip(i as int) =~= Seq::<char>::empty());
    assert(result@ + Seq::<char>::empty() =~= result@);
    result
}

/// Kebab case to Pascal case: `page-up` becomes `PageUp`.
pub fn kebab_to_pascal_case(s: &str) -> (r: String)
    ensures
        r@ == pascal_case(s@),
{
    let chars = chars_of(s);
    let pascal = pascal_case_chars(chars.as_slice());
    string_from_chars(pascal.as_slice())
}

/// The key a kebab-case name such as `page-up` stands for.
pub fn keyboard_from_string_kebab(s: &str) -> (r: Option<KeyboardInput>)
    ensures
        r == keyboard_input_named(pascal_case(s@)),
{
    let chars = chars_of(s);
    let pascal = pascal_case_chars(chars.as_slice());
    KeyboardInput::from_variant_name(pascal.as_slice())
}

/// The number after the name in entries `lo..hi`, as text.
fn number_chars(entries: &[Entry], lo: usize, hi: usize) -> (r: Vec<char>)
    requires
        lo < hi <= entries@.len(),
    ensures
        r@ == number_text(entries@, lo as int, hi as int),
{
    if lo + 1 < hi {
        match &entries[lo + 1].value {
            EntryValue::Integer(n) => integer_chars(*n),
            _ => Vec::new(),
        }
    } else {
        Vec::new()
    }
}

/// The characters of `s` from index `n` on, when `prefix` (of `n` characters) starts `s`.
fn strip_prefix(s: &[char], prefix: &str) -> (r: Option<Vec<char>>)
    ensures
        prefix@.is_prefix_of(s@) ==> (r matches Some(v) && v@ == s@.skip(prefix@.len() as int)),
        !prefix@.is_prefix_of(s@) ==> r is None,
{
    let p = chars_of(prefix);
    if p.len() > s.len() {
        return None;
    }
    let mut i: usize = 0;
    while i < p.len()
        invariant
            p@ == prefix@,
            p@.len() <= s@.len(),
            i <= p@.len(),
            forall|j: int| 0 <= j < i ==> p@[j] == s@[j],
        decreases p@.len() - i,
    {
        if p[i] != s[i] {
            return None;
        }
        i += 1;
    }
    let mut rest: Vec<char> = Vec::new();
    let mut k = p.len();
    while k < s.len()
        invariant
            p@.len() <= k <= s@.len(),
            rest@ == s@.subrange(p@.len() as int, k as int),
        decreases s@.len() - k,
    {
        rest.push(s[k]);
        k += 1;
        assert(rest@ =~= s@.subrange(p@.len() as int, k as int));
    }
    assert(rest@ =~= s@.skip(prefix@.len() as int));
    Some(rest)
}

/// The message `text` followed by `detail`.
fn message(text: &str, detail: &String) -> (r: String)
    ensures
        r@ == text@ + detail@,
{
    String::from_str(text).concat(detail.as_str())
}

/// The mode of a mapping from the entries before the colon.
fn parse_mode(entries: &[Entry], colon: usize, span: SourceSpan) -> (r: Result<MappingMode, Diagnostic>)
    requires
        colon <= entries@.len(),
    ensures
        match r {
            Ok(m) => mode_result(entries@, colon as int, span) == Ok::<
                MappingMode,
                (SourceSpan, Seq<char>),
            >(m),
            Err(d) => mode_result(entries@, colon as int, span) == Err::<
                MappingMode,
                (SourceSpan, Seq<char>),
            >(diagnostic_view(d)),
        },
{
    if colon == 0 {
        return Err(diagnostic(span, String::from_str("Mapping is missing mode before `:`")));
    }
    let name_entry = &entries[0];
    match &name_entry.value {
        EntryValue::Text(name) => {
            let num = number_chars(entries, 0, colon);
            let name_chars = chars_of(name.as_str());
            let pascal = pascal_case_chars(name_chars.as_slice());
            match MappingMode::from_chars(pascal.as_slice(), num.as_slice()) {
                Some(mode) => Ok(mode),
                None => Err(
                    diagnostic(
                        name_entry.span,
                        message("Unknown mode ", &debug_quote(string_from_chars(name_chars.as_slice()).as_str())),
                    ),
                ),
            }
        },
        _ => Err(
            diagnostic(name_entry.span, message("Expected mode string but got ", &name_entry.debug)),
        ),
    }
}

/// The input an entry names.
fn parse_rukey_input(entry: &Entry) -> (r: Result<RukeyInput, Diagnostic>)
    ensures
        match r {
            Ok(x) => input_result(*entry) == Ok::<RukeyInput, (SourceSpan, Seq<char>)>(x),
            Err(d) => input_result(*entry) == Err::<RukeyInput, (SourceSpan, Seq<char>)>(
                diagnostic_view(d),
            ),
        },
{
    match &entry.value {
        EntryValue::Text(value) => {
            let chars = chars_of(value.as_str());
            match RukeyInput::from_kebab_chars(chars.as_slice()) {
                Some(input) => Ok(input),
                None => Err(
                    diagnostic(entry.span, message("Unknown input ", &debug_quote(string_from_chars(chars.as_slice()).as_str()))),
                ),
            }
        },
        _ => Err(diagnostic(entry.span, message("Expected a string but got ", &entry.debug))),
    }
}

/// The output the non-empty group of entries `a..b` names.
fn parse_computer_input(entries: &[Entry], a: usize, b: usize) -> (r: Result<
    ComputerInput,
    Diagnostic,
>)
    requires
        a < b <= entries@.len(),
    ensures
        match r {
            Ok(x) => output_result(entries@, a as int, b as int) == Ok::<
                ComputerInput,
                (SourceSpan, Seq<char>),
            >(x),
            Err(d) => output_result(entries@, a as int, b as int) == Err::<
                ComputerInput,
                (SourceSpan, Seq<char>),
            >(diagnostic_view(d)),
        },
{
    let name_entry = &entries[a];
    match &name_entry.value {
        EntryValue::Text(name) => {
            let num = number_chars(entries, a, b);
            let name_chars = chars_of(name.as_str());
            let n = name_chars.as_slice();
            match strip_prefix(n, "mouse-") {
                Some(rest) => {
                    return match MouseInput::from_chars(rest.as_slice(), num.as_slice()) {
                        Some(input) => Ok(ComputerInput::Mouse(input)),
                        None => Err(
                            diagnostic(
                                name_entry.span,
                                message("Unknown mouse output ", &debug_quote(string_from_chars(n).as_str())),
                            ),
                        ),
                    };
                },
                None => {},
            }
            match strip_prefix(n, "keyboard-") {
                Some(rest) => {
                    let pascal = pascal_case_chars(rest.as_slice());
                    return match KeyboardInput::from_variant_name(pascal.as_slice()) {
                        Some(input) => Ok(ComputerInput::Keyboard(input)),
                        None => Err(
                            diagnostic(
                                name_entry.span,
                                message("Unknown keyboard output ", &debug_quote(string_from_chars(n).as_str())),
                            ),
                        ),
                    };
                },
                None => {},
            }
            let pascal = pascal_case_chars(n);
            match RukeyControl::from_chars(pascal.as_slice(), num.as_slice()) {
                Some(ctrl) => Ok(ComputerInput::Control(ctrl)),
                None => Err(
                    diagnostic(name_entry.span, message("Unknown output ", &debug_quote(string_from_chars(n).as_str()))),
                ),
            }
        },
        _ => Err(diagnostic(name_entry.span, message("Expected a string but got ", &name_entry.debug))),
    }
}

/// Every group lies within the scanned range and is ordered.
proof fn lemma_plus_groups_within(entries: Seq<Entry>, hi: int, start: int, i: int)
    requires
        start <= i <= hi,
        hi <= entries.len(),
    ensures
        forall|k: int|
            0 <= k < plus_groups_from(entries, hi, start, i).len() ==> start <= (
            #[trigger] plus_groups_from(entries, hi, start, i)[k]).0 <= plus_groups_from(
                entries,
                hi,
                start,
                i,
            )[k].1 <= hi,
    decreases hi - i,
{
    if i < hi {
        if is_token(entries[i], "+"@) {
            lemma_plus_groups_within(entries, hi, i + 1, i + 1);
            let rest = plus_groups_from(entries, hi, i + 1, i + 1);
            let all = seq![(start, i)] + rest;
            assert(plus_groups_from(entries, hi, start, i) == all);
            assert forall|k: int| 0 <= k < all.len() implies start <= (#[trigger] all[k]).0 <= all[k].1
                <= hi by {
                if k > 0 {
                    assert(all[k] == rest[k - 1]);
                }
            }
        } else {
            lemma_plus_groups_within(entries, hi, start, i + 1);
            assert(plus_groups_from(entries, hi, start, i) == plus_groups_from(entries, hi, start, i + 1));
        }
    }
}

/// The message `text` followed by the decimal numeral of `n`.
pub(crate) fn message_with_number(text: &str, n: u8) -> (r: String)
    requires
        n < 100,
    ensures
        r@ == text@ + decimal_text(n as nat),
{
    let digits = small_decimal(n);
    message(text, &string_from_chars(digits.as_slice()))
}

/// Appends `d` to the diagnostics.
fn report(diagnostics: &mut Vec<Diagnostic>, d: Diagnostic)
    ensures
        final(diagnostics)@ == old(diagnostics)@.push(d),
{
    diagnostics.push(d);
}

impl MappingKdl {
    /// Reads a mapping from the entries of a node at `span`. On a problem, the
    /// first one found is appended to `diagnostics` and `None` comes back.
    pub fn parse_entries(entries: &[Entry], span: SourceSpan, diagnostics: &mut Vec<Diagnostic>) -> (r:
        Option<MappingKdl>)
        requires
            after_colon_span_fits(entries@),
        ensures
            match mapping_from_entries(entries@, span) {
                Ok(parsed) => (r matches Some(m) && input_set_items(m.input_set) == parsed.0 && m.mode
                    == parsed.1 && output_sequence_items(m.output_sequence) == parsed.2)
                    && final(diagnostics)@ == old(diagnostics)@,
                Err(d) => r is None && final(diagnostics)@.len() == old(diagnostics)@.len() + 1
                    && final(diagnostics)@.take(old(diagnostics)@.len() as int) == old(diagnostics)@
                    && diagnostic_view(final(diagnostics)@.last()) == d,
            },
    {
        let ghost e = entries@;
        // Find the ":" separator between mode and inputs
        let colon = match find_token(entries, 0, ":") {
            Some(c) => c,
            None => {
                report(diagnostics, diagnostic(span, String::from_str("Mapping needs format `mode : inputs -> outputs`")));
                assert(diagnostics@.take(old(diagnostics)@.len() as int) =~= old(diagnostics)@);
                return None;
            },
        };
        proof {
            lemma_first_token_bounds(e, ":"@, 0);
            assert(first_token_from(e, ":"@, 0) is Some);
            assert(colon < e.len());
        }
        // Find the "->" separator between inputs and outputs (must come after ":")
        let n = entries.len();
        assert(colon < n);
        let arrow_span = if colon + 1 < n {
            let first = entries[colon + 1].span;
            let last = entries[entries.len() - 1].span;
            let end = last.offset + last.len;
            SourceSpan { offset: first.offset, len: end - first.offset }
        } else {
            span
        };
        assert(arrow_span == after_colon_span(e, colon as int, span));
        let arrow = match find_token(entries, colon + 1, "->") {
            Some(a) => a,
            None => {
                report(
                    diagnostics,
                    diagnostic(
                        arrow_span,
                        String::from_str("Mapping needs `->` separator between inputs and outputs"),
                    ),
                );
                assert(diagnostics@.take(old(diagnostics)@.len() as int) =~= old(diagnostics)@);
                return None;
            },
        };
        proof {
            lemma_first_token_bounds(e, "->"@, colon + 1);
        }
        let mode = match parse_mode(entries, colon, span) {
            Ok(m) => m,
            Err(d) => {
                report(diagnostics, d);
                assert(diagnostics@.take(old(diagnostics)@.len() as int) =~= old(diagnostics)@);
                return None;
            },
        };
        // Parse inputs separated by "+"
        let groups = split_by_plus(entries, colon + 1, arrow);
        let ghost g = plus_groups(e, colon + 1, arrow as int);
        proof {
            lemma_plus_groups_within(e, arrow as int, colon + 1, colon + 1);
        }
        let mut input_set = InputSet::new();
        let mut k: usize = 0;
        while k < groups.len()
            invariant
                e == entries@,
                diagnostics@ == old(diagnostics)@,
                groups@.len() == g.len(),
                forall|j: int| 0 <= j < groups@.len() ==> (#[trigger] groups@[j].0 as int, groups@[j].1 as int) == g[j],
                forall|j: int| 0 <= j < g.len() ==> 0 <= (#[trigger] g[j]).0 <= g[j].1 <= entries@.len(),
                k <= groups@.len(),
                inputs_from(e, g, 0, seq![], span) == inputs_from(e, g, k as int, input_set_items(input_set), span),
                first_token_from(e, ":"@, 0) == Some(colon as int),
                first_token_from(e, "->"@, colon + 1) == Some(arrow as int),
                mode_result(e, colon as int, span) == Ok::<MappingMode, (SourceSpan, Seq<char>)>(mode),
                g == plus_groups(e, colon + 1, arrow as int),

            decreases groups@.len() - k,
        {
            let (a, b) = groups[k];
            assert((a as int, b as int) == g[k as int]);
            if a >= b {
                report(diagnostics, diagnostic(span, String::from_str("Empty input group, check for duplicate or leading/trailing `+`")));
                assert(diagnostics@.take(old(diagnostics)@.len() as int) =~= old(diagnostics)@);
                return None;
            }
            match parse_rukey_input(&entries[a]) {
                Ok(input) => {
                    if !input_set.push(input) {
                        report(diagnostics, diagnostic(span, message_with_number("Too many inputs, max is ", 4)));
                        assert(diagnostics@.take(old(diagnostics)@.len() as int) =~= old(diagnostics)@);
                        return None;
                    }
                },
                Err(d) => {
                    report(diagnostics, d);
                    assert(diagnostics@.take(old(diagnostics)@.len() as int) =~= old(diagnostics)@);
                    return None;
                },
            }
            k += 1;
        }
        // Parse outputs separated by "+"
        let out_groups = split_by_plus(entries, arrow + 1, entries.len());
        let ghost og = plus_groups(e, arrow + 1, e.len() as int);
        proof {
            lemma_plus_groups_within(e, e.len() as int, arrow + 1, arrow + 1);
        }
        let mut output_sequence = OutputSequence::new();
        let mut k: usize = 0;
        while k < out_groups.len()
            invariant
                e == entries@,
                diagnostics@ == old(diagnostics)@,
                out_groups@.len() == og.len(),
                forall|j: int| 0 <= j < out_groups@.len() ==> (#[trigger] out_groups@[j].0 as int, out_groups@[j].1 as int) == og[j],
                forall|j: int| 0 <= j < og.len() ==> 0 <= (#[trigger] og[j]).0 <= og[j].1 <= entries@.len(),
                k <= out_groups@.len(),
                outputs_from(e, og, 0, seq![], span) == outputs_from(e, og, k as int, output_sequence_items(output_sequence), span),
                first_token_from(e, ":"@, 0) == Some(colon as int),
                first_token_from(e, "->"@, colon + 1) == Some(arrow as int),
                mode_result(e, colon as int, span) == Ok::<MappingMode, (SourceSpan, Seq<char>)>(mode),
                g == plus_groups(e, colon + 1, arrow as int),
                inputs_from(e, g, 0, seq![], span) == Ok::<Seq<RukeyInput>, (SourceSpan, Seq<char>)>(input_set_items(input_set)),
                og == plus_groups(e, arrow + 1, e.len() as int),

            decreases out_groups@.len() - k,
        {
            let (a, b) = out_groups[k];
            assert((a as int, b as int) == og[k as int]);
            if a >= b {
                report(diagnostics, diagnostic(span, String::from_str("Empty output group, check for duplicate or leading/trailing `+`")));
                assert(diagnostics@.take(old(diagnostics)@.len() as int) =~= old(diagnostics)@);
                return None;
            }
            match parse_computer_input(entries, a, b) {
                Ok(output) => {
                    if !output_sequence.push(output) {
                        report(diagnostics, diagnostic(span, message_with_number("Too many outputs, max is ", 5)));
                        assert(diagnostics@.take(old(diagnostics)@.len() as int) =~= old(diagnostics)@);
                        return None;
                    }
                },
                Err(d) => {
                    report(diagnostics, d);
                    assert(diagnostics@.take(old(diagnostics)@.len() as int) =~= old(diagnostics)@);
                    return None;
                },
            }
            k += 1;
        }
        Some(MappingKdl { input_set, mode, output_sequence })
    }
}

impl MappingKdl {
    /// The mapping as the keyboard uses it.
    pub fn finalize(&self) -> (r: Mapping)
        ensures
            input_set_items(r.input_set) == input_set_items(self.input_set),
            r.mode == self.mode,
            output_sequence_items(r.output_sequence) == output_sequence_items(self.output_sequence),
    {
        let input_set = InputSet::from_slice(self.input_set.as_slice());
        let output_sequence = OutputSequence::from_slice(self.output_sequence.as_slice());
        Mapping { input_set: input_set.unwrap(), mode: self.mode, output_sequence: output_sequence.unwrap() }
    }
}

impl Default for MappingKdl {
    fn default() -> (r: MappingKdl)
        ensures
            input_set_items(r.input_set) == Seq::<RukeyInput>::empty(),
            r.mode == MappingMode::OnPress,
            output_sequence_items(r.output_sequence) == Seq::<ComputerInput>::empty(),
    {
        MappingKdl {
            input_set: InputSet::new(),
            mode: MappingMode::OnPress,
            output_sequence: OutputSequence::new(),
        }
    }
}

/// The device kind as written in the configuration file.
#[derive(Debug, Clone, Copy, PartialEq, Eq, Structural)]
pub enum DeviceKdl {
    Rukey,
}

impl DeviceKdl {
    pub fn finalize(&self) -> (r: Device)
        ensures
            r == Device::Rukey,
    {
        Device::Rukey
    }
}

impl Default for DeviceKdl {
    fn default() -> (r: DeviceKdl)
        ensures
            r == DeviceKdl::Rukey,
    {
        DeviceKdl::Rukey
    }
}

/// A key position as written in the configuration file.
#[derive(Debug, Clone, Copy, PartialEq, Eq, Structural)]
pub enum RukeyInputKdl {
    Row0Col0,
    Row0Col1,
    Row0Col2,
    Row0Col3,
    Row0Col4,
    Row0Col5,
    Row0Col6,
    Row0Col7,
    Row0Col8,
    Row0Col9,
    Row0Col10,
    Row0Col11,
    Row0Col12,
    Row0Col13,
    Row1Col0,
    Row1Col1,
    Row1Col2,
    Row1Col3,
    Row1Col4,
    Row1Col5,
    Row1Col6,
    Row1Col7,
    Row1Col8,
    Row1Col9,
    Row1Col10,
    Row1Col11,
    Row1Col12,
    Row1Col13,
    Row2Col0,
    Row2Col1,
    Row2Col2,
    Row2Col3,
    Row2Col4,
    Row2Col5,
    Row2Col6,
    Row2Col7,
    Row2Col8,
    Row2Col9,
    Row2Col10,
    Row2Col11,
    Row2Col12,
    Row2Col13,
    Row3Col0,
    Row3Col1,
    Row3Col2,
    Row3Col3,
    Row3Col4,
    Row3Col5,
    Row3Col6,
    Row3Col7,
    Row3Col8,
    Row3Col9,
    Row3Col10,
    Row3Col11,
    Row3Col12,
    Row3Col13,
    Row4Col0,
    Row4Col1,
    Row4Col2,
    Row4Col3,
    Row4Col4,
    Row4Col5,
    Row4Col6,
    Row4Col7,
    Row4Col8,
    Row4Col9,
    Row4Col10,
    Row4Col11,
    Row4Col12,
    Row4Col13,
    Row5Col0,
    Row5Col1,
    Row5Col2,
    Row5Col3,
    Row5Col4,
    Row5Col5,
    Row5Col6,
    Row5Col7,
    Row5Col8,
    Row5Col9,
    Row5Col10,
    Row5Col11,
    Row5Col12,
    Row5Col13,
}

impl Default for RukeyInputKdl {
    fn default() -> (r: RukeyInputKdl)
        ensures
            r == RukeyInputKdl::Row0Col0,
    {
        RukeyInputKdl::Row0Col0
    }
}

impl RukeyInputKdl {
    /// Row-major position of the key in the matrix.
    pub open spec fn matrix_index(self) -> u8 {
        match self {
            RukeyInputKdl::Row0Col0 => 0,
            RukeyInputKdl::Row0Col1 => 1,
            RukeyInputKdl::Row0Col2 => 2,
            RukeyInputKdl::Row0Col3 => 3,
            RukeyInputKdl::Row0Col4 => 4,
            RukeyInputKdl::Row0Col5 => 5,
            RukeyInputKdl::Row0Col6 => 6,
            RukeyInputKdl::Row0Col7 => 7,
            RukeyInputKdl::Row0Col8 => 8,
            RukeyInputKdl::Row0Col9 => 9,
            RukeyInputKdl::Row0Col10 => 10,
            RukeyInputKdl::Row0Col11 => 11,
            RukeyInputKdl::Row0Col12 => 12,
            RukeyInputKdl::Row0Col13 => 13,
            RukeyInputKdl::Row1Col0 => 14,
            RukeyInputKdl::Row1Col1 => 15,
            RukeyInputKdl::Row1Col2 => 16,
            RukeyInputKdl::Row1Col3 => 17,
            RukeyInputKdl::Row1Col4 => 18,
            RukeyInputKdl::Row1Col5 => 19,
            RukeyInputKdl::Row1Col6 => 20,
            RukeyInputKdl::Row1Col7 => 21,
            RukeyInputKdl::Row1Col8 => 22,
            RukeyInputKdl::Row1Col9 => 23,
            RukeyInputKdl::Row1Col10 => 24,
            RukeyInputKdl::Row1Col11 => 25,
            RukeyInputKdl::Row1Col12 => 26,
            RukeyInputKdl::Row1Col13 => 27,
            RukeyInputKdl::Row2Col0 => 28,
            RukeyInputKdl::Row2Col1 => 29,
            RukeyInputKdl::Row2Col2 => 30,
            RukeyInputKdl::Row2Col3 => 31,
            RukeyInputKdl::Row2Col4 => 32,
            RukeyInputKdl::Row2Col5 => 33,
            RukeyInputKdl::Row2Col6 => 34,
            RukeyInputKdl::Row2Col7 => 35,
            RukeyInputKdl::Row2Col8 => 36,
            RukeyInputKdl::Row2Col9 => 37,
            RukeyInputKdl::Row2Col10 => 38,
            RukeyInputKdl::Row2Col11 => 39,
            RukeyInputKdl::Row2Col12 => 40,
            RukeyInputKdl::Row2Col13 => 41,
            RukeyInputKdl::Row3Col0 => 42,
            RukeyInputKdl::Row3Col1 => 43,
            RukeyInputKdl::Row3Col2 => 44,
            RukeyInputKdl::Row3Col3 => 45,
            RukeyInputKdl::Row3Col4 => 46,
            RukeyInputKdl::Row3Col5 => 47,
            RukeyInputKdl::Row3Col6 => 48,
            RukeyInputKdl::Row3Col7 => 49,
            RukeyInputKdl::Row3Col8 => 50,
            RukeyInputKdl::Row3Col9 => 51,
            RukeyInputKdl::Row3Col10 => 52,
            RukeyInputKdl::Row3Col11 => 53,
            RukeyInputKdl::Row3Col12 => 54,
            RukeyInputKdl::Row3Col13 => 55,
            RukeyInputKdl::Row4Col0 => 56,
            RukeyInputKdl::Row4Col1 => 57,
            RukeyInputKdl::Row4Col2 => 58,
            RukeyInputKdl::Row4Col3 => 59,
            RukeyInputKdl::Row4Col4 => 60,
            RukeyInputKdl::Row4Col5 => 61,
            RukeyInputKdl::Row4Col6 => 62,
            RukeyInputKdl::Row4Col7 => 63,
            RukeyInputKdl::Row4Col8 => 64,
            RukeyInputKdl::Row4Col9 => 65,
            RukeyInputKdl::Row4Col10 => 66,
            RukeyInputKdl::Row4Col11 => 67,
            RukeyInputKdl::Row4Col12 => 68,
            RukeyInputKdl::Row4Col13 => 69,
            RukeyInputKdl::Row5Col0 => 70,
            RukeyInputKdl::Row5Col1 => 71,
            RukeyInputKdl::Row5Col2 => 72,
            RukeyInputKdl::Row5Col3 => 73,
            RukeyInputKdl::Row5Col4 => 74,
            RukeyInputKdl::Row5Col5 => 75,
            RukeyInputKdl::Row5Col6 => 76,
            RukeyInputKdl::Row5Col7 => 77,
            RukeyInputKdl::Row5Col8 => 78,
            RukeyInputKdl::Row5Col9 => 79,
            RukeyInputKdl::Row5Col10 => 80,
            RukeyInputKdl::Row5Col11 => 81,
            RukeyInputKdl::Row5Col12 => 82,
            RukeyInputKdl::Row5Col13 => 83,
        }
    }

    /// The key position of the same name.
    pub fn finalize(&self) -> (r: RukeyInput)
        ensures
            r.matrix_index() == self.matrix_index(),
    {
        match self {
            RukeyInputKdl::Row0Col0 => RukeyInput::Row0Col0,
            RukeyInputKdl::Row0Col1 => RukeyInput::Row0Col1,
            RukeyInputKdl::Row0Col2 => RukeyInput::Row0Col2,
            RukeyInputKdl::Row0Col3 => RukeyInput::Row0Col3,
            RukeyInputKdl::Row0Col4 => RukeyInput::Row0Col4,
            RukeyInputKdl::Row0Col5 => RukeyInput::Row0Col5,
            RukeyInputKdl::Row0Col6 => RukeyInput::Row0Col6,
            RukeyInputKdl::Row0Col7 => RukeyInput::Row0Col7,
            RukeyInputKdl::Row0Col8 => RukeyInput::Row0Col8,
            RukeyInputKdl::Row0Col9 => RukeyInput::Row0Col9,
            RukeyInputKdl::Row0Col10 => RukeyInput::Row0Col10,
            RukeyInputKdl::Row0Col11 => RukeyInput::Row0Col11,
            RukeyInputKdl::Row0Col12 => RukeyInput::Row0Col12,
            RukeyInputKdl::Row0Col13 => RukeyInput::Row0Col13,
            RukeyInputKdl::Row1Col0 => RukeyInput::Row1Col0,
            RukeyInputKdl::Row1Col1 => RukeyInput::Row1Col1,
            RukeyInputKdl::Row1Col2 => RukeyInput::Row1Col2,
            RukeyInputKdl::Row1Col3 => RukeyInput::Row1Col3,
            RukeyInputKdl::Row1Col4 => RukeyInput::Row1Col4,
            RukeyInputKdl::Row1Col5 => RukeyInput::Row1Col5,
            RukeyInputKdl::Row1Col6 => RukeyInput::Row1Col6,
            RukeyInputKdl::Row1Col7 => RukeyInput::Row1Col7,
            RukeyInputKdl::Row1Col8 => RukeyInput::Row1Col8,
            RukeyInputKdl::Row1Col9 => RukeyInput::Row1Col9,
            RukeyInputKdl::Row1Col10 => RukeyInput::Row1Col10,
            RukeyInputKdl::Row1Col11 => RukeyInput::Row1Col11,
            RukeyInputKdl::Row1Col12 => RukeyInput::Row1Col12,
            RukeyInputKdl::Row1Col13 => RukeyInput::Row1Col13,
            RukeyInputKdl::Row2Col0 => RukeyInput::Row2Col0,
            RukeyInputKdl::Row2Col1 => RukeyInput::Row2Col1,
            RukeyInputKdl::Row2Col2 => RukeyInput::Row2Col2,
            RukeyInputKdl::Row2Col3 => RukeyInput::Row2Col3,
            RukeyInputKdl::Row2Col4 => RukeyInput::Row2Col4,
            RukeyInputKdl::Row2Col5 => RukeyInput::Row2Col5,
            RukeyInputKdl::Row2Col6 => RukeyInput::Row2Col6,
            RukeyInputKdl::Row2Col7 => RukeyInput::Row2Col7,
            RukeyInputKdl::Row2Col8 => RukeyInput::Row2Col8,
            RukeyInputKdl::Row2Col9 => RukeyInput::Row2Col9,
            RukeyInputKdl::Row2Col10 => RukeyInput::Row2Col10,
            RukeyInputKdl::Row2Col11 => RukeyInput::Row2Col11,
            RukeyInputKdl::Row2Col12 => RukeyInput::Row2Col12,
            RukeyInputKdl::Row2Col13 => RukeyInput::Row2Col13,
            RukeyInputKdl::Row3Col0 => RukeyInput::Row3Col0,
            RukeyInputKdl::Row3Col1 => RukeyInput::Row3Col1,
            RukeyInputKdl::Row3Col2 => RukeyInput::Row3Col2,
            RukeyInputKdl::Row3Col3 => RukeyInput::Row3Col3,
            RukeyInputKdl::Row3Col4 => RukeyInput::Row3Col4,
            RukeyInputKdl::Row3Col5 => RukeyInput::Row3Col5,
            RukeyInputKdl::Row3Col6 => RukeyInput::Row3Col6,
            RukeyInputKdl::Row3Col7 => RukeyInput::Row3Col7,
            RukeyInputKdl::Row3Col8 => RukeyInput::Row3Col8,
            RukeyInputKdl::Row3Col9 => RukeyInput::Row3Col9,
            RukeyInputKdl::Row3Col10 => RukeyInput::Row3Col10,
            RukeyInputKdl::Row3Col11 => RukeyInput::Row3Col11,
            RukeyInputKdl::Row3Col12 => RukeyInput::Row3Col12,
            RukeyInputKdl::Row3Col13 => RukeyInput::Row3Col13,
            RukeyInputKdl::Row4Col0 => RukeyInput::Row4Col0,
            RukeyInputKdl::Row4Col1 => RukeyInput::Row4Col1,
            RukeyInputKdl::Row4Col2 => RukeyInput::Row4Col2,
            RukeyInputKdl::Row4Col3 => RukeyInput::Row4Col3,
            RukeyInputKdl::Row4Col4 => RukeyInput::Row4Col4,
            RukeyInputKdl::Row4Col5 => RukeyInput::Row4Col5,
            RukeyInputKdl::Row4Col6 => RukeyInput::Row4Col6,
            RukeyInputKdl::Row4Col7 => RukeyInput::Row4Col7,
            RukeyInputKdl::Row4Col8 => RukeyInput::Row4Col8,
            RukeyInputKdl::Row4Col9 => RukeyInput::Row4Col9,
            RukeyInputKdl::Row4Col10 => RukeyInput::Row4Col10,
            RukeyInputKdl::Row4Col11 => RukeyInput::Row4Col11,
            RukeyInputKdl::Row4Col12 => RukeyInput::Row4Col12,
            RukeyInputKdl::Row4Col13 => RukeyInput::Row4Col13,
            RukeyInputKdl::Row5Col0 => RukeyInput::Row5Col0,
            RukeyInputKdl::Row5Col1 => RukeyInput::Row5Col1,
            RukeyInputKdl::Row5Col2 => RukeyInput::Row5Col2,
            RukeyInputKdl::Row5Col3 => RukeyInput::Row5Col3,
            RukeyInputKdl::Row5Col4 => RukeyInput::Row5Col4,
            RukeyInputKdl::Row5Col5 => RukeyInput::Row5Col5,
            RukeyInputKdl::Row5Col6 => RukeyInput::Row5Col6,
            RukeyInputKdl::Row5Col7 => RukeyInput::Row5Col7,
            RukeyInputKdl::Row5Col8 => RukeyInput::Row5Col8,
            RukeyInputKdl::Row5Col9 => RukeyInput::Row5Col9,
            RukeyInputKdl::Row5Col10 => RukeyInput::Row5Col10,
            RukeyInputKdl::Row5Col11 => RukeyInput::Row5Col11,
            RukeyInputKdl::Row5Col12 => RukeyInput::Row5Col12,
            RukeyInputKdl::Row5Col13 => RukeyInput::Row5Col13,
        }
    }
}

} // verus!
