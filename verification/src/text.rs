//! Character-level helpers: comparing text and reading decimal integers the
//! way `str::parse` does for the integer types the configuration uses.

use vstd::prelude::*;
use vstd::string::*;

verus! {

/// Magnitude at which decimal reading stops tracking the exact value; it is
/// above every bound that a configuration field can take.
pub const PARSE_LIMIT: u32 = 100000;

/// The characters of `s`, one by one.
pub fn chars_of(s: &str) -> (v: Vec<char>)
    ensures
        v@ == s@,
{
    let n = s.unicode_len();
    let mut v: Vec<char> = Vec::new();
    let mut i: usize = 0;
    while i < n
        invariant
            n == s@.len(),
            i <= n,
            v@ == s@.take(i as int),
        decreases n - i,
    {
        let c = s.get_char(i);
        v.push(c);
        i += 1;
        assert(v@ =~= s@.take(i as int));
    }
    assert(s@.take(n as int) =~= s@);
    v
}

/// Whether two character sequences are the same.
pub fn chars_equal(a: &[char], b: &[char]) -> (r: bool)
    ensures
        r == (a@ == b@),
{
    if a.len() != b.len() {
        return false;
    }
    let mut i: usize = 0;
    while i < a.len()
        invariant
            a@.len() == b@.len(),
            i <= a@.len(),
            forall|j: int| 0 <= j < i ==> a@[j] == b@[j],
        decreases a@.len() - i,
    {
        if a[i] != b[i] {
            return false;
        }
        i += 1;
    }
    assert(a@ =~= b@);
    true
}

/// Whether `s` spells out exactly the text `lit`.
pub fn is_text(s: &[char], lit: &str) -> (r: bool)
    ensures
        r == (s@ == lit@),
{
    let l = chars_of(lit);
    chars_equal(s, l.as_slice())
}

/// An ASCII decimal digit.
pub open spec fn is_digit(c: char) -> bool {
    48 <= (c as u32) <= 57
}

/// The value of a decimal digit character.
pub open spec fn digit_value(c: char) -> int {
    (c as u32) - 48
}

pub open spec fn all_digits(s: Seq<char>) -> bool {
    forall|i: int| 0 <= i < s.len() ==> is_digit(#[trigger] s[i])
}

/// The number written by a string of decimal digits, most significant first.
pub open spec fn decimal_value(s: Seq<char>) -> int
    decreases s.len(),
{
    if s.len() == 0 {
        0
    } else {
        decimal_value(s.drop_last()) * 10 + digit_value(s.last())
    }
}

/// The integer that `s` denotes in Rust's `FromStr` syntax for integers: an
/// optional `+` (or, for signed types, `-`) followed by one or more ASCII
/// digits. `None` when `s` is not of that form; the range is not checked here.
pub open spec fn integer_text_value(s: Seq<char>, signed: bool) -> Option<int> {
    let negative = signed && s.len() > 0 && s[0] == '-';
    let digits = if s.len() > 0 && (s[0] == '+' || negative) {
        s.drop_first()
    } else {
        s
    };
    if digits.len() > 0 && all_digits(digits) {
        Some(
            if negative {
                -decimal_value(digits)
            } else {
                decimal_value(digits)
            },
        )
    } else {
        None
    }
}

/// What `str::parse::<u16>` returns for the text `s`.
pub open spec fn parsed_u16(s: Seq<char>) -> Option<u16> {
    match integer_text_value(s, false) {
        Some(v) => if 0 <= v <= u16::MAX {
            Some(v as u16)
        } else {
            None
        },
        None => None,
    }
}

/// What `str::parse::<u8>` returns for the text `s`.
pub open spec fn parsed_u8(s: Seq<char>) -> Option<u8> {
    match integer_text_value(s, false) {
        Some(v) => if 0 <= v <= u8::MAX {
            Some(v as u8)
        } else {
            None
        },
        None => None,
    }
}

/// What `str::parse::<i16>` returns for the text `s`.
pub open spec fn parsed_i16(s: Seq<char>) -> Option<i16> {
    match integer_text_value(s, true) {
        Some(v) => if i16::MIN <= v <= i16::MAX {
            Some(v as i16)
        } else {
            None
        },
        None => None,
    }
}

pub open spec fn clamp_to_limit(v: int) -> int {
    if v > PARSE_LIMIT {
        PARSE_LIMIT as int
    } else if v < -PARSE_LIMIT {
        -PARSE_LIMIT
    } else {
        v
    }
}

proof fn lemma_decimal_value_nonnegative(s: Seq<char>)
    requires
        all_digits(s),
    ensures
        decimal_value(s) >= 0,
    decreases s.len(),
{
    if s.len() > 0 {
        assert(all_digits(s.drop_last()));
        lemma_decimal_value_nonnegative(s.drop_last());
    }
}

/// Reads `s` as an integer; magnitudes above `PARSE_LIMIT` come back as `PARSE_LIMIT`.
fn parse_integer_clamped(s: &[char], signed: bool) -> (r: Option<i64>)
    ensures
        match integer_text_value(s@, signed) {
            None => r is None,
            Some(v) => r == Some(clamp_to_limit(v) as i64),
        },
{
    let n = s.len();
    let mut start: usize = 0;
    let mut negative = false;
    if n > 0 && s[0] == '+' {
        start = 1;
    } else if signed && n > 0 && s[0] == '-' {
        start = 1;
        negative = true;
    }
    let ghost digits = s@.subrange(start as int, n as int);
    assert(digits =~= (if s@.len() > 0 && (s@[0] == '+' || (signed && s@.len() > 0 && s@[0]
        == '-')) {
        s@.drop_first()
    } else {
        s@
    }));
    if start >= n {
        return None;
    }
    let mut acc: u32 = 0;
    let mut i: usize = start;
    while i < n
        invariant
            start <= i <= n,
            n == s@.len(),
            digits == (if s@.len() > 0 && (s@[0] == '+' || (signed && s@.len() > 0 && s@[0]
                == '-')) {
                s@.drop_first()
            } else {
                s@
            }),
            negative == (signed && s@.len() > 0 && s@[0] == '-'),
            digits == s@.subrange(start as int, n as int),
            all_digits(s@.subrange(start as int, i as int)),
            acc as int == if decimal_value(s@.subrange(start as int, i as int)) > PARSE_LIMIT {
                PARSE_LIMIT as int
            } else {
                decimal_value(s@.subrange(start as int, i as int))
            },
        decreases n - i,
    {
        let code = s[i] as u32;
        if code < 48 || code > 57 {
            assert(!is_digit(digits[i - start]));
            return None;
        }
        let d = code - 48;
        assert(is_digit(s@[i as int]));
        let ghost prev = s@.subrange(start as int, i as int);
        let ghost next = s@.subrange(start as int, i + 1);
        assert(next.drop_last() =~= prev);
        assert(next.last() == s@[i as int]);
        proof {
            lemma_decimal_value_nonnegative(prev);
        }
        if acc >= PARSE_LIMIT {
            acc = PARSE_LIMIT;
        } else {
            let t = acc * 10 + d;
            acc = if t > PARSE_LIMIT {
                PARSE_LIMIT
            } else {
                t
            };
        }
        i += 1;
        assert(all_digits(next));
    }
    assert(s@.subrange(start as int, n as int) == digits);
    proof {
        lemma_decimal_value_nonnegative(digits);
    }
    let magnitude = acc as i64;
    if negative {
        Some(-magnitude)
    } else {
        Some(magnitude)
    }
}

/// Reads `s` as `str::parse::<u16>` does.
pub fn parse_u16(s: &[char]) -> (r: Option<u16>)
    ensures
        r == parsed_u16(s@),
{
    match parse_integer_clamped(s, false) {
        Some(v) => if 0 <= v && v <= 65535 {
            Some(v as u16)
        } else {
            None
        },
        None => None,
    }
}

/// Reads `s` as `str::parse::<u8>` does.
pub fn parse_u8(s: &[char]) -> (r: Option<u8>)
    ensures
        r == parsed_u8(s@),
{
    match parse_integer_clamped(s, false) {
        Some(v) => if 0 <= v && v <= 255 {
            Some(v as u8)
        } else {
            None
        },
        None => None,
    }
}

/// Reads `s` as `str::parse::<i16>` does.
pub fn parse_i16(s: &[char]) -> (r: Option<i16>)
    ensures
        r == parsed_i16(s@),
{
    match parse_integer_clamped(s, true) {
        Some(v) => if -32768 <= v && v <= 32767 {
            Some(v as i16)
        } else {
            None
        },
        None => None,
    }
}

} // verus!

verus! {

/// The character of the decimal digit `d`.
pub open spec fn digit_char(d: int) -> char {
    (d + 48) as char
}

/// The decimal numeral of `n`, most significant digit first, without leading zeros.
pub open spec fn decimal_text(n: nat) -> Seq<char>
    decreases n,
{
    if n < 10 {
        seq![digit_char(n as int)]
    } else {
        decimal_text(n / 10).push(digit_char((n % 10) as int))
    }
}

/// The character of the decimal digit `d`.
pub fn digit(d: u8) -> (c: char)
    requires
        d < 10,
    ensures
        c == digit_char(d as int),
{
    (d + 48) as char
}

/// Appends the characters of `w` to `v`.
pub fn extend_chars(v: &mut Vec<char>, w: &[char])
    ensures
        final(v)@ == old(v)@ + w@,
{
    let mut i: usize = 0;
    while i < w.len()
        invariant
            i <= w@.len(),
            v@ == old(v)@ + w@.take(i as int),
        decreases w@.len() - i,
    {
        v.push(w[i]);
        i += 1;
        assert(v@ =~= old(v)@ + w@.take(i as int));
    }
    assert(w@.take(w@.len() as int) =~= w@);
}

/// The decimal numeral of a number below one hundred.
pub fn small_decimal(n: u8) -> (r: Vec<char>)
    requires
        n < 100,
    ensures
        r@ == decimal_text(n as nat),
{
    let mut r: Vec<char> = Vec::new();
    if n >= 10 {
        r.push(digit(n / 10));
        assert(decimal_text((n / 10) as nat) == seq![digit_char((n / 10) as int)]);
    }
    r.push(digit(n % 10));
    assert(r@ =~= decimal_text(n as nat));
    r
}

/// The text of an integer as `to_string` writes it: a `-` for negative
/// numbers, then the decimal digits of the magnitude.
pub open spec fn integer_text(n: int) -> Seq<char> {
    if n < 0 {
        seq!['-'] + decimal_text((-n) as nat)
    } else {
        decimal_text(n as nat)
    }
}

/// Appends the decimal digits of `n`.
fn push_decimal(n: u128, out: &mut Vec<char>)
    ensures
        final(out)@ == old(out)@ + decimal_text(n as nat),
    decreases n,
{
    if n >= 10 {
        push_decimal(n / 10, out);
    }
    out.push(digit((n % 10) as u8));
    assert(out@ =~= old(out)@ + decimal_text(n as nat));
}

/// The characters of `n.to_string()`.
pub fn integer_chars(n: i128) -> (r: Vec<char>)
    ensures
        r@ == integer_text(n as int),
{
    let mut r: Vec<char> = Vec::new();
    if n < 0 {
        r.push('-');
        let magnitude: u128 = if n == i128::MIN {
            170141183460469231731687303715884105728u128
        } else {
            (-n) as u128
        };
        push_decimal(magnitude, &mut r);
        assert(r@ =~= seq!['-'] + decimal_text((-n) as nat));
    } else {
        push_decimal(n as u128, &mut r);
        assert(r@ =~= decimal_text(n as nat));
    }
    r
}

/// The decimal numeral of `n` consists of digits and reads back as `n`.
pub proof fn lemma_decimal_text_reads_back(n: nat)
    ensures
        decimal_text(n).len() > 0,
        all_digits(decimal_text(n)),
        decimal_value(decimal_text(n)) == n,
    decreases n,
{
    let d = digit_char((n % 10) as int);
    assert(d as u32 == (n % 10) + 48);
    if n >= 10 {
        lemma_decimal_text_reads_back(n / 10);
        let t = decimal_text(n);
        assert(t.drop_last() =~= decimal_text(n / 10));
        assert(t.last() == d);
        assert(digit_value(d) == n % 10);
        assert((n / 10) * 10 + n % 10 == n);
        assert(decimal_value(t) == decimal_value(decimal_text(n / 10)) * 10 + digit_value(d));
    } else {
        assert(n % 10 == n);
        assert(decimal_text(n).drop_last() =~= Seq::<char>::empty());
        assert(decimal_text(n).last() == d);
        assert(decimal_value(decimal_text(n)) == decimal_value(Seq::<char>::empty()) * 10
            + digit_value(d));
    }
}

/// Reading back the text of an integer gives the integer.
pub proof fn lemma_integer_text_reads_back(n: int)
    ensures
        integer_text_value(integer_text(n), true) == Some(n),
        n >= 0 ==> integer_text_value(integer_text(n), false) == Some(n),
{
    if n < 0 {
        lemma_decimal_text_reads_back((-n) as nat);
        assert((seq!['-'] + decimal_text((-n) as nat)).drop_first() =~= decimal_text((-n) as nat));
    } else {
        lemma_decimal_text_reads_back(n as nat);
        let t = decimal_text(n as nat);
        assert(is_digit(t[0]));
    }
}

/// `c` with ASCII lowercase letters made uppercase (`char::to_ascii_uppercase`).
pub open spec fn ascii_upper(c: char) -> char {
    if 97 <= (c as u32) <= 122 {
        (((c as u32) - 32) as u8) as char
    } else {
        c
    }
}

/// `c` with ASCII lowercase letters made uppercase.
pub fn to_ascii_upper(c: char) -> (r: char)
    ensures
        r == ascii_upper(c),
{
    let code = c as u32;
    if 97 <= code && code <= 122 {
        ((code - 32) as u8) as char
    } else {
        c
    }
}

/// A `String` holding the characters `v` (collecting them, as `FromIterator` does).
#[verifier::external_body]
pub(crate) fn string_from_chars(v: &[char]) -> (r: String)
    ensures
        r@ == v@,
{
    v.iter().collect()
}

/// What `format!("{:?}", s)` writes for the text `s`: quoted and escaped.
pub uninterp spec fn debug_quoted(s: Seq<char>) -> Seq<char>;

/// The text `s` as `Debug` formats a `str`: in double quotes, escaped.
#[verifier::external_body]
pub(crate) fn debug_quote(s: &str) -> (r: String)
    ensures
        r@ == debug_quoted(s@),
{
    format!("{:?}", s)
}

/// The number of bytes UTF-8 takes for `c`.
pub open spec fn utf8_width(c: char) -> nat {
    if (c as u32) < 0x80 {
        1
    } else if (c as u32) < 0x800 {
        2
    } else if (c as u32) < 0x10000 {
        3
    } else {
        4
    }
}

/// The number of bytes UTF-8 takes for `s`.
pub open spec fn utf8_len(s: Seq<char>) -> nat
    decreases s.len(),
{
    if s.len() == 0 {
        0
    } else {
        utf8_len(s.drop_last()) + utf8_width(s.last())
    }
}

} // verus!
