//! The value parsers used by the attribute dispatch: HTML's lenient
//! non-negative-integer parsing (for `colspan`), dimension parsing (for
//! `width`), and legacy color parsing (for `bgcolor`). Every parser is
//! total: malformed input degrades to the caller's default, it is never
//! an error.

use vstd::prelude::*;
use crate::values::{LengthOrPercentageOrAuto, RGBA};

verus! {

/// An HTML space character: space, tab, line feed, form feed or
/// carriage return.
pub open spec fn is_html_space(c: char) -> bool {
    c == ' ' || c == '\t' || c == '\n' || c == '\x0c' || c == '\r'
}

/// A decimal digit.
pub open spec fn is_dec_digit(c: char) -> bool {
    48 <= c as u32 && c as u32 <= 57
}

/// The numeric value of a decimal digit.
pub open spec fn dec_val(c: char) -> nat {
    (c as u32 - 48) as nat
}

/// The first index at or after `i` holding a non-space character
/// (`s.len()` when spaces run to the end).
pub open spec fn skip_spaces(s: Seq<char>, i: int) -> int
    decreases s.len() - i,
{
    if i < 0 || i >= s.len() {
        s.len() as int
    } else if is_html_space(s[i]) {
        skip_spaces(s, i + 1)
    } else {
        i
    }
}

/// The first index at or after `i` holding a non-digit character
/// (`s.len()` when digits run to the end).
pub open spec fn digit_run_end(s: Seq<char>, i: int) -> int
    decreases s.len() - i,
{
    if i < 0 || i >= s.len() {
        s.len() as int
    } else if is_dec_digit(s[i]) {
        digit_run_end(s, i + 1)
    } else {
        i
    }
}

/// The value of the decimal digits `s[i..j]`, most significant first.
pub open spec fn dec_value(s: Seq<char>, i: int, j: int) -> nat
    decreases j - i,
{
    if j <= i {
        0
    } else {
        dec_value(s, i, j - 1) * 10 + dec_val(s[j - 1])
    }
}

/// HTML's rules for parsing a non-negative integer, restricted to
/// values that fit in 32 bits: leading spaces and one optional `+` are
/// allowed, at least one digit is required, and anything after the
/// digit run is ignored. Values above `u32::MAX` do not parse.
pub open spec fn spec_parse_unsigned(s: Seq<char>) -> Option<u32> {
    let i = skip_spaces(s, 0);
    let b = if i < s.len() && s[i] == '+' {
        i + 1
    } else {
        i
    };
    let j = digit_run_end(s, b);
    if j == b {
        None
    } else if dec_value(s, b, j) > u32::MAX {
        None
    } else {
        Some(dec_value(s, b, j) as u32)
    }
}

/// Whether `c` is an HTML space character.
pub fn html_space(c: char) -> (r: bool)
    ensures
        r == is_html_space(c),
{
    c == ' ' || c == '\t' || c == '\n' || c == '\x0c' || c == '\r'
}

/// Whether `c` is a decimal digit.
pub fn dec_digit(c: char) -> (r: bool)
    ensures
        r == is_dec_digit(c),
{
    let u = c as u32;
    48 <= u && u <= 57
}

/// The index of the first non-space character at or after `from`.
fn skip_spaces_exec(s: &str, from: usize) -> (r: usize)
    requires
        from <= s@.len(),
    ensures
        r as int == skip_spaces(s@, from as int),
        from <= r && r <= s@.len(),
{
    let n = s.unicode_len();
    let mut i: usize = from;
    while i < n && html_space(s.get_char(i))
        invariant
            from <= i && i <= n,
            n == s@.len(),
            skip_spaces(s@, from as int) == skip_spaces(s@, i as int),
        decreases n - i,
    {
        i = i + 1;
    }
    i
}

/// The index of the first non-digit character at or after `from`.
fn digit_run_end_exec(s: &str, from: usize) -> (r: usize)
    requires
        from <= s@.len(),
    ensures
        r as int == digit_run_end(s@, from as int),
        from <= r && r <= s@.len(),
        forall|t: int| from <= t < r ==> is_dec_digit(s@[t]),
{
    let n = s.unicode_len();
    let mut i: usize = from;
    while i < n && dec_digit(s.get_char(i))
        invariant
            from <= i && i <= n,
            n == s@.len(),
            digit_run_end(s@, from as int) == digit_run_end(s@, i as int),
            forall|t: int| from <= t < i ==> is_dec_digit(s@[t]),
        decreases n - i,
    {
        i = i + 1;
    }
    i
}

/// The value of the digit run `s[b..j]`, or `None` when it exceeds
/// `u32::MAX`.
fn dec_value_exec(s: &str, b: usize, j: usize) -> (r: Option<u32>)
    requires
        b <= j && j <= s@.len(),
        forall|t: int| b <= t < j ==> is_dec_digit(s@[t]),
    ensures
        match r {
            Some(v) => v as nat == dec_value(s@, b as int, j as int),
            None => dec_value(s@, b as int, j as int) > u32::MAX,
        },
{
    let mut val: u64 = 0;
    let mut over: bool = false;
    let mut i: usize = b;
    while i < j
        invariant
            b <= i && i <= j && j <= s@.len(),
            forall|t: int| b <= t < j ==> is_dec_digit(s@[t]),
            !over ==> val as nat == dec_value(s@, b as int, i as int) && val <= u32::MAX as u64,
            over ==> dec_value(s@, b as int, i as int) > u32::MAX,
        decreases j - i,
    {
        let c = s.get_char(i);
        let d: u64 = (c as u32 - 48) as u64;
        if !over {
            let next: u64 = val * 10 + d;
            if next > u32::MAX as u64 {
                over = true;
            } else {
                val = next;
            }
        }
        proof {
            assert(dec_value(s@, b as int, i + 1) == dec_value(s@, b as int, i as int) * 10
                + dec_val(s@[i as int]));
        }
        i = i + 1;
    }
    if over {
        None
    } else {
        Some(val as u32)
    }
}

/// Parses `s` by HTML's rules for non-negative integers; `None` when
/// no digits are found or the value exceeds `u32::MAX`.
pub fn parse_unsigned_integer(s: &str) -> (r: Option<u32>)
    ensures
        r == spec_parse_unsigned(s@),
{
    let n = s.unicode_len();
    let i = skip_spaces_exec(s, 0);
    let b = if i < n && s.get_char(i) == '+' {
        i + 1
    } else {
        i
    };
    let j = digit_run_end_exec(s, b);
    if j == b {
        None
    } else {
        dec_value_exec(s, b, j)
    }
}

/// HTML's rules for parsing a dimension, restricted to whole values:
/// leading spaces and one optional `+` are allowed, then a digit run
/// giving the value; a fractional part is read past but ignored; a `%`
/// directly after the digits makes the value a percentage; anything
/// else after the digits is ignored. Missing digits, or a value above
/// `u32::MAX`, mean `Auto`.
pub open spec fn spec_parse_length(s: Seq<char>) -> LengthOrPercentageOrAuto {
    let i = skip_spaces(s, 0);
    let b = if i < s.len() && s[i] == '+' {
        i + 1
    } else {
        i
    };
    let j = digit_run_end(s, b);
    if j == b {
        LengthOrPercentageOrAuto::Auto
    } else if dec_value(s, b, j) > u32::MAX {
        LengthOrPercentageOrAuto::Auto
    } else {
        let v = dec_value(s, b, j) as u32;
        let k = if j + 1 < s.len() && s[j] == '.' && is_dec_digit(s[j + 1]) {
            digit_run_end(s, j + 1)
        } else {
            j
        };
        if k < s.len() && s[k] == '%' {
            LengthOrPercentageOrAuto::Percentage(v)
        } else {
            LengthOrPercentageOrAuto::Length(v)
        }
    }
}

/// Parses `s` by HTML's rules for dimension values; absence of digits
/// or an out-of-range value degrades to `Auto`.
pub fn parse_length(s: &str) -> (r: LengthOrPercentageOrAuto)
    ensures
        r == spec_parse_length(s@),
{
    let n = s.unicode_len();
    let i = skip_spaces_exec(s, 0);
    let b = if i < n && s.get_char(i) == '+' {
        i + 1
    } else {
        i
    };
    let j = digit_run_end_exec(s, b);
    if j == b {
        return LengthOrPercentageOrAuto::Auto;
    }
    let v = match dec_value_exec(s, b, j) {
        Some(v) => v,
        None => {
            return LengthOrPercentageOrAuto::Auto;
        },
    };
    let k = if j < n && s.get_char(j) == '.' && j + 1 < n && dec_digit(s.get_char(j + 1)) {
        digit_run_end_exec(s, j + 1)
    } else {
        j
    };
    if k < n && s.get_char(k) == '%' {
        LengthOrPercentageOrAuto::Percentage(v)
    } else {
        LengthOrPercentageOrAuto::Length(v)
    }
}

/// The character code of `c` with an ASCII upper-case letter folded to
/// lower case.
pub open spec fn lower_code(c: char) -> u32 {
    if 65 <= c as u32 && c as u32 <= 90 {
        ((c as u32) + 32) as u32
    } else {
        c as u32
    }
}

/// The character codes of `s`, case-folded.
pub open spec fn seq_lower(s: Seq<char>) -> Seq<u32> {
    s.map_values(|c: char| lower_code(c))
}

/// Whether two texts are equal up to ASCII case.
pub open spec fn ic_eq(s: Seq<char>, t: Seq<char>) -> bool {
    seq_lower(s) == seq_lower(t)
}

/// The case-folded character code of `c`.
fn lower_code_exec(c: char) -> (r: u32)
    ensures
        r == lower_code(c),
{
    let u = c as u32;
    if 65 <= u && u <= 90 {
        u + 32
    } else {
        u
    }
}

/// Whether `a` and `b` are equal up to ASCII case.
pub fn eq_ignore_case(a: &str, b: &str) -> (r: bool)
    ensures
        r == ic_eq(a@, b@),
{
    proof {
        assert(seq_lower(a@).len() == a@.len());
        assert(seq_lower(b@).len() == b@.len());
    }
    let na = a.unicode_len();
    let nb = b.unicode_len();
    if na != nb {
        return false;
    }
    let mut i: usize = 0;
    while i < na
        invariant
            i <= na,
            na == a@.len(),
            na == b@.len(),
            seq_lower(a@).len() == a@.len(),
            seq_lower(b@).len() == b@.len(),
            forall|t: int| 0 <= t < i ==> lower_code(a@[t]) == lower_code(b@[t]),
        decreases na - i,
    {
        if lower_code_exec(a.get_char(i)) != lower_code_exec(b.get_char(i)) {
            proof {
                assert(seq_lower(a@)[i as int] != seq_lower(b@)[i as int]);
            }
            return false;
        }
        i = i + 1;
    }
    proof {
        assert(seq_lower(a@) =~= seq_lower(b@));
    }
    true
}

/// A hexadecimal digit, either case.
pub open spec fn is_hex_digit(c: char) -> bool {
    is_dec_digit(c) || (97 <= c as u32 && c as u32 <= 102) || (65 <= c as u32 && c as u32 <= 70)
}

/// The numeric value of a hexadecimal digit.
pub open spec fn hex_val(c: char) -> nat {
    if is_dec_digit(c) {
        (c as u32 - 48) as nat
    } else if 97 <= c as u32 {
        (c as u32 - 87) as nat
    } else {
        (c as u32 - 55) as nat
    }
}

/// The value of a hexadecimal digit, or `None` for any other character.
fn hex_digit_value(c: char) -> (r: Option<u8>)
    ensures
        r == (if is_hex_digit(c) {
            Some(hex_val(c) as u8)
        } else {
            None::<u8>
        }),
        r is Some ==> r->0 < 16,
{
    let u = c as u32;
    if 48 <= u && u <= 57 {
        Some((u - 48) as u8)
    } else if 97 <= u && u <= 102 {
        Some((u - 87) as u8)
    } else if 65 <= u && u <= 70 {
        Some((u - 55) as u8)
    } else {
        None
    }
}

/// An opaque color from 8-bit channels.
pub open spec fn rgb(red: u8, green: u8, blue: u8) -> RGBA {
    RGBA { red, green, blue, alpha: 255 }
}

/// The sixteen basic HTML color names, matched without regard to case.
pub open spec fn spec_named_color(s: Seq<char>) -> Option<RGBA> {
    if ic_eq(s, "black"@) {
        Some(rgb(0, 0, 0))
    } else if ic_eq(s, "silver"@) {
        Some(rgb(192, 192, 192))
    } else if ic_eq(s, "gray"@) {
        Some(rgb(128, 128, 128))
    } else if ic_eq(s, "white"@) {
        Some(rgb(255, 255, 255))
    } else if ic_eq(s, "maroon"@) {
        Some(rgb(128, 0, 0))
    } else if ic_eq(s, "red"@) {
        Some(rgb(255, 0, 0))
    } else if ic_eq(s, "purple"@) {
        Some(rgb(128, 0, 128))
    } else if ic_eq(s, "fuchsia"@) {
        Some(rgb(255, 0, 255))
    } else if ic_eq(s, "green"@) {
        Some(rgb(0, 128, 0))
    } else if ic_eq(s, "lime"@) {
        Some(rgb(0, 255, 0))
    } else if ic_eq(s, "olive"@) {
        Some(rgb(128, 128, 0))
    } else if ic_eq(s, "yellow"@) {
        Some(rgb(255, 255, 0))
    } else if ic_eq(s, "navy"@) {
        Some(rgb(0, 0, 128))
    } else if ic_eq(s, "blue"@) {
        Some(rgb(0, 0, 255))
    } else if ic_eq(s, "teal"@) {
        Some(rgb(0, 128, 128))
    } else if ic_eq(s, "aqua"@) {
        Some(rgb(0, 255, 255))
    } else {
        None
    }
}

/// The color named by `s`, or `None` when `s` is no basic color name.
pub fn named_color(s: &str) -> (r: Option<RGBA>)
    ensures
        r == spec_named_color(s@),
{
    if eq_ignore_case(s, "black") {
        Some(RGBA { red: 0, green: 0, blue: 0, alpha: 255 })
    } else if eq_ignore_case(s, "silver") {
        Some(RGBA { red: 192, green: 192, blue: 192, alpha: 255 })
    } else if eq_ignore_case(s, "gray") {
        Some(RGBA { red: 128, green: 128, blue: 128, alpha: 255 })
    } else if eq_ignore_case(s, "white") {
        Some(RGBA { red: 255, green: 255, blue: 255, alpha: 255 })
    } else if eq_ignore_case(s, "maroon") {
        Some(RGBA { red: 128, green: 0, blue: 0, alpha: 255 })
    } else if eq_ignore_case(s, "red") {
        Some(RGBA { red: 255, green: 0, blue: 0, alpha: 255 })
    } else if eq_ignore_case(s, "purple") {
        Some(RGBA { red: 128, green: 0, blue: 128, alpha: 255 })
    } else if eq_ignore_case(s, "fuchsia") {
        Some(RGBA { red: 255, green: 0, blue: 255, alpha: 255 })
    } else if eq_ignore_case(s, "green") {
        Some(RGBA { red: 0, green: 128, blue: 0, alpha: 255 })
    } else if eq_ignore_case(s, "lime") {
        Some(RGBA { red: 0, green: 255, blue: 0, alpha: 255 })
    } else if eq_ignore_case(s, "olive") {
        Some(RGBA { red: 128, green: 128, blue: 0, alpha: 255 })
    } else if eq_ignore_case(s, "yellow") {
        Some(RGBA { red: 255, green: 255, blue: 0, alpha: 255 })
    } else if eq_ignore_case(s, "navy") {
        Some(RGBA { red: 0, green: 0, blue: 128, alpha: 255 })
    } else if eq_ignore_case(s, "blue") {
        Some(RGBA { red: 0, green: 0, blue: 255, alpha: 255 })
    } else if eq_ignore_case(s, "teal") {
        Some(RGBA { red: 0, green: 128, blue: 128, alpha: 255 })
    } else if eq_ignore_case(s, "aqua") {
        Some(RGBA { red: 0, green: 255, blue: 255, alpha: 255 })
    } else {
        None
    }
}

/// A three- or six-digit hexadecimal color body (the text after any
/// leading `#`); three digits expand by repetition, as `#abc` means
/// `#aabbcc`.
pub open spec fn spec_hex_color(h: Seq<char>) -> Option<RGBA> {
    if h.len() == 3 && is_hex_digit(h[0]) && is_hex_digit(h[1]) && is_hex_digit(h[2]) {
        Some(rgb((17 * hex_val(h[0])) as u8, (17 * hex_val(h[1])) as u8, (17 * hex_val(h[2])) as u8))
    } else if h.len() == 6 && is_hex_digit(h[0]) && is_hex_digit(h[1]) && is_hex_digit(h[2])
        && is_hex_digit(h[3]) && is_hex_digit(h[4]) && is_hex_digit(h[5]) {
        Some(rgb(
            (16 * hex_val(h[0]) + hex_val(h[1])) as u8,
            (16 * hex_val(h[2]) + hex_val(h[3])) as u8,
            (16 * hex_val(h[4]) + hex_val(h[5])) as u8,
        ))
    } else {
        None
    }
}

/// Legacy HTML color parsing, restricted to the forms this library
/// recognizes: three- or six-digit hexadecimal with or without a
/// leading `#`, either case, and the sixteen basic color names.
/// Empty text, the keyword `transparent` and everything else give no
/// color.
pub open spec fn spec_legacy_color(s: Seq<char>) -> Option<RGBA> {
    if s.len() == 0 {
        None
    } else if ic_eq(s, "transparent"@) {
        None
    } else if spec_named_color(s) is Some {
        spec_named_color(s)
    } else {
        spec_hex_color(
            if s[0] == '#' {
                s.subrange(1, s.len() as int)
            } else {
                s
            },
        )
    }
}

/// Parses `s` as a legacy HTML color; unrecognized text gives `None`.
pub fn parse_legacy_color(s: &str) -> (r: Option<RGBA>)
    ensures
        r == spec_legacy_color(s@),
{
    let n = s.unicode_len();
    if n == 0 {
        return None;
    }
    if eq_ignore_case(s, "transparent") {
        return None;
    }
    match named_color(s) {
        Some(c) => {
            return Some(c);
        },
        None => {},
    }
    let off: usize = if s.get_char(0) == '#' {
        1
    } else {
        0
    };
    let ghost h = if s@[0] == '#' {
        s@.subrange(1, s@.len() as int)
    } else {
        s@
    };
    proof {
        assert(h.len() == n - off);
        assert(forall|t: int| 0 <= t < h.len() ==> h[t] == s@[t + off]);
    }
    let m = n - off;
    if m == 3 {
        let d0 = hex_digit_value(s.get_char(off));
        let d1 = hex_digit_value(s.get_char(off + 1));
        let d2 = hex_digit_value(s.get_char(off + 2));
        match (d0, d1, d2) {
            (Some(x), Some(y), Some(z)) => Some(
                RGBA { red: 17 * x, green: 17 * y, blue: 17 * z, alpha: 255 },
            ),
            _ => None,
        }
    } else if m == 6 {
        let d0 = hex_digit_value(s.get_char(off));
        let d1 = hex_digit_value(s.get_char(off + 1));
        let d2 = hex_digit_value(s.get_char(off + 2));
        let d3 = hex_digit_value(s.get_char(off + 3));
        let d4 = hex_digit_value(s.get_char(off + 4));
        let d5 = hex_digit_value(s.get_char(off + 5));
        match (d0, d1, d2, d3, d4, d5) {
            (Some(x0), Some(x1), Some(x2), Some(x3), Some(x4), Some(x5)) => Some(
                RGBA {
                    red: 16 * x0 + x1,
                    green: 16 * x2 + x3,
                    blue: 16 * x4 + x5,
                    alpha: 255,
                },
            ),
            _ => None,
        }
    } else {
        None
    }
}

/// The character for the decimal digit `d`.
pub open spec fn dec_digit_char(d: nat) -> char {
    if d == 0 {
        '0'
    } else if d == 1 {
        '1'
    } else if d == 2 {
        '2'
    } else if d == 3 {
        '3'
    } else if d == 4 {
        '4'
    } else if d == 5 {
        '5'
    } else if d == 6 {
        '6'
    } else if d == 7 {
        '7'
    } else if d == 8 {
        '8'
    } else {
        '9'
    }
}

/// The decimal rendering of `n`, without sign or leading zeros.
pub open spec fn spec_dec_string(n: nat) -> Seq<char>
    decreases n,
{
    if n < 10 {
        seq![dec_digit_char(n)]
    } else {
        spec_dec_string(n / 10).push(dec_digit_char(n % 10))
    }
}

/// The one-character string for the decimal digit `d`.
fn dec_digit_str(d: u32) -> (r: &'static str)
    requires
        d < 10,
    ensures
        r@ == seq![dec_digit_char(d as nat)],
{
    proof {
        reveal_strlit("0");
        reveal_strlit("1");
        reveal_strlit("2");
        reveal_strlit("3");
        reveal_strlit("4");
        reveal_strlit("5");
        reveal_strlit("6");
        reveal_strlit("7");
        reveal_strlit("8");
        reveal_strlit("9");
    }
    let r = match d {
        0 => "0",
        1 => "1",
        2 => "2",
        3 => "3",
        4 => "4",
        5 => "5",
        6 => "6",
        7 => "7",
        8 => "8",
        _ => "9",
    };
    proof {
        assert(r@ =~= seq![dec_digit_char(d as nat)]);
    }
    r
}

/// Renders `v` in decimal, the canonical text stored beside a value
/// written as a typed unsigned integer.
pub fn u32_to_dec_string(v: u32) -> (s: String)
    ensures
        s@ == spec_dec_string(v as nat),
    decreases v,
{
    if v < 10 {
        String::from_str(dec_digit_str(v))
    } else {
        let mut s = u32_to_dec_string(v / 10);
        let d = v % 10;
        s.append(dec_digit_str(d));
        proof {
            assert(s@ =~= spec_dec_string((v / 10) as nat).push(dec_digit_char((v % 10) as nat)));
        }
        s
    }
}

} // verus!
