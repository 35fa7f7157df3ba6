//! HTML attribute microsyntaxes for colours, and named colours.

use vstd::prelude::*;
use vstd::string::StringSliceAdditionalSpecFns;

use crate::style::{Color, CssColor, CssNumber};
use crate::text::splits_chars;

verus! {

broadcast use vstd::utf8::group_utf8_lib;

/// The red, green, blue and alpha components that the colour-keyword parser
/// of the CSS tokenizer reports; the alpha component is the bit pattern of a
/// single-precision number.
#[derive(Copy, Clone, Debug, PartialEq, Eq, Structural)]
pub struct RgbaComponents {
    pub red: Option<u8>,
    pub green: Option<u8>,
    pub blue: Option<u8>,
    pub alpha: Option<u32>,
}

/// What `cssparser::parse_color_keyword` makes of a keyword: the components
/// of a named colour or of `transparent`, or `None` for `currentcolor` and
/// for words that name no colour.
pub uninterp spec fn css_color_keyword(ident: Seq<char>) -> Option<RgbaComponents>;

/// Calls `cssparser::parse_color_keyword`, which looks up the CSS named
/// colours, `transparent` and `currentcolor` without regard to ASCII case.
/// The contract names its result and says nothing more of it.
#[verifier::external_body]
fn color_keyword(ident: &str) -> (r: Option<RgbaComponents>)
    ensures
        r == css_color_keyword(ident@),
{
    match cssparser::parse_color_keyword::<cssparser::Color>(ident) {
        Ok(cssparser::Color::Rgba(c)) => Some(RgbaComponents {
            red: c.red,
            green: c.green,
            blue: c.blue,
            alpha: match c.alpha {
                Some(a) => Some(a.to_bits()),
                None => None,
            },
        }),
        _ => None,
    }
}

/// What the CSS colour parser makes of one component value.
#[derive(Copy, Clone, Debug, PartialEq, Eq, Structural)]
pub enum ColorParse {
    /// The component is no colour.
    Invalid,
    /// A colour other than one given by red, green and blue channels:
    /// `currentcolor`, or one of another colour space.
    Unsupported,
    Rgba(RgbaComponents),
}

/// What `cssparser::Color::parse` makes of the component that takes the
/// bytes `start..end` of `text`.
pub uninterp spec fn css_color_component(text: Seq<char>, start: usize, end: usize) -> ColorParse;

/// Runs `cssparser::Color::parse` on the bytes `start..end` of `text`. The
/// contract names the result and says nothing more of it.
#[verifier::external_body]
pub(crate) fn parse_color_component(text: &str, start: usize, end: usize) -> (r: ColorParse)
    requires
        start <= end <= text.spec_bytes().len(),
        splits_chars(text.spec_bytes(), start as int),
        splits_chars(text.spec_bytes(), end as int),
    ensures
        r == css_color_component(text@, start, end),
{
    let mut input = cssparser::ParserInput::new(&text[start..end]);
    match cssparser::Color::parse(&mut cssparser::Parser::new(&mut input)) {
        Ok(cssparser::Color::Rgba(c)) => ColorParse::Rgba(RgbaComponents {
            red: c.red,
            green: c.green,
            blue: c.blue,
            alpha: match c.alpha {
                Some(a) => Some(a.to_bits()),
                None => None,
            },
        }),
        Ok(_) => ColorParse::Unsupported,
        Err(_) => ColorParse::Invalid,
    }
}

/// The colour of parsed red, green, blue and alpha channels: an absent
/// channel counts as zero, an absent alpha leaves the colour opaque.
pub open spec fn rgba_color(c: RgbaComponents) -> CssColor {
    CssColor::Color(Color {
        red: match c.red { Some(v) => v, None => 0 },
        green: match c.green { Some(v) => v, None => 0 },
        blue: match c.blue { Some(v) => v, None => 0 },
        alpha: CssNumber { bits: match c.alpha { Some(v) => v, None => 0x3f80_0000 } },
    })
}

/// The colour of parsed channels.
pub fn convert_rgba(c: RgbaComponents) -> (r: CssColor)
    ensures
        r == rgba_color(c),
{
    CssColor::Color(Color {
        red: match c.red { Some(v) => v, None => 0 },
        green: match c.green { Some(v) => v, None => 0 },
        blue: match c.blue { Some(v) => v, None => 0 },
        alpha: CssNumber { bits: match c.alpha { Some(v) => v, None => 0x3f80_0000 } },
    })
}

/// The colour that a parsed colour stands for, when the engine keeps it.
pub open spec fn converted_color(c: ColorParse) -> Option<CssColor> {
    match c {
        ColorParse::Rgba(rgba) => Some(rgba_color(rgba)),
        _ => None,
    }
}

/// The colour that a parsed colour stands for, when the engine keeps it.
pub fn convert_color(c: ColorParse) -> (r: Option<CssColor>)
    ensures
        r == converted_color(c),
{
    match c {
        ColorParse::Rgba(rgba) => Some(convert_rgba(rgba)),
        _ => None,
    }
}

/// The colour that named components give; absent components count as zero.
pub open spec fn components_color(c: RgbaComponents) -> CssColor {
    CssColor::Color(Color {
        red: match c.red { Some(v) => v, None => 0 },
        green: match c.green { Some(v) => v, None => 0 },
        blue: match c.blue { Some(v) => v, None => 0 },
        alpha: CssNumber { bits: match c.alpha { Some(v) => v, None => 0 } },
    })
}

/// The colour of a named-colour keyword, if `ident` is one.
pub open spec fn named_color(ident: Seq<char>) -> Option<CssColor> {
    match css_color_keyword(ident) {
        Some(c) => Some(components_color(c)),
        None => None,
    }
}

/// The colour that a set of reported components stands for.
pub fn color_from_components(c: RgbaComponents) -> (r: CssColor)
    ensures
        r == components_color(c),
{
    CssColor::Color(Color {
        red: match c.red { Some(v) => v, None => 0 },
        green: match c.green { Some(v) => v, None => 0 },
        blue: match c.blue { Some(v) => v, None => 0 },
        alpha: CssNumber { bits: match c.alpha { Some(v) => v, None => 0 } },
    })
}

pub open spec fn is_hex_char(c: char) -> bool {
    ('0' <= c <= '9') || ('A' <= c <= 'F') || ('a' <= c <= 'f')
}

/// The value of a hexadecimal digit.
pub open spec fn hex_value(c: char) -> int {
    if '0' <= c <= '9' {
        c as int - 48
    } else if 'A' <= c <= 'F' {
        c as int - 55
    } else {
        c as int - 87
    }
}

pub open spec fn is_ascii_ws_char(c: char) -> bool {
    c == ' ' || c == '\t' || c == '\n' || c == '\x0C' || c == '\r'
}

pub open spec fn lower_char(c: char) -> int {
    if 'A' <= c <= 'Z' { c as int + 32 } else { c as int }
}

/// Two code point sequences are equal when ASCII case is ignored.
pub open spec fn chars_eq_ignore_case(a: Seq<char>, b: Seq<char>) -> bool {
    a.len() == b.len() && forall|i: int| 0 <= i < a.len() ==> lower_char(#[trigger] a[i]) == lower_char(b[i])
}

/// The sequence without its leading ASCII whitespace.
pub open spec fn trim_start(s: Seq<char>) -> Seq<char>
    decreases s.len(),
{
    if s.len() > 0 && is_ascii_ws_char(s[0]) { trim_start(s.drop_first()) } else { s }
}

/// The sequence without its trailing ASCII whitespace.
pub open spec fn trim_end(s: Seq<char>) -> Seq<char>
    decreases s.len(),
{
    if s.len() > 0 && is_ascii_ws_char(s.last()) { trim_end(s.drop_last()) } else { s }
}

/// Every code point above U+FFFF replaced by the two characters `00`.
pub open spec fn replace_astral(s: Seq<char>) -> Seq<char>
    decreases s.len(),
{
    if s.len() == 0 {
        s
    } else if s.last() as u32 > 0xFFFF {
        replace_astral(s.drop_last()) + seq!['0', '0']
    } else {
        replace_astral(s.drop_last()).push(s.last())
    }
}

/// Every character that is not an ASCII hex digit replaced by `0`.
pub open spec fn zero_non_hex(s: Seq<char>) -> Seq<char> {
    Seq::new(s.len(), |i: int| if is_hex_char(s[i]) { s[i] } else { '0' })
}

/// The sequence extended with `0` until its length is a positive multiple
/// of three.
pub open spec fn pad_to_thirds(s: Seq<char>) -> Seq<char> {
    let pad = if s.len() == 0 { 3 } else { (3 - s.len() % 3) % 3 };
    s + Seq::new(pad as nat, |i: int| '0')
}

/// Step 14: while the components are longer than two and all start with a
/// zero, drop that zero from each.
pub open spec fn strip_common_zeros(r: Seq<char>, g: Seq<char>, b: Seq<char>) -> (Seq<char>, Seq<char>, Seq<char>)
    decreases r.len(),
{
    if r.len() > 2 && g.len() > 0 && b.len() > 0 && r[0] == '0' && g[0] == '0' && b[0] == '0' {
        strip_common_zeros(r.drop_first(), g.drop_first(), b.drop_first())
    } else {
        (r, g, b)
    }
}

/// The value of a sequence of hex digits.
pub open spec fn hex_number(s: Seq<char>) -> int
    decreases s.len(),
{
    if s.len() == 0 { 0 } else { hex_number(s.drop_last()) * 16 + hex_value(s.last()) }
}

/// One colour component after steps 13 to 15: at most its last eight
/// characters, then, once the common leading zeros are gone, at most its
/// first two.
pub open spec fn trim_component(c: Seq<char>) -> Seq<char> {
    if c.len() > 2 { c.subrange(0, 2) } else { c }
}

/// [HTML § 2.3.6 rules for parsing a legacy colour value](https://html.spec.whatwg.org/multipage/common-microsyntaxes.html#rules-for-parsing-a-legacy-colour-value),
/// steps 1 to 19.
pub open spec fn legacy_color(s: Seq<char>) -> Option<CssColor> {
    let input = trim_end(trim_start(s));
    if s.len() == 0 {
        None
    } else if chars_eq_ignore_case(input, "transparent"@) {
        None
    } else if named_color(input) is Some {
        named_color(input)
    } else if input.len() == 4 && input[0] == '#' && is_hex_char(input[1]) && is_hex_char(input[2])
        && is_hex_char(input[3]) {
        Some(CssColor::Color(Color::spec_rgb(
            (hex_value(input[1]) * 17) as u8,
            (hex_value(input[2]) * 17) as u8,
            (hex_value(input[3]) * 17) as u8,
        )))
    } else {
        Some(CssColor::Color(legacy_rgb(legacy_digits(input))))
    }
}

/// The number that one hexadecimal digit stands for: `0`-`9` for zero to
/// nine, `a`-`f` and `A`-`F` for ten to fifteen.
pub open spec fn hex_digit_number(c: char) -> nat {
    if c <= '9' {
        (c as nat - '0' as nat) as nat
    } else if c <= 'F' {
        (10 + c as nat - 'A' as nat) as nat
    } else {
        (10 + c as nat - 'a' as nat) as nat
    }
}

/// A colour written `#` and three hex digits, that is no colour name,
/// takes its red from the first digit, its green from the second and its
/// blue from the third, each digit doubled (`#f00` is `#ff0000`, red), and
/// is opaque (HTML § 2.3.6, step 6).
pub proof fn short_hex_colors_read_red_green_blue(s: Seq<char>)
    requires
        s.len() == 4,
        s[0] == '#',
        is_hex_char(s[1]),
        is_hex_char(s[2]),
        is_hex_char(s[3]),
        (css_color_keyword(s) is None),
    ensures
        (legacy_color(s) matches Some(CssColor::Color(c)) && c.red == 16 * hex_digit_number(s[1]) + hex_digit_number(s[1])
            && c.green == 16 * hex_digit_number(s[2]) + hex_digit_number(s[2]) && c.blue == 16 * hex_digit_number(s[3])
            + hex_digit_number(s[3]) && c.alpha.bits == 0x3f80_0000),
{
    assert(trim_start(s) == s);
    assert(trim_end(s) == s);
    reveal_strlit("transparent");
    assert(!chars_eq_ignore_case(s, "transparent"@));
}

proof fn replace_astral_keeps_basic_text(s: Seq<char>)
    requires
        forall|i: int| 0 <= i < s.len() ==> (#[trigger] s[i]) as u32 <= 0xFFFF,
    ensures
        replace_astral(s) == s,
    decreases s.len(),
{
    if s.len() > 0 {
        replace_astral_keeps_basic_text(s.drop_last());
        assert(s.drop_last().push(s.last()) =~= s);
    }
}

/// A colour written `#` and six hex digits, that is no colour name, takes
/// its red from the first two digits, its green from the next two and its
/// blue from the last two, each pair read in base sixteen (`#ff8000` is
/// orange), and is opaque (HTML § 2.3.6, steps 7 to 19).
pub proof fn long_hex_colors_read_red_green_blue(s: Seq<char>)
    requires
        s.len() == 7,
        s[0] == '#',
        forall|i: int| 1 <= i < 7 ==> is_hex_char(#[trigger] s[i]),
        (css_color_keyword(s) is None),
    ensures
        (legacy_color(s) matches Some(CssColor::Color(c)) && c.red == 16 * hex_digit_number(s[1]) + hex_digit_number(s[2])
            && c.green == 16 * hex_digit_number(s[3]) + hex_digit_number(s[4]) && c.blue == 16 * hex_digit_number(s[5])
            + hex_digit_number(s[6]) && c.alpha.bits == 0x3f80_0000),
{
    assert(is_hex_char(s[1]) && is_hex_char(s[2]) && is_hex_char(s[3]));
    assert(is_hex_char(s[4]) && is_hex_char(s[5]) && is_hex_char(s[6]));
    assert(trim_start(s) == s);
    assert(trim_end(s) == s);
    reveal_strlit("transparent");
    assert(!chars_eq_ignore_case(s, "transparent"@));
    replace_astral_keeps_basic_text(s);
    let c = s.drop_first();
    assert(zero_non_hex(c) =~= c);
    assert(pad_to_thirds(c) =~= c);
    let d = legacy_digits(s);
    assert(d == c);
    let red = d.subrange(0, 2);
    let green = d.subrange(2, 4);
    let blue = d.subrange(4, 6);
    assert(strip_common_zeros(red, green, blue) == (red, green, blue));
    assert(trim_component(red) == red);
    assert(red.drop_last() =~= seq![s[1]]);
    assert(seq![s[1]].drop_last() =~= Seq::<char>::empty());
    assert(green.drop_last() =~= seq![s[3]]);
    assert(seq![s[3]].drop_last() =~= Seq::<char>::empty());
    assert(blue.drop_last() =~= seq![s[5]]);
    assert(seq![s[5]].drop_last() =~= Seq::<char>::empty());
    assert(seq![s[1]].len() == 1 && seq![s[1]].last() == s[1]);
    assert(hex_number(Seq::<char>::empty()) == 0);
    assert(hex_number(seq![s[1]]) == hex_number(seq![s[1]].drop_last()) * 16 + hex_value(s[1]));
    assert(hex_number(seq![s[1]]) == hex_value(s[1]));
    assert(red.last() == s[2]);
    assert(hex_number(red) == hex_number(red.drop_last()) * 16 + hex_value(red.last()));
    assert(hex_number(red) == hex_value(s[1]) * 16 + hex_value(s[2]));
    assert(seq![s[3]].len() == 1 && seq![s[3]].last() == s[3]);
    assert(hex_number(Seq::<char>::empty()) == 0);
    assert(hex_number(seq![s[3]]) == hex_number(seq![s[3]].drop_last()) * 16 + hex_value(s[3]));
    assert(hex_number(seq![s[3]]) == hex_value(s[3]));
    assert(green.last() == s[4]);
    assert(hex_number(green) == hex_number(green.drop_last()) * 16 + hex_value(green.last()));
    assert(hex_number(green) == hex_value(s[3]) * 16 + hex_value(s[4]));
    assert(seq![s[5]].len() == 1 && seq![s[5]].last() == s[5]);
    assert(hex_number(Seq::<char>::empty()) == 0);
    assert(hex_number(seq![s[5]]) == hex_number(seq![s[5]].drop_last()) * 16 + hex_value(s[5]));
    assert(hex_number(seq![s[5]]) == hex_value(s[5]));
    assert(blue.last() == s[6]);
    assert(hex_number(blue) == hex_number(blue.drop_last()) * 16 + hex_value(blue.last()));
    assert(hex_number(blue) == hex_value(s[5]) * 16 + hex_value(s[6]));
}

/// Steps 7 to 11: the hex digits that the colour is read from.
pub open spec fn legacy_digits(input: Seq<char>) -> Seq<char> {
    let a = replace_astral(input);
    let b = if a.len() > 128 { a.subrange(0, 128) } else { a };
    let c = if b.len() > 0 && b[0] == '#' { b.drop_first() } else { b };
    pad_to_thirds(zero_non_hex(c))
}

/// Steps 12 to 19: the colour that the digits spell.
pub open spec fn legacy_rgb(d: Seq<char>) -> Color {
    let length = (d.len() / 3) as int;
    let red = d.subrange(0, length);
    let green = d.subrange(length, 2 * length);
    let blue = d.subrange(2 * length, 3 * length);
    let (red, green, blue) = if length > 8 {
        (red.subrange(length - 8, length), green.subrange(length - 8, length), blue.subrange(length - 8, length))
    } else {
        (red, green, blue)
    };
    let (red, green, blue) = strip_common_zeros(red, green, blue);
    Color::spec_rgb(
        hex_number(trim_component(red)) as u8,
        hex_number(trim_component(green)) as u8,
        hex_number(trim_component(blue)) as u8,
    )
}

pub trait HexExt {
    fn as_hexdigit(&self) -> Option<u8>;
}

impl HexExt for char {
    /// The value of an ASCII hex digit.
    fn as_hexdigit(&self) -> (r: Option<u8>)
        ensures
            is_hex_char(*self) ==> r == Some(hex_value(*self) as u8),
            !is_hex_char(*self) ==> r is None,
    {
        let c = *self;
        if '0' <= c && c <= '9' {
            Some((c as u32 - 48) as u8)
        } else if 'A' <= c && c <= 'F' {
            Some((c as u32 - 55) as u8)
        } else if 'a' <= c && c <= 'f' {
            Some((c as u32 - 87) as u8)
        } else {
            None
        }
    }
}


/// The code points of a string.
pub fn str_chars(s: &str) -> (r: Vec<char>)
    ensures
        r@ == s@,
{
    let n = s.unicode_len();
    let mut v: Vec<char> = Vec::new();
    let mut i: usize = 0;
    while i < n
        invariant
            n == s@.len(),
            i <= n,
            v@ == s@.take(i as int),
        decreases n - i,
    {
        let c = s.get_char(i);
        v.push(c);
        proof {
            assert(s@.take(i + 1) =~= s@.take(i as int).push(c));
        }
        i = i + 1;
    }
    proof {
        assert(s@.take(n as int) =~= s@);
    }
    v
}

/// `v[from..to]` as a new vector.
fn copy_range(v: &Vec<char>, from: usize, to: usize) -> (r: Vec<char>)
    requires
        from <= to <= v@.len(),
    ensures
        r@ == v@.subrange(from as int, to as int),
{
    let mut out: Vec<char> = Vec::new();
    let mut i: usize = from;
    while i < to
        invariant
            from <= i <= to,
            to <= v@.len(),
            out@ == v@.subrange(from as int, i as int),
        decreases to - i,
    {
        out.push(v[i]);
        proof {
            assert(v@.subrange(from as int, i + 1) =~= v@.subrange(from as int, i as int).push(v@[i as int]));
        }
        i = i + 1;
    }
    out
}

fn is_ascii_whitespace_char(c: char) -> (r: bool)
    ensures
        r == is_ascii_ws_char(c),
{
    c == ' ' || c == '\t' || c == '\n' || c == '\x0C' || c == '\r'
}

fn is_hex_digit_char(c: char) -> (r: bool)
    ensures
        r == is_hex_char(c),
{
    ('0' <= c && c <= '9') || ('A' <= c && c <= 'F') || ('a' <= c && c <= 'f')
}

fn lower_code(c: char) -> (r: u32)
    ensures
        r == lower_char(c),
{
    if 'A' <= c && c <= 'Z' {
        c as u32 + 32
    } else {
        c as u32
    }
}

/// Whether `a` equals the code points of `b` when ASCII case is ignored.
fn chars_eq_ignore_ascii_case(a: &Vec<char>, b: &Vec<char>) -> (r: bool)
    ensures
        r == chars_eq_ignore_case(a@, b@),
{
    if a.len() != b.len() {
        return false;
    }
    let mut i: usize = 0;
    while i < a.len()
        invariant
            a@.len() == b@.len(),
            i <= a@.len(),
            forall|k: int| 0 <= k < i ==> lower_char(#[trigger] a@[k]) == lower_char(b@[k]),
        decreases a@.len() - i,
    {
        if lower_code(a[i]) != lower_code(b[i]) {
            return false;
        }
        i = i + 1;
    }
    true
}

proof fn lemma_trim_start_skip(s: Seq<char>, i: int)
    requires
        0 <= i < s.len(),
        is_ascii_ws_char(s[i]),
    ensures
        trim_start(s.skip(i)) == trim_start(s.skip(i + 1)),
{
    assert(s.skip(i).drop_first() =~= s.skip(i + 1));
}

proof fn lemma_trim_end_take(s: Seq<char>, j: int)
    requires
        0 < j <= s.len(),
        is_ascii_ws_char(s[j - 1]),
    ensures
        trim_end(s.take(j)) == trim_end(s.take(j - 1)),
{
    assert(s.take(j).drop_last() =~= s.take(j - 1));
}

/// The hex value of up to two hex digits.
fn hex_component(v: &Vec<char>, from: usize, to: usize) -> (r: u8)
    requires
        from <= to <= v@.len(),
        to - from <= 2,
        forall|k: int| from <= k < to ==> is_hex_char(#[trigger] v@[k]),
    ensures
        r as int == hex_number(v@.subrange(from as int, to as int)),
{
    let mut value: u32 = 0;
    let mut i: usize = from;
    while i < to
        invariant
            from <= i <= to,
            to <= v@.len(),
            to - from <= 2,
            forall|k: int| from <= k < to ==> is_hex_char(#[trigger] v@[k]),
            value as int == hex_number(v@.subrange(from as int, i as int)),
            value < 16 * 16,
            i - from == 1 ==> value < 16,
            i == from ==> value == 0,
        decreases to - i,
    {
        let d = match v[i].as_hexdigit() {
            Some(d) => d,
            None => 0,
        };
        proof {
            assert(v@.subrange(from as int, i + 1).drop_last() =~= v@.subrange(from as int, i as int));
            assert(is_hex_char(v@[i as int]));
        }
        value = value * 16 + d as u32;
        i = i + 1;
    }
    value as u8
}


/// Steps 7 to 11 of the legacy colour rules.
fn legacy_digit_string(input: &Vec<char>) -> (r: Vec<char>)
    ensures
    r@ == legacy_digits(input@),
{
    let ghost inp = input@;
    // 7. Replace any code points greater than U+FFFF in input with the
    //    two-character string "00".
    let mut a: Vec<char> = Vec::new();
    let mut i: usize = 0;
    while i < input.len()
        invariant
            i <= inp.len(),
            input@ == inp,
            a@ == replace_astral(inp.take(i as int)),
        decreases inp.len() - i,
    {
        let c = input[i];
        proof {
            assert(inp.take(i + 1).drop_last() =~= inp.take(i as int));
            assert(inp.take(i + 1).last() == c);
        }
        if c as u32 > 0xFFFF {
            a.push('0');
            a.push('0');
            proof {
                assert(a@ =~= replace_astral(inp.take(i as int)) + seq!['0', '0']);
            }
        } else {
            a.push(c);
            proof {
                assert(a@ =~= replace_astral(inp.take(i as int)).push(c));
            }
        }
        i = i + 1;
    }
    proof {
        assert(inp.take(inp.len() as int) =~= inp);
    }

    // 8. If input's code point length is greater than 128, truncate input,
    //    leaving only the first 128 characters.
    let b = if a.len() > 128 { copy_range(&a, 0, 128) } else { copy_range(&a, 0, a.len()) };
    proof {
        assert(a@.subrange(0, a@.len() as int) =~= a@);
    }

    // 9. If the first character in input is a U+0023 NUMBER SIGN character
    //    (#), remove it.
    let c = if b.len() > 0 && b[0] == '#' { copy_range(&b, 1, b.len()) } else { copy_range(&b, 0, b.len()) };
    proof {
        assert(b@.subrange(0, b@.len() as int) =~= b@);
        assert(b@.subrange(1, b@.len() as int) =~= b@.drop_first());
    }

    // 10. Replace any character in input that is not an ASCII hex digit
    //     with the character U+0030 DIGIT ZERO (0).
    // 11. While input's code point length is zero or not a multiple of
    //     three, append a U+0030 DIGIT ZERO (0) character to input.
    let mut d: Vec<char> = Vec::new();
    let mut k: usize = 0;
    while k < c.len()
        invariant
            k <= c@.len(),
            d@ == zero_non_hex(c@).take(k as int),
        decreases c@.len() - k,
    {
        if is_hex_digit_char(c[k]) {
            d.push(c[k]);
        } else {
            d.push('0');
        }
        proof {
            assert(d@ =~= zero_non_hex(c@).take(k + 1));
        }
        k = k + 1;
    }
    proof {
        assert(zero_non_hex(c@).take(c@.len() as int) =~= zero_non_hex(c@));
        assert(c@.len() <= 128);
    }
    let ghost z = d@;
    let pad: usize = if d.len() == 0 { 3 } else { (3 - d.len() % 3) % 3 };
    let mut p: usize = 0;
    while p < pad
        invariant
            p <= pad,
            pad <= 3,
            z.len() <= 128,
            d@ == z + Seq::new(p as nat, |q: int| '0'),
        decreases pad - p,
    {
        d.push('0');
        proof {
            assert(d@ =~= z + Seq::new((p + 1) as nat, |q: int| '0'));
        }
        p = p + 1;
    }
    proof {
        assert(d@ =~= pad_to_thirds(z));
    }

    d
}

/// Steps 12 to 19 of the legacy colour rules.
fn legacy_color_from_digits(d: &Vec<char>) -> (r: Color)
    requires
    d@.len() % 3 == 0,
    d@.len() > 0,
    forall|k: int| 0 <= k < d@.len() ==> is_hex_char(#[trigger] d@[k]),
    ensures
    r == legacy_rgb(d@),
{
    // 12. Split input into three strings of equal code point length.
    let length = d.len() / 3;
    let red0 = copy_range(&d, 0, length);
    let green0 = copy_range(&d, length, 2 * length);
    let blue0 = copy_range(&d, 2 * length, 3 * length);

    // 13. If length is greater than 8, then remove the leading length-8
    //     characters in each component, and let length be 8.
    let (red, green, blue, len) = if length > 8 {
        (copy_range(&red0, length - 8, length), copy_range(&green0, length - 8, length), copy_range(&blue0, length - 8, length), 8usize)
    } else {
        (red0, green0, blue0, length)
    };

    // 14. While length is greater than two and the first character in each
    //     component is a U+0030 DIGIT ZERO (0) character, remove that
    //     character and reduce length by one.
    let mut off: usize = 0;
    proof {
        assert(red@.skip(0) =~= red@);
        assert(green@.skip(0) =~= green@);
        assert(blue@.skip(0) =~= blue@);
        assert(forall|k: int| 0 <= k < len ==> is_hex_char(#[trigger] red@[k]));
        assert(forall|k: int| 0 <= k < len ==> is_hex_char(#[trigger] green@[k]));
        assert(forall|k: int| 0 <= k < len ==> is_hex_char(#[trigger] blue@[k]));
    }
    while len - off > 2 && red[off] == '0' && green[off] == '0' && blue[off] == '0'
        invariant
            red@.len() == len,
            green@.len() == len,
            blue@.len() == len,
            off < len,
            off == 0 || len - off >= 2,
            forall|k: int| 0 <= k < len ==> is_hex_char(#[trigger] red@[k]),
            forall|k: int| 0 <= k < len ==> is_hex_char(#[trigger] green@[k]),
            forall|k: int| 0 <= k < len ==> is_hex_char(#[trigger] blue@[k]),
            strip_common_zeros(red@, green@, blue@) == strip_common_zeros(
                red@.skip(off as int),
                green@.skip(off as int),
                blue@.skip(off as int),
            ),
        decreases len - off,
    {
        proof {
            assert(red@.skip(off as int).drop_first() =~= red@.skip(off + 1));
            assert(green@.skip(off as int).drop_first() =~= green@.skip(off + 1));
            assert(blue@.skip(off as int).drop_first() =~= blue@.skip(off + 1));
        }
        off = off + 1;
    }

    // 15. If length is still greater than two, truncate each component,
    //     leaving only the first two characters in each.
    let stop = if len - off > 2 { off + 2 } else { len };
    proof {
        assert(red@.skip(off as int).subrange(0, 2) =~= red@.subrange(off as int, off + 2));
        assert(green@.skip(off as int).subrange(0, 2) =~= green@.subrange(off as int, off + 2));
        assert(blue@.skip(off as int).subrange(0, 2) =~= blue@.subrange(off as int, off + 2));
        assert(red@.skip(off as int) =~= red@.subrange(off as int, len as int));
        assert(green@.skip(off as int) =~= green@.subrange(off as int, len as int));
        assert(blue@.skip(off as int) =~= blue@.subrange(off as int, len as int));
    }

    // 16.-19. Interpret the components as hexadecimal numbers.
    let r = hex_component(&red, off, stop);
    let g = hex_component(&green, off, stop);
    let bl = hex_component(&blue, off, stop);
    Color::rgb_bytes(r, g, bl)
}

/// The bounds of the characters left after stripping leading and trailing
/// ASCII whitespace.
fn trim_bounds(chars: &Vec<char>) -> (r: (usize, usize))
    ensures
        r.0 <= r.1 <= chars@.len(),
        chars@.subrange(r.0 as int, r.1 as int) == trim_end(trim_start(chars@)),
{
    let ghost s = chars@;
    let n = chars.len();
    let mut start: usize = 0;
    proof {
        assert(s.skip(0) =~= s);
    }
    while start < n && is_ascii_whitespace_char(chars[start])
        invariant
            start <= n,
            n == s.len(),
            chars@ == s,
            trim_start(s) == trim_start(s.skip(start as int)),
        decreases n - start,
    {
        proof {
            lemma_trim_start_skip(s, start as int);
        }
        start = start + 1;
    }
    let ghost t = s.skip(start as int);
    proof {
        assert(trim_start(s) == t);
    }
    let mut end: usize = n;
    proof {
        assert(t.take(n - start) =~= t);
    }
    while end > start && is_ascii_whitespace_char(chars[end - 1])
        invariant
            start <= end <= n,
            n == s.len(),
            chars@ == s,
            t == s.skip(start as int),
            trim_end(t) == trim_end(t.take(end - start)),
        decreases end,
    {
        proof {
            lemma_trim_end_take(t, end - start);
        }
        end = end - 1;
    }
    proof {
        assert(t.take(end - start) =~= s.subrange(start as int, end as int));
    }
    (start, end)
}

pub trait CssAttributeStrExtensions {
    fn html_interpret_as_hexadecimal_number(&self) -> Option<u8>;

    /// <https://html.spec.whatwg.org/multipage/common-microsyntaxes.html#rules-for-parsing-a-legacy-colour-value>
    fn parse_legacy_color_value(&self) -> Option<CssColor>;

    fn parse_named_color(&self) -> Option<CssColor>;
}

impl CssAttributeStrExtensions for str {
    /// The number that the first two characters spell in hexadecimal, if
    /// both are hex digits.
    fn html_interpret_as_hexadecimal_number(&self) -> (r: Option<u8>)
        ensures
            (self@.len() >= 2 && is_hex_char(self@[0]) && is_hex_char(self@[1])) ==> r == Some(
                (hex_value(self@[0]) * 16 + hex_value(self@[1])) as u8,
            ),
            !(self@.len() >= 2 && is_hex_char(self@[0]) && is_hex_char(self@[1])) ==> r is None,
    {
        if self.unicode_len() < 2 {
            return None;
        }
        let first = match self.get_char(0).as_hexdigit() {
            Some(d) => d,
            None => return None,
        };
        let second = match self.get_char(1).as_hexdigit() {
            Some(d) => d,
            None => return None,
        };
        Some(first * 16 + second)
    }

    fn parse_named_color(&self) -> (r: Option<CssColor>)
        ensures
            r == named_color(self@),
    {
        match color_keyword(self) {
            Some(c) => Some(color_from_components(c)),
            None => None,
        }
    }

    fn parse_legacy_color_value(&self) -> (r: Option<CssColor>)
        ensures
            r == legacy_color(self@),
    {
        let ghost s = self@;
        // 1. Let input be the string being parsed.
        // 2. If input is the empty string, then return an error.
        if self.is_empty() {
            return None;
        }
        let chars = str_chars(self);

        // 3. Strip leading and trailing ASCII whitespace from input.
        let (start, end) = trim_bounds(&chars);
        let input = copy_range(&chars, start, end);
        let ghost inp = input@;

        // 4. If input is an ASCII case-insensitive match for "transparent",
        //    then return an error.
        let transparent = str_chars("transparent");
        if chars_eq_ignore_ascii_case(&input, &transparent) {
            return None;
        }

        // 5. If input is an ASCII case-insensitive match for one of the named
        //    colors, then return the simple color corresponding to that
        //    keyword.
        let input_str = self.substring_char(start, end);
        if let Some(color) = input_str.parse_named_color() {
            return Some(color);
        }

        // 6. If input's code point length is four, and the first character in
        //    input is U+0023 (#), and the last three characters of input are
        //    all ASCII hex digits, then return the colour whose components are
        //    those digits, each interpreted as a hexadecimal number and
        //    multiplied by 17.
        if input.len() == 4 && input[0] == '#' {
            match (input[1].as_hexdigit(), input[2].as_hexdigit(), input[3].as_hexdigit()) {
                (Some(r), Some(g), Some(b)) => {
                    return Some(CssColor::Color(Color::rgb_bytes(r * 17, g * 17, b * 17)));
                },
                _ => {},
            }
        }

        // 7.-11.
        let d = legacy_digit_string(&input);
        // 12.-19.
        Some(CssColor::Color(legacy_color_from_digits(&d)))
    }
}


/// Conversion of a value of the CSS parser into a value of the style
/// engine.
pub trait FromCssParser<T> {
    type Output;

    fn into(self) -> Self::Output;
}

} // verus!
