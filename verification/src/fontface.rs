//! The declarations of `@font-face` rules.

use vstd::prelude::*;
use vstd::string::StringSliceAdditionalSpecFns;

use crate::declarations::unexpected_error_at;
use crate::error::{BasicParseErrorKind, ParseError, RetinaStyleParseError};
use crate::selector_match::str_eq_ignore_ascii_case;
use crate::style::{CodePointRange, CssFontFaceDeclaration, CssFontFaceFormat, CssFontFaceSrc, CssFontStyle, CssNumber};
use crate::syntax::{
    BlockKind, Delimiter, block_end, exhausted, find_block_end, find_comma, find_comma_index, is_exhausted,
};
use crate::dom::bytes_of;
use crate::text::{lower_bytes, splits_chars};
use crate::tokenizer::{CssToken, SpannedToken, spans_in, tokenize, tokens_of};
use crate::values::{
    expect_ident_or_string, expect_number, font_style_at, ident_or_string_at, in_range, keyword_is, next_sig,
    number_at, nxt, parse_font_style, unexpected_at, well_placed,
};

verus! {

/// A declaration of an `@font-face` rule as the contracts see it.
pub enum FontFaceDeclarationView {
    FontFamily(String),
    FontStyle(CssFontStyle),
    FontWeight(CssNumber),
    Src(Seq<CssFontFaceSrc>),
    UnicodeRanges(Seq<CodePointRange>),
}

impl View for CssFontFaceDeclaration {
    type V = FontFaceDeclarationView;

    open spec fn view(&self) -> FontFaceDeclarationView {
        match self {
            CssFontFaceDeclaration::FontFamily(s) => FontFaceDeclarationView::FontFamily(*s),
            CssFontFaceDeclaration::FontStyle(s) => FontFaceDeclarationView::FontStyle(*s),
            CssFontFaceDeclaration::FontWeight(w) => FontFaceDeclarationView::FontWeight(*w),
            CssFontFaceDeclaration::Src { sources } => FontFaceDeclarationView::Src(sources@),
            CssFontFaceDeclaration::UnicodeRanges(r) => FontFaceDeclarationView::UnicodeRanges(r@),
        }
    }
}

/// The descriptors that an `@font-face` rule takes.
#[derive(Copy, Clone, Debug, PartialEq, Eq, Structural)]
pub enum CssFontFaceProperty {
    FontFamily,
    FontStyle,
    FontWeight,
    Src,
    UnicodeRanges,
}

/// The descriptor that a name stands for, in any ASCII case.
pub open spec fn font_face_property_named(s: Seq<char>) -> Option<CssFontFaceProperty> {
    if keyword_is(s, "font-family"@) {
        Some(CssFontFaceProperty::FontFamily)
    } else if keyword_is(s, "font-style"@) {
        Some(CssFontFaceProperty::FontStyle)
    } else if keyword_is(s, "font-weight"@) {
        Some(CssFontFaceProperty::FontWeight)
    } else if keyword_is(s, "src"@) {
        Some(CssFontFaceProperty::Src)
    } else if keyword_is(s, "unicode-range"@) {
        Some(CssFontFaceProperty::UnicodeRanges)
    } else {
        None
    }
}

impl CssFontFaceProperty {
    /// The descriptor that `name` stands for, in any ASCII case.
    pub fn parse(name: &str) -> (r: Option<CssFontFaceProperty>)
        ensures
            r == font_face_property_named(name@),
    {
        if str_eq_ignore_ascii_case(name, "font-family") {
            Some(CssFontFaceProperty::FontFamily)
        } else if str_eq_ignore_ascii_case(name, "font-style") {
            Some(CssFontFaceProperty::FontStyle)
        } else if str_eq_ignore_ascii_case(name, "font-weight") {
            Some(CssFontFaceProperty::FontWeight)
        } else if str_eq_ignore_ascii_case(name, "src") {
            Some(CssFontFaceProperty::Src)
        } else if str_eq_ignore_ascii_case(name, "unicode-range") {
            Some(CssFontFaceProperty::UnicodeRanges)
        } else {
            None
        }
    }
}

/// The font formats that `format()` names, in any ASCII case; any other
/// name is an unknown format.
pub open spec fn format_named(s: Seq<char>) -> CssFontFaceFormat {
    if keyword_is(s, "collection"@) {
        CssFontFaceFormat::Collection
    } else if keyword_is(s, "embedded-opentype"@) {
        CssFontFaceFormat::EmbeddedOpentype
    } else if keyword_is(s, "opentype"@) {
        CssFontFaceFormat::Opentype
    } else if keyword_is(s, "svg"@) {
        CssFontFaceFormat::Svg
    } else if keyword_is(s, "truetype"@) {
        CssFontFaceFormat::Truetype
    } else if keyword_is(s, "woff"@) {
        CssFontFaceFormat::Woff
    } else if keyword_is(s, "woff2"@) {
        CssFontFaceFormat::Woff2
    } else {
        CssFontFaceFormat::Unknown
    }
}

fn format_from_str(s: &str) -> (r: CssFontFaceFormat)
    ensures
        r == format_named(s@),
{
    if str_eq_ignore_ascii_case(s, "collection") {
        CssFontFaceFormat::Collection
    } else if str_eq_ignore_ascii_case(s, "embedded-opentype") {
        CssFontFaceFormat::EmbeddedOpentype
    } else if str_eq_ignore_ascii_case(s, "opentype") {
        CssFontFaceFormat::Opentype
    } else if str_eq_ignore_ascii_case(s, "svg") {
        CssFontFaceFormat::Svg
    } else if str_eq_ignore_ascii_case(s, "truetype") {
        CssFontFaceFormat::Truetype
    } else if str_eq_ignore_ascii_case(s, "woff") {
        CssFontFaceFormat::Woff
    } else if str_eq_ignore_ascii_case(s, "woff2") {
        CssFontFaceFormat::Woff2
    } else {
        CssFontFaceFormat::Unknown
    }
}

/// The end of the content of the block that the token at `j` opens.
pub open spec fn content_end(ts: Seq<SpannedToken>, j: usize, stop: usize, kind: BlockKind) -> usize {
    block_end(ts, j + 1, stop as int, seq![kind]) as usize
}

/// `local(name)`: a function named `local` in any ASCII case, holding one
/// identifier or string.
pub open spec fn local_src_at(ts: Seq<SpannedToken>, i: usize, stop: usize) -> Result<(CssFontFaceSrc, usize), ParseError> {
    match nxt(ts, i, stop) {
        Some((CssToken::Function(n), j, a)) => if keyword_is(n@, "local"@) {
            let e = content_end(ts, j, stop, BlockKind::Parenthesis);
            match ident_or_string_at(ts, (j + 1) as usize, e) {
                Ok((name, c)) => if exhausted(ts, c as int, e as int) {
                    Ok((CssFontFaceSrc::Local(name), a))
                } else {
                    Err(unexpected_at(ts, c, e))
                },
                Err(err) => Err(err),
            }
        } else {
            Err(unexpected_at(ts, i, stop))
        },
        _ => Err(unexpected_at(ts, i, stop)),
    }
}

/// A URL: an unquoted `url(...)` token, or a function named `url` in any
/// ASCII case that holds one string.
pub open spec fn url_at(ts: Seq<SpannedToken>, i: usize, stop: usize) -> Result<(String, usize), ParseError> {
    match nxt(ts, i, stop) {
        Some((CssToken::UnquotedUrl(u), _, a)) => Ok((u, a)),
        Some((CssToken::Function(n), j, a)) => if keyword_is(n@, "url"@) {
            let e = content_end(ts, j, stop, BlockKind::Parenthesis);
            match nxt(ts, (j + 1) as usize, e) {
                Some((CssToken::QuotedString(u), _, c)) => if exhausted(ts, c as int, e as int) {
                    Ok((u, a))
                } else {
                    Err(unexpected_at(ts, c, e))
                },
                _ => Err(unexpected_at(ts, (j + 1) as usize, e)),
            }
        } else {
            Err(unexpected_at(ts, i, stop))
        },
        _ => Err(unexpected_at(ts, i, stop)),
    }
}

/// What follows the URL of a source: `format(name)` names the format; any
/// other component is passed over and leaves the format unknown.
pub open spec fn format_at(ts: Seq<SpannedToken>, a: usize, stop: usize) -> Result<(CssFontFaceFormat, usize), ParseError> {
    match nxt(ts, a, stop) {
        None => Ok((CssFontFaceFormat::Unknown, a)),
        Some((CssToken::Function(n), j, b)) => if keyword_is(n@, "format"@) {
            let e = content_end(ts, j, stop, BlockKind::Parenthesis);
            match ident_or_string_at(ts, (j + 1) as usize, e) {
                Ok((name, c)) => if exhausted(ts, c as int, e as int) {
                    Ok((format_named(name@), b))
                } else {
                    Err(unexpected_at(ts, c, e))
                },
                Err(err) => Err(err),
            }
        } else {
            Ok((CssFontFaceFormat::Unknown, b))
        },
        Some((_, _, b)) => Ok((CssFontFaceFormat::Unknown, b)),
    }
}

/// One source of a font: `local(...)`, else a URL and its format.
pub open spec fn src_item_at(ts: Seq<SpannedToken>, i: usize, stop: usize) -> Result<(CssFontFaceSrc, usize), ParseError> {
    match local_src_at(ts, i, stop) {
        Ok(r) => Ok(r),
        Err(_) => match url_at(ts, i, stop) {
            Err(e) => Err(e),
            Ok((url, a)) => match format_at(ts, a, stop) {
                Err(e) => Err(e),
                Ok((format, b)) => Ok((CssFontFaceSrc::WebFont { url, format }, b)),
            },
        },
    }
}

fn parse_local_src(ts: &Vec<SpannedToken>, i: usize, stop: usize) -> (r: Result<(CssFontFaceSrc, usize), ParseError>)
    requires
        in_range(ts@, i, stop),
    ensures
        r == local_src_at(ts@, i, stop),
        r matches Ok((_, a)) ==> i < a <= stop,
{
    match next_sig(ts, i, stop) {
        Some((CssToken::Function(n), j, a)) => if str_eq_ignore_ascii_case(n.as_str(), "local") {
            let e = find_block_end(ts, j + 1, stop, BlockKind::Parenthesis);
            let (name, c) = expect_ident_or_string(ts, j + 1, e)?;
            if is_exhausted(ts, c, e) {
                Ok((CssFontFaceSrc::Local(name), a))
            } else {
                Err(unexpected_error_at(ts, c, e))
            }
        } else {
            Err(unexpected_error_at(ts, i, stop))
        },
        _ => Err(unexpected_error_at(ts, i, stop)),
    }
}

fn parse_url(ts: &Vec<SpannedToken>, i: usize, stop: usize) -> (r: Result<(String, usize), ParseError>)
    requires
        in_range(ts@, i, stop),
    ensures
        r == url_at(ts@, i, stop),
        r matches Ok((_, a)) ==> i < a <= stop,
{
    match next_sig(ts, i, stop) {
        Some((CssToken::UnquotedUrl(u), _, a)) => Ok((u.clone(), a)),
        Some((CssToken::Function(n), j, a)) => if str_eq_ignore_ascii_case(n.as_str(), "url") {
            let e = find_block_end(ts, j + 1, stop, BlockKind::Parenthesis);
            match next_sig(ts, j + 1, e) {
                Some((CssToken::QuotedString(u), _, c)) => if is_exhausted(ts, c, e) {
                    Ok((u.clone(), a))
                } else {
                    Err(unexpected_error_at(ts, c, e))
                },
                _ => Err(unexpected_error_at(ts, j + 1, e)),
            }
        } else {
            Err(unexpected_error_at(ts, i, stop))
        },
        _ => Err(unexpected_error_at(ts, i, stop)),
    }
}

fn parse_format(ts: &Vec<SpannedToken>, a: usize, stop: usize) -> (r: Result<(CssFontFaceFormat, usize), ParseError>)
    requires
        in_range(ts@, a, stop),
    ensures
        r == format_at(ts@, a, stop),
        r matches Ok((_, b)) ==> a <= b <= stop,
{
    match next_sig(ts, a, stop) {
        None => Ok((CssFontFaceFormat::Unknown, a)),
        Some((CssToken::Function(n), j, b)) => if str_eq_ignore_ascii_case(n.as_str(), "format") {
            let e = find_block_end(ts, j + 1, stop, BlockKind::Parenthesis);
            let (name, c) = expect_ident_or_string(ts, j + 1, e)?;
            if is_exhausted(ts, c, e) {
                Ok((format_from_str(name.as_str()), b))
            } else {
                Err(unexpected_error_at(ts, c, e))
            }
        } else {
            Ok((CssFontFaceFormat::Unknown, b))
        },
        Some((_, _, b)) => Ok((CssFontFaceFormat::Unknown, b)),
    }
}

/// Reads one source of a font.
pub fn parse_src_item(ts: &Vec<SpannedToken>, i: usize, stop: usize) -> (r: Result<(CssFontFaceSrc, usize), ParseError>)
    requires
        in_range(ts@, i, stop),
    ensures
        r == src_item_at(ts@, i, stop),
        r matches Ok((_, a)) ==> i < a <= stop,
{
    if let Ok(r) = parse_local_src(ts, i, stop) {
        return Ok(r);
    }
    let (url, a) = parse_url(ts, i, stop)?;
    let (format, b) = parse_format(ts, a, stop)?;
    Ok((CssFontFaceSrc::WebFont { url, format }, b))
}

/// A comma-separated list of font sources from `i` on, after `acc`.
pub open spec fn sources_from(ts: Seq<SpannedToken>, i: usize, stop: usize, acc: Seq<CssFontFaceSrc>) -> Result<
    (Seq<CssFontFaceSrc>, usize),
    ParseError,
>
    decreases stop - i,
{
    let c = find_comma(ts, i as int, stop as int);
    if !in_range(ts, i, stop) || !(i <= c <= stop) {
        Ok((acc, i))
    } else {
        match src_item_at(ts, i, c as usize) {
            Err(e) => Err(e),
            Ok((s, k)) => if !exhausted(ts, k as int, c) {
                Err(unexpected_at(ts, k, c as usize))
            } else if c < stop {
                sources_from(ts, (c + 1) as usize, stop, acc.push(s))
            } else {
                Ok((acc.push(s), c as usize))
            },
        }
    }
}

/// Reads a comma-separated list of font sources.
pub fn parse_sources(ts: &Vec<SpannedToken>, i: usize, stop: usize) -> (r: Result<(Vec<CssFontFaceSrc>, usize), ParseError>)
    requires
        in_range(ts@, i, stop),
    ensures
        match (r, sources_from(ts@, i, stop, Seq::empty())) {
            (Ok((l, a)), Ok((s, b))) => l@ == s && a == b,
            (Err(e), Err(f)) => e == f,
            _ => false,
        },
        r matches Ok((_, a)) ==> i <= a <= stop,
{
    let mut items: Vec<CssFontFaceSrc> = Vec::new();
    let mut pos = i;
    loop
        invariant
            in_range(ts@, pos, stop),
            i <= pos,
            sources_from(ts@, i, stop, Seq::empty()) == sources_from(ts@, pos, stop, items@),
        decreases stop - pos,
    {
        let c = find_comma_index(ts, pos, stop);
        let (s, k) = parse_src_item(ts, pos, c)?;
        if !is_exhausted(ts, k, c) {
            return Err(unexpected_error_at(ts, k, c));
        }
        items.push(s);
        if c < stop {
            pos = c + 1;
        } else {
            return Ok((items, c));
        }
    }
}

/// What `cssparser::UnicodeRange::parse` makes of the text from byte `start`
/// up to byte `end`: the range, and the number of bytes it took.
pub uninterp spec fn css_unicode_range(text: Seq<char>, start: usize, end: usize) -> Option<(CodePointRange, usize)>;

/// An ASCII hex digit.
pub open spec fn is_hex_byte(b: u8) -> bool {
    (48 <= b <= 57) || (65 <= b <= 70) || (97 <= b <= 102)
}

/// A `+` or `-` at byte `p` that more than eight hex digits follow before
/// byte `end`.
pub open spec fn long_hex_run_at(b: Seq<u8>, p: int, end: int) -> bool {
    &&& b[p] == 43 || b[p] == 45
    &&& p + 10 <= end
    &&& forall|k: int| p + 1 <= k < p + 10 ==> is_hex_byte(#[trigger] b[k])
}

/// No `+` or `-` in the bytes `start..end` has more than eight hex digits
/// after it. The unicode-range parser adds up, in 32 bits, the hex digits
/// that follow the `+` and the `-` of a range; more than eight overflow.
pub open spec fn hex_runs_fit(b: Seq<u8>, start: int, end: int) -> bool {
    forall|p: int| start <= p < end ==> !long_hex_run_at(b, p, end)
}

fn check_hex_runs(b: &[u8], start: usize, end: usize) -> (r: bool)
    requires
        start <= end <= b@.len(),
    ensures
        r == hex_runs_fit(b@, start as int, end as int),
{
    let mut p = start;
    while p < end
        invariant
            start <= p <= end <= b@.len(),
            forall|q: int| start <= q < p ==> !long_hex_run_at(b@, q, end as int),
        decreases end - p,
    {
        if (b[p] == 43 || b[p] == 45) && end - p >= 10 {
            let mut k = p + 1;
            let mut all = true;
            while k < p + 10
                invariant
                    p + 1 <= k <= p + 10,
                    p + 10 <= end <= b@.len(),
                    all == (forall|m: int| p + 1 <= m < k ==> is_hex_byte(#[trigger] b@[m])),
                decreases p + 10 - k,
            {
                let c = b[k];
                if !((48 <= c && c <= 57) || (65 <= c && c <= 70) || (97 <= c && c <= 102)) {
                    all = false;
                }
                k = k + 1;
            }
            if all {
                proof {
                    assert(long_hex_run_at(b@, p as int, end as int));
                }
                return false;
            }
        }
        p = p + 1;
    }
    true
}

/// Runs `cssparser::UnicodeRange::parse` on the bytes `start..end` of
/// `text`. The contract names the result, and claims what the parser
/// checks before it returns a range: that its start is at most its end,
/// which is at most U+10FFFF, and that it took no more than the text.
/// The text has no `+` or `-` with more than eight hex digits after it,
/// on which the parser's sum of digits would overflow.
#[verifier::external_body]
fn parse_unicode_range_text(text: &str, start: usize, end: usize) -> (r: Option<(CodePointRange, usize)>)
    requires
        start <= end <= text.spec_bytes().len(),
        splits_chars(text.spec_bytes(), start as int),
        splits_chars(text.spec_bytes(), end as int),
        hex_runs_fit(text.spec_bytes(), start as int, end as int),
    ensures
        r == css_unicode_range(text@, start, end),
        r matches Some((c, n)) ==> c.start <= c.end <= 0x10FFFF && n <= end - start,
{
    let mut input = cssparser::ParserInput::new(&text[start..end]);
    let mut parser = cssparser::Parser::new(&mut input);
    let range = cssparser::UnicodeRange::parse(&mut parser).ok()?;
    Some((CodePointRange { start: range.start, end: range.end }, parser.position().byte_index()))
}

/// The first index from `k` on, before `stop`, of a token that starts at or
/// after byte `pos`; `stop` if there is none.
pub open spec fn first_token_from(ts: Seq<SpannedToken>, k: usize, stop: usize, pos: int) -> usize
    decreases stop - k,
{
    if k >= stop || ts[k as int].start >= pos {
        k
    } else {
        first_token_from(ts, (k + 1) as usize, stop, pos)
    }
}

fn first_token_index(ts: &Vec<SpannedToken>, k: usize, stop: usize, pos: usize) -> (r: usize)
    requires
        k <= stop <= ts@.len(),
    ensures
        r == first_token_from(ts@, k, stop, pos as int),
        k <= r <= stop,
{
    let mut j = k;
    while j < stop && ts[j].start < pos
        invariant
            k <= j <= stop <= ts@.len(),
            first_token_from(ts@, k, stop, pos as int) == first_token_from(ts@, j, stop, pos as int),
        decreases stop - j,
    {
        j = j + 1;
    }
    j
}

/// A unicode range, from the first significant token of `ts[i..stop]` on;
/// reading goes on at the first token after the text that the range took.
/// The error of a range that does not read names the first token. Text in
/// which a `+` or `-` has more than eight hex digits after it reads as no
/// range: a range has at most six digits on either side of its `-`, and
/// the parser's sum of such digits would overflow. (Such digits inside a
/// comment after a range are refused too.)
pub open spec fn unicode_range_at(src: Seq<char>, ts: Seq<SpannedToken>, i: usize, stop: usize) -> Result<(CodePointRange, usize), ParseError> {
    match nxt(ts, i, stop) {
        None => Err(ParseError::Basic(BasicParseErrorKind::EndOfInput)),
        Some((_, j, _)) => if !hex_runs_fit(bytes_of(src), ts[j as int].start as int, ts[stop - 1].end as int) {
            Err(unexpected_at(ts, i, stop))
        } else {
            match css_unicode_range(src, ts[j as int].start, ts[stop - 1].end) {
            None => Err(unexpected_at(ts, i, stop)),
            Some((r, n)) => Ok((r, first_token_from(ts, j, stop, ts[j as int].start + n))),
            }
        },
    }
}

/// Reads a unicode range.
pub fn parse_unicode_range(src: &str, ts: &Vec<SpannedToken>, i: usize, stop: usize) -> (r: Result<(CodePointRange, usize), ParseError>)
    requires
        well_placed(src@, ts@, i, stop),
    ensures
        r == unicode_range_at(src@, ts@, i, stop),
        r matches Ok((_, a)) ==> i <= a <= stop,
{
    match next_sig(ts, i, stop) {
        None => Err(ParseError::Basic(BasicParseErrorKind::EndOfInput)),
        Some((_, j, _)) => {
            let start = ts[j].start;
            let end = ts[stop - 1].end;
            proof {
                if j < stop - 1 {
                    assert(ts@[j as int].end <= ts@[stop - 1].start);
                }
            }
            if !check_hex_runs(src.as_bytes(), start, end) {
                return Err(unexpected_error_at(ts, i, stop));
            }
            match parse_unicode_range_text(src, start, end) {
                None => Err(unexpected_error_at(ts, i, stop)),
                Some((r, n)) => Ok((r, first_token_index(ts, j, stop, start + n))),
            }
        },
    }
}

/// A comma-separated list of unicode ranges from `i` on, after `acc`.
pub open spec fn ranges_from(src: Seq<char>, ts: Seq<SpannedToken>, i: usize, stop: usize, acc: Seq<CodePointRange>) -> Result<
    (Seq<CodePointRange>, usize),
    ParseError,
>
    decreases stop - i,
{
    let c = find_comma(ts, i as int, stop as int);
    if !in_range(ts, i, stop) || !(i <= c <= stop) {
        Ok((acc, i))
    } else {
        match unicode_range_at(src, ts, i, c as usize) {
            Err(e) => Err(e),
            Ok((s, k)) => if !exhausted(ts, k as int, c) {
                Err(unexpected_at(ts, k, c as usize))
            } else if c < stop {
                ranges_from(src, ts, (c + 1) as usize, stop, acc.push(s))
            } else {
                Ok((acc.push(s), c as usize))
            },
        }
    }
}

/// Reads a comma-separated list of unicode ranges.
pub fn parse_unicode_ranges(src: &str, ts: &Vec<SpannedToken>, i: usize, stop: usize) -> (r: Result<
    (Vec<CodePointRange>, usize),
    ParseError,
>)
    requires
        well_placed(src@, ts@, i, stop),
    ensures
        match (r, ranges_from(src@, ts@, i, stop, Seq::empty())) {
            (Ok((l, a)), Ok((s, b))) => l@ == s && a == b,
            (Err(e), Err(f)) => e == f,
            _ => false,
        },
        r matches Ok((_, a)) ==> i <= a <= stop,
{
    let mut items: Vec<CodePointRange> = Vec::new();
    let mut pos = i;
    loop
        invariant
            well_placed(src@, ts@, pos, stop),
            i <= pos,
            ranges_from(src@, ts@, i, stop, Seq::empty()) == ranges_from(src@, ts@, pos, stop, items@),
        decreases stop - pos,
    {
        let c = find_comma_index(ts, pos, stop);
        let (s, k) = parse_unicode_range(src, ts, pos, c)?;
        if !is_exhausted(ts, k, c) {
            return Err(unexpected_error_at(ts, k, c));
        }
        items.push(s);
        if c < stop {
            pos = c + 1;
        } else {
            return Ok((items, c));
        }
    }
}

/// The value of the descriptor `p`.
pub open spec fn font_face_value_at(src: Seq<char>, ts: Seq<SpannedToken>, i: usize, stop: usize, p: CssFontFaceProperty) -> Result<
    (FontFaceDeclarationView, usize),
    ParseError,
> {
    match p {
        CssFontFaceProperty::FontFamily => match ident_or_string_at(ts, i, stop) {
            Ok((s, a)) => Ok((FontFaceDeclarationView::FontFamily(s), a)),
            Err(e) => Err(e),
        },
        CssFontFaceProperty::FontStyle => match font_style_at(ts, i, stop) {
            Ok((s, a)) => Ok((FontFaceDeclarationView::FontStyle(s), a)),
            Err(e) => Err(e),
        },
        CssFontFaceProperty::FontWeight => match number_at(ts, i, stop) {
            Ok((n, a)) => Ok((FontFaceDeclarationView::FontWeight(n), a)),
            Err(e) => Err(e),
        },
        CssFontFaceProperty::Src => match sources_from(ts, i, stop, Seq::empty()) {
            Ok((s, a)) => Ok((FontFaceDeclarationView::Src(s), a)),
            Err(e) => Err(e),
        },
        CssFontFaceProperty::UnicodeRanges => match ranges_from(src, ts, i, stop, Seq::empty()) {
            Ok((s, a)) => Ok((FontFaceDeclarationView::UnicodeRanges(s), a)),
            Err(e) => Err(e),
        },
    }
}

/// The `@font-face` declaration that the value in `ts[i..stop]` makes for
/// the descriptor named `name`: the value must take every significant token.
pub open spec fn font_face_declared_at(src: Seq<char>, ts: Seq<SpannedToken>, i: usize, stop: usize, name: String) -> Result<
    FontFaceDeclarationView,
    ParseError,
> {
    match font_face_property_named(name@) {
        None => Err(ParseError::Custom(RetinaStyleParseError::AtFontFaceInvalidProperty(name))),
        Some(p) => match font_face_value_at(src, ts, i, stop, p) {
            Ok((d, k)) => if exhausted(ts, k as int, stop as int) {
                Ok(d)
            } else {
                Err(unexpected_at(ts, k, stop))
            },
            Err(e) => Err(e),
        },
    }
}

fn parse_font_face_value(src: &str, ts: &Vec<SpannedToken>, i: usize, stop: usize, p: CssFontFaceProperty) -> (r: Result<
    (CssFontFaceDeclaration, usize),
    ParseError,
>)
    requires
        well_placed(src@, ts@, i, stop),
    ensures
        match (r, font_face_value_at(src@, ts@, i, stop, p)) {
            (Ok((d, a)), Ok((v, b))) => d@ == v && a == b,
            (Err(e), Err(f)) => e == f,
            _ => false,
        },
        r matches Ok((_, a)) ==> i <= a <= stop,
{
    match p {
        CssFontFaceProperty::FontFamily => {
            let (s, a) = expect_ident_or_string(ts, i, stop)?;
            Ok((CssFontFaceDeclaration::FontFamily(s), a))
        },
        CssFontFaceProperty::FontStyle => {
            let (s, a) = parse_font_style(ts, i, stop)?;
            Ok((CssFontFaceDeclaration::FontStyle(s), a))
        },
        CssFontFaceProperty::FontWeight => {
            let (n, a) = expect_number(ts, i, stop)?;
            Ok((CssFontFaceDeclaration::FontWeight(n), a))
        },
        CssFontFaceProperty::Src => {
            let (sources, a) = parse_sources(ts, i, stop)?;
            Ok((CssFontFaceDeclaration::Src { sources }, a))
        },
        CssFontFaceProperty::UnicodeRanges => {
            let (ranges, a) = parse_unicode_ranges(src, ts, i, stop)?;
            Ok((CssFontFaceDeclaration::UnicodeRanges(ranges), a))
        },
    }
}

/// Reads the `@font-face` declaration that a value makes for the
/// descriptor named `name`.
pub fn parse_font_face_declared(src: &str, ts: &Vec<SpannedToken>, i: usize, stop: usize, name: String) -> (r: Result<
    CssFontFaceDeclaration,
    ParseError,
>)
    requires
        well_placed(src@, ts@, i, stop),
    ensures
        match (r, font_face_declared_at(src@, ts@, i, stop, name)) {
            (Ok(d), Ok(v)) => d@ == v,
            (Err(e), Err(f)) => e == f,
            _ => false,
        },
{
    let p = match CssFontFaceProperty::parse(name.as_str()) {
        Some(p) => p,
        None => {
            return Err(ParseError::Custom(RetinaStyleParseError::AtFontFaceInvalidProperty(name)));
        },
    };
    let (d, k) = parse_font_face_value(src, ts, i, stop, p)?;
    if is_exhausted(ts, k, stop) {
        Ok(d)
    } else {
        Err(unexpected_error_at(ts, k, stop))
    }
}

/// The parser of the declarations of `@font-face` rules.
#[derive(Copy, Clone, Debug, Default, PartialEq, Eq, PartialOrd, Ord)]
pub struct FontFaceParser;

impl FontFaceParser {
    /// The declaration that `input`, the value of the descriptor named
    /// `name`, makes.
    pub fn parse_value(&mut self, name: String, input: &str) -> (r: Result<CssFontFaceDeclaration, ParseError>)
        ensures
            match (r, font_face_declared_at(input@, tokens_of(input@), 0, tokens_of(input@).len() as usize, name)) {
                (Ok(d), Ok(v)) => d@ == v,
                (Err(e), Err(f)) => e == f,
                _ => false,
            },
    {
        let ts = tokenize(input);
        parse_font_face_declared(input, &ts, 0, ts.len(), name)
    }
}

/// The descriptors of `@font-face` and the names of font formats are
/// matched without regard to ASCII case.
pub proof fn font_face_names_ignore_ascii_case(a: Seq<char>, b: Seq<char>)
    requires
        lower_bytes(bytes_of(a)) == lower_bytes(bytes_of(b)),
    ensures
        font_face_property_named(a) == font_face_property_named(b),
        format_named(a) == format_named(b),
{
}

} // verus!
