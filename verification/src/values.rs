//! The grammar of property values: keywords, lengths, colours, font
//! families and the component lists of the shorthand properties.
//!
//! Every parser reads the significant tokens of `ts[i..stop]` and returns
//! what it read with the index after it.

use vstd::prelude::*;
use vstd::string::StringSliceAdditionalSpecFns;

use crate::dom::{bytes_of, str_eq};
use crate::error::{BasicParseErrorKind, ParseError, ParseErrorView, RetinaStyleParseError, outcome};
use crate::selector_match::str_eq_ignore_ascii_case;
use crate::style::{
    CssBorderLonghand, CssColor, CssDisplay, CssDisplayBox, CssDisplayInside, CssDisplayOutside,
    CssFloatValue, CssFontFamilyName, CssFontShorthand, CssFontStyle, CssGenericFontFamilyName,
    CssLength, CssLineStyle, CssNumber, CssWhiteSpace, Property, Value, ValueComponentList, ValueView,
};
use crate::syntax::{clone_token, exhausted, is_exhausted, next, next_token};
use crate::text::{eq_ignore_case, lower_bytes};
use crate::tokenizer::{CssToken, SpannedToken, spans_in};
use crate::util::{ColorParse, converted_color, convert_color, css_color_component, parse_color_component};

verus! {

/// The next significant token of `ts[i..stop]`, its index, and the index
/// after it.
pub open spec fn nxt(ts: Seq<SpannedToken>, i: usize, stop: usize) -> Option<(CssToken, usize, usize)> {
    match next_token(ts, i as int, stop as int) {
        Some((t, j, a)) => Some((t, j as usize, a as usize)),
        None => None,
    }
}

/// The positions are inside the tokens.
pub open spec fn in_range(ts: Seq<SpannedToken>, i: usize, stop: usize) -> bool {
    i <= stop <= ts.len()
}

/// The next significant token, read as `nxt` says.
pub fn next_sig(ts: &Vec<SpannedToken>, i: usize, stop: usize) -> (r: Option<(&CssToken, usize, usize)>)
    requires
        in_range(ts@, i, stop),
    ensures
        match nxt(ts@, i, stop) {
            Some((t, j, a)) => r matches Some((rt, rj, ra)) && *rt == t && rj == j && ra == a,
            None => r is None,
        },
        r matches Some((_, j, a)) ==> i <= j < a <= stop,
{
    next(ts, i, stop)
}

pub open spec fn custom(e: RetinaStyleParseError) -> ParseError {
    ParseError::Custom(e)
}

/// The error of a parser that expected a token of some kind.
pub open spec fn unexpected_at(ts: Seq<SpannedToken>, i: usize, stop: usize) -> ParseError {
    match nxt(ts, i, stop) {
        Some((t, _, _)) => ParseError::Basic(BasicParseErrorKind::UnexpectedToken(t)),
        None => ParseError::Basic(BasicParseErrorKind::EndOfInput),
    }
}

fn unexpected_here(ts: &Vec<SpannedToken>, i: usize, stop: usize) -> (r: ParseError)
    requires
        in_range(ts@, i, stop),
    ensures
        r == unexpected_at(ts@, i, stop),
{
    match next_sig(ts, i, stop) {
        Some((t, _, _)) => ParseError::Basic(BasicParseErrorKind::UnexpectedToken(clone_token(t))),
        None => ParseError::Basic(BasicParseErrorKind::EndOfInput),
    }
}

/// `s` equals the keyword `k` when ASCII case is ignored.
pub open spec fn keyword_is(s: Seq<char>, k: Seq<char>) -> bool {
    eq_ignore_case(bytes_of(s), bytes_of(k))
}

/// An identifier: its text and the index after it.
pub open spec fn ident_at(ts: Seq<SpannedToken>, i: usize, stop: usize) -> Result<(String, usize), ParseError> {
    match nxt(ts, i, stop) {
        Some((CssToken::Ident(s), _, a)) => Ok((s, a)),
        _ => Err(unexpected_at(ts, i, stop)),
    }
}

/// Reads an identifier.
pub fn expect_ident(ts: &Vec<SpannedToken>, i: usize, stop: usize) -> (r: Result<(String, usize), ParseError>)
    requires
        in_range(ts@, i, stop),
    ensures
        r == ident_at(ts@, i, stop),
        r matches Ok((_, a)) ==> i < a <= stop,
{
    match next_sig(ts, i, stop) {
        Some((CssToken::Ident(s), _, a)) => Ok((s.clone(), a)),
        _ => Err(unexpected_here(ts, i, stop)),
    }
}

/// An identifier or a quoted string: its text and the index after it.
pub open spec fn ident_or_string_at(ts: Seq<SpannedToken>, i: usize, stop: usize) -> Result<(String, usize), ParseError> {
    match nxt(ts, i, stop) {
        Some((CssToken::Ident(s), _, a)) => Ok((s, a)),
        Some((CssToken::QuotedString(s), _, a)) => Ok((s, a)),
        _ => Err(unexpected_at(ts, i, stop)),
    }
}

/// Reads an identifier or a quoted string.
pub fn expect_ident_or_string(ts: &Vec<SpannedToken>, i: usize, stop: usize) -> (r: Result<(String, usize), ParseError>)
    requires
        in_range(ts@, i, stop),
    ensures
        r == ident_or_string_at(ts@, i, stop),
        r matches Ok((_, a)) ==> i < a <= stop,
{
    match next_sig(ts, i, stop) {
        Some((CssToken::Ident(s), _, a)) => Ok((s.clone(), a)),
        Some((CssToken::QuotedString(s), _, a)) => Ok((s.clone(), a)),
        _ => Err(unexpected_here(ts, i, stop)),
    }
}

/// A number: its value and the index after it.
pub open spec fn number_at(ts: Seq<SpannedToken>, i: usize, stop: usize) -> Result<(CssNumber, usize), ParseError> {
    match nxt(ts, i, stop) {
        Some((CssToken::Number { value, .. }, _, a)) => Ok((value, a)),
        _ => Err(unexpected_at(ts, i, stop)),
    }
}

/// Reads a number.
pub fn expect_number(ts: &Vec<SpannedToken>, i: usize, stop: usize) -> (r: Result<(CssNumber, usize), ParseError>)
    requires
        in_range(ts@, i, stop),
    ensures
        r == number_at(ts@, i, stop),
        r matches Ok((_, a)) ==> i < a <= stop,
{
    match next_sig(ts, i, stop) {
        Some((CssToken::Number { value, .. }, _, a)) => Ok((*value, a)),
        _ => Err(unexpected_here(ts, i, stop)),
    }
}

/// The `display` keywords: `block`, `inline`, `inline-block` and `none`,
/// written in lower case.
pub open spec fn display_keyword(s: Seq<char>) -> Option<CssDisplay> {
    if s == "block"@ {
        Some(CssDisplay::Normal { inside: CssDisplayInside::Flow, outside: CssDisplayOutside::Block, is_list_item: false })
    } else if s == "inline"@ {
        Some(CssDisplay::Normal { inside: CssDisplayInside::Flow, outside: CssDisplayOutside::Inline, is_list_item: false })
    } else if s == "inline-block"@ {
        Some(CssDisplay::Normal { inside: CssDisplayInside::FlowRoot, outside: CssDisplayOutside::Inline, is_list_item: false })
    } else if s == "none"@ {
        Some(CssDisplay::Box(CssDisplayBox::NoBox))
    } else {
        None
    }
}

pub open spec fn display_at(ts: Seq<SpannedToken>, i: usize, stop: usize) -> Result<(CssDisplay, usize), ParseError> {
    match nxt(ts, i, stop) {
        None => Err(custom(RetinaStyleParseError::UnexpectedEofBasicColorKeyword)),
        Some((CssToken::Ident(s), _, a)) => match display_keyword(s@) {
            Some(d) => Ok((d, a)),
            None => Err(custom(RetinaStyleParseError::UnknownBasicColorKeyword)),
        },
        Some(_) => Err(custom(RetinaStyleParseError::ExpectedIdentifierAsPropertyValue)),
    }
}

/// Reads a `display` value.
pub fn parse_display(ts: &Vec<SpannedToken>, i: usize, stop: usize) -> (r: Result<(CssDisplay, usize), ParseError>)
    requires
        in_range(ts@, i, stop),
    ensures
        r == display_at(ts@, i, stop),
        r matches Ok((_, a)) ==> i < a <= stop,
{
    match next_sig(ts, i, stop) {
        None => Err(ParseError::Custom(RetinaStyleParseError::UnexpectedEofBasicColorKeyword)),
        Some((CssToken::Ident(s), _, a)) => {
            let s = s.as_str();
            if str_eq(s, "block") {
                Ok((CssDisplay::Normal { inside: CssDisplayInside::Flow, outside: CssDisplayOutside::Block, is_list_item: false }, a))
            } else if str_eq(s, "inline") {
                Ok((CssDisplay::Normal { inside: CssDisplayInside::Flow, outside: CssDisplayOutside::Inline, is_list_item: false }, a))
            } else if str_eq(s, "inline-block") {
                Ok((CssDisplay::Normal { inside: CssDisplayInside::FlowRoot, outside: CssDisplayOutside::Inline, is_list_item: false }, a))
            } else if str_eq(s, "none") {
                Ok((CssDisplay::Box(CssDisplayBox::NoBox), a))
            } else {
                Err(ParseError::Custom(RetinaStyleParseError::UnknownBasicColorKeyword))
            }
        },
        Some(_) => Err(ParseError::Custom(RetinaStyleParseError::ExpectedIdentifierAsPropertyValue)),
    }
}

/// The `float` keywords, in any ASCII case.
pub open spec fn float_keyword(s: Seq<char>) -> Option<CssFloatValue> {
    if keyword_is(s, "left"@) {
        Some(CssFloatValue::Left)
    } else if keyword_is(s, "right"@) {
        Some(CssFloatValue::Right)
    } else if keyword_is(s, "none"@) {
        Some(CssFloatValue::NoFloat)
    } else if keyword_is(s, "inline-start"@) {
        Some(CssFloatValue::InlineStart)
    } else if keyword_is(s, "inline-end"@) {
        Some(CssFloatValue::InlineEnd)
    } else {
        None
    }
}

pub open spec fn float_at(ts: Seq<SpannedToken>, i: usize, stop: usize) -> Result<(CssFloatValue, usize), ParseError> {
    match ident_at(ts, i, stop) {
        Ok((s, a)) => match float_keyword(s@) {
            Some(f) => Ok((f, a)),
            None => Err(custom(RetinaStyleParseError::FloatUnknownKeyword(s))),
        },
        Err(e) => Err(e),
    }
}

/// Reads a `float` value.
pub fn parse_float(ts: &Vec<SpannedToken>, i: usize, stop: usize) -> (r: Result<(CssFloatValue, usize), ParseError>)
    requires
        in_range(ts@, i, stop),
    ensures
        r == float_at(ts@, i, stop),
        r matches Ok((_, a)) ==> i < a <= stop,
{
    let (s, a) = expect_ident(ts, i, stop)?;
    let k = s.as_str();
    if str_eq_ignore_ascii_case(k, "left") {
        Ok((CssFloatValue::Left, a))
    } else if str_eq_ignore_ascii_case(k, "right") {
        Ok((CssFloatValue::Right, a))
    } else if str_eq_ignore_ascii_case(k, "none") {
        Ok((CssFloatValue::NoFloat, a))
    } else if str_eq_ignore_ascii_case(k, "inline-start") {
        Ok((CssFloatValue::InlineStart, a))
    } else if str_eq_ignore_ascii_case(k, "inline-end") {
        Ok((CssFloatValue::InlineEnd, a))
    } else {
        Err(ParseError::Custom(RetinaStyleParseError::FloatUnknownKeyword(s)))
    }
}

/// The `font-style` keywords, in any ASCII case.
pub open spec fn font_style_keyword(s: Seq<char>) -> Option<CssFontStyle> {
    if keyword_is(s, "normal"@) {
        Some(CssFontStyle::Normal)
    } else if keyword_is(s, "italic"@) {
        Some(CssFontStyle::Italic)
    } else if keyword_is(s, "oblique"@) {
        Some(CssFontStyle::Oblique)
    } else {
        None
    }
}

pub open spec fn font_style_at(ts: Seq<SpannedToken>, i: usize, stop: usize) -> Result<(CssFontStyle, usize), ParseError> {
    match ident_at(ts, i, stop) {
        Ok((s, a)) => match font_style_keyword(s@) {
            Some(f) => Ok((f, a)),
            None => Err(custom(RetinaStyleParseError::FontStyleUnknownKeyword(s))),
        },
        Err(e) => Err(e),
    }
}

/// Reads a `font-style` value.
pub fn parse_font_style(ts: &Vec<SpannedToken>, i: usize, stop: usize) -> (r: Result<(CssFontStyle, usize), ParseError>)
    requires
        in_range(ts@, i, stop),
    ensures
        r == font_style_at(ts@, i, stop),
        r matches Ok((_, a)) ==> i < a <= stop,
{
    let (s, a) = expect_ident(ts, i, stop)?;
    let k = s.as_str();
    if str_eq_ignore_ascii_case(k, "normal") {
        Ok((CssFontStyle::Normal, a))
    } else if str_eq_ignore_ascii_case(k, "italic") {
        Ok((CssFontStyle::Italic, a))
    } else if str_eq_ignore_ascii_case(k, "oblique") {
        Ok((CssFontStyle::Oblique, a))
    } else {
        Err(ParseError::Custom(RetinaStyleParseError::FontStyleUnknownKeyword(s)))
    }
}

/// The generic font family names, in any ASCII case.
pub open spec fn generic_family_keyword(s: Seq<char>) -> Option<CssGenericFontFamilyName> {
    if keyword_is(s, "serif"@) {
        Some(CssGenericFontFamilyName::Serif)
    } else if keyword_is(s, "sans-serif"@) {
        Some(CssGenericFontFamilyName::SansSerif)
    } else if keyword_is(s, "cursive"@) {
        Some(CssGenericFontFamilyName::Cursive)
    } else if keyword_is(s, "fantasy"@) {
        Some(CssGenericFontFamilyName::Fantasy)
    } else if keyword_is(s, "monospace"@) {
        Some(CssGenericFontFamilyName::Monospace)
    } else if keyword_is(s, "system-ui"@) {
        Some(CssGenericFontFamilyName::SystemUi)
    } else if keyword_is(s, "emoji"@) {
        Some(CssGenericFontFamilyName::Emoji)
    } else if keyword_is(s, "math"@) {
        Some(CssGenericFontFamilyName::Math)
    } else if keyword_is(s, "fangsong"@) {
        Some(CssGenericFontFamilyName::Fangsong)
    } else if keyword_is(s, "ui-serif"@) {
        Some(CssGenericFontFamilyName::UiSerif)
    } else if keyword_is(s, "ui-sans-serif"@) {
        Some(CssGenericFontFamilyName::UiSansSerif)
    } else if keyword_is(s, "ui-monospace"@) {
        Some(CssGenericFontFamilyName::UiMonospace)
    } else if keyword_is(s, "ui-rounded"@) {
        Some(CssGenericFontFamilyName::UiRounded)
    } else {
        None
    }
}

/// The generic family that `s` names, in any ASCII case.
pub fn generic_family(s: &str) -> (r: Option<CssGenericFontFamilyName>)
    ensures
        r == generic_family_keyword(s@),
{
    if str_eq_ignore_ascii_case(s, "serif") {
        Some(CssGenericFontFamilyName::Serif)
    } else if str_eq_ignore_ascii_case(s, "sans-serif") {
        Some(CssGenericFontFamilyName::SansSerif)
    } else if str_eq_ignore_ascii_case(s, "cursive") {
        Some(CssGenericFontFamilyName::Cursive)
    } else if str_eq_ignore_ascii_case(s, "fantasy") {
        Some(CssGenericFontFamilyName::Fantasy)
    } else if str_eq_ignore_ascii_case(s, "monospace") {
        Some(CssGenericFontFamilyName::Monospace)
    } else if str_eq_ignore_ascii_case(s, "system-ui") {
        Some(CssGenericFontFamilyName::SystemUi)
    } else if str_eq_ignore_ascii_case(s, "emoji") {
        Some(CssGenericFontFamilyName::Emoji)
    } else if str_eq_ignore_ascii_case(s, "math") {
        Some(CssGenericFontFamilyName::Math)
    } else if str_eq_ignore_ascii_case(s, "fangsong") {
        Some(CssGenericFontFamilyName::Fangsong)
    } else if str_eq_ignore_ascii_case(s, "ui-serif") {
        Some(CssGenericFontFamilyName::UiSerif)
    } else if str_eq_ignore_ascii_case(s, "ui-sans-serif") {
        Some(CssGenericFontFamilyName::UiSansSerif)
    } else if str_eq_ignore_ascii_case(s, "ui-monospace") {
        Some(CssGenericFontFamilyName::UiMonospace)
    } else if str_eq_ignore_ascii_case(s, "ui-rounded") {
        Some(CssGenericFontFamilyName::UiRounded)
    } else {
        None
    }
}

/// A length: `auto`, a dimension in `em`, `px`, `rem`, `vh` or `vw`, the
/// number zero, or a percentage.
pub open spec fn length_at(ts: Seq<SpannedToken>, i: usize, stop: usize) -> Result<(CssLength, usize), ParseError> {
    match nxt(ts, i, stop) {
        None => Err(custom(RetinaStyleParseError::UnexpectedEofBasicColorKeyword)),
        Some((CssToken::Ident(s), _, a)) => if s@ == "auto"@ {
            Ok((CssLength::Auto, a))
        } else {
            Err(custom(RetinaStyleParseError::LengthUnknownIdentifier(s)))
        },
        Some((CssToken::Dimension { value, unit, .. }, _, a)) => if unit@ == "em"@ {
            Ok((CssLength::FontSize(value), a))
        } else if unit@ == "px"@ {
            Ok((CssLength::Pixels(value), a))
        } else if unit@ == "rem"@ {
            Ok((CssLength::FontSizeOfRootElement(value), a))
        } else if unit@ == "vh"@ {
            Ok((CssLength::UaDefaultViewportHeightPercentage(value), a))
        } else if unit@ == "vw"@ {
            Ok((CssLength::UaDefaultViewportWidthPercentage(value), a))
        } else {
            Err(custom(RetinaStyleParseError::LengthUnknownUnit(unit)))
        },
        Some((CssToken::Number { int_value: Some(0), .. }, _, a)) => Ok((CssLength::Pixels(CssNumber { bits: 0 }), a)),
        Some((CssToken::Percentage { unit_value, .. }, _, a)) => Ok((CssLength::Percentage(unit_value), a)),
        Some((t, _, _)) => Err(custom(RetinaStyleParseError::LengthUnexpectedToken(t))),
    }
}

/// Reads a length.
pub fn parse_length(ts: &Vec<SpannedToken>, i: usize, stop: usize) -> (r: Result<(CssLength, usize), ParseError>)
    requires
        in_range(ts@, i, stop),
    ensures
        r == length_at(ts@, i, stop),
        r matches Ok((_, a)) ==> i < a <= stop,
{
    match next_sig(ts, i, stop) {
        None => Err(ParseError::Custom(RetinaStyleParseError::UnexpectedEofBasicColorKeyword)),
        Some((CssToken::Ident(s), _, a)) => if str_eq(s.as_str(), "auto") {
            Ok((CssLength::Auto, a))
        } else {
            Err(ParseError::Custom(RetinaStyleParseError::LengthUnknownIdentifier(s.clone())))
        },
        Some((CssToken::Dimension { value, unit, .. }, _, a)) => {
            let u = unit.as_str();
            if str_eq(u, "em") {
                Ok((CssLength::FontSize(*value), a))
            } else if str_eq(u, "px") {
                Ok((CssLength::Pixels(*value), a))
            } else if str_eq(u, "rem") {
                Ok((CssLength::FontSizeOfRootElement(*value), a))
            } else if str_eq(u, "vh") {
                Ok((CssLength::UaDefaultViewportHeightPercentage(*value), a))
            } else if str_eq(u, "vw") {
                Ok((CssLength::UaDefaultViewportWidthPercentage(*value), a))
            } else {
                Err(ParseError::Custom(RetinaStyleParseError::LengthUnknownUnit(unit.clone())))
            }
        },
        Some((CssToken::Number { int_value: Some(0), .. }, _, a)) => Ok((CssLength::Pixels(CssNumber::zero()), a)),
        Some((CssToken::Percentage { unit_value, .. }, _, a)) => Ok((CssLength::Percentage(*unit_value), a)),
        Some((t, _, _)) => Err(ParseError::Custom(RetinaStyleParseError::LengthUnexpectedToken(clone_token(t)))),
    }
}

/// A line height: a length, or else a number, which counts in font sizes.
pub open spec fn line_height_at(ts: Seq<SpannedToken>, i: usize, stop: usize) -> Result<(CssLength, usize), ParseError> {
    match length_at(ts, i, stop) {
        Ok(r) => Ok(r),
        Err(e) => match number_at(ts, i, stop) {
            Ok((n, a)) => Ok((CssLength::FontSize(n), a)),
            Err(_) => Err(e),
        },
    }
}

/// Reads a line height.
pub fn parse_line_height(ts: &Vec<SpannedToken>, i: usize, stop: usize) -> (r: Result<(CssLength, usize), ParseError>)
    requires
        in_range(ts@, i, stop),
    ensures
        r == line_height_at(ts@, i, stop),
        r matches Ok((_, a)) ==> i < a <= stop,
{
    match parse_length(ts, i, stop) {
        Ok(r) => Ok(r),
        Err(e) => match expect_number(ts, i, stop) {
            Ok((n, a)) => Ok((CssLength::FontSize(n), a)),
            Err(_) => Err(e),
        },
    }
}

/// The `/` and line height of the `font` shorthand.
pub open spec fn shorthand_line_height_at(ts: Seq<SpannedToken>, i: usize, stop: usize) -> Result<(CssLength, usize), ParseError> {
    match nxt(ts, i, stop) {
        Some((CssToken::Delim('/'), _, a)) => line_height_at(ts, a, stop),
        _ => Err(unexpected_at(ts, i, stop)),
    }
}

/// Reads the `/` and line height of the `font` shorthand.
pub fn parse_font_shorthand_line_height(ts: &Vec<SpannedToken>, i: usize, stop: usize) -> (r: Result<(CssLength, usize), ParseError>)
    requires
        in_range(ts@, i, stop),
    ensures
        r == shorthand_line_height_at(ts@, i, stop),
        r matches Ok((_, a)) ==> i < a <= stop,
{
    match next_sig(ts, i, stop) {
        Some((CssToken::Delim(c), _, a)) if *c == '/' => parse_line_height(ts, a, stop),
        _ => Err(unexpected_here(ts, i, stop)),
    }
}

/// The line style that a keyword names, written in lower case.
pub open spec fn line_style_keyword(s: Seq<char>) -> Option<CssLineStyle> {
    if s == "none"@ {
        Some(CssLineStyle::NoStyle)
    } else if s == "hidden"@ {
        Some(CssLineStyle::Hidden)
    } else if s == "dotted"@ {
        Some(CssLineStyle::Dotted)
    } else if s == "dashed"@ {
        Some(CssLineStyle::Dashed)
    } else if s == "solid"@ {
        Some(CssLineStyle::Solid)
    } else if s == "double"@ {
        Some(CssLineStyle::Double)
    } else if s == "groove"@ {
        Some(CssLineStyle::Groove)
    } else if s == "ridge"@ {
        Some(CssLineStyle::Ridge)
    } else if s == "inset"@ {
        Some(CssLineStyle::Inset)
    } else if s == "outset"@ {
        Some(CssLineStyle::Outset)
    } else {
        None
    }
}

/// The keyword that writes a line style in CSS
/// ([CSS Backgrounds 3 § 4.2](https://drafts.csswg.org/css-backgrounds/#typedef-line-style)).
pub open spec fn line_style_name(l: CssLineStyle) -> Seq<char> {
    match l {
        CssLineStyle::NoStyle => "none"@,
        CssLineStyle::Hidden => "hidden"@,
        CssLineStyle::Dotted => "dotted"@,
        CssLineStyle::Dashed => "dashed"@,
        CssLineStyle::Solid => "solid"@,
        CssLineStyle::Double => "double"@,
        CssLineStyle::Groove => "groove"@,
        CssLineStyle::Ridge => "ridge"@,
        CssLineStyle::Inset => "inset"@,
        CssLineStyle::Outset => "outset"@,
    }
}

/// Each line style is read from its own keyword, and a keyword that reads
/// as a line style is that style's keyword: the keyword table is the
/// inverse of the naming of the styles, so no two keywords give the same
/// style and every style can be written.
pub proof fn line_style_keywords_name_their_styles(l: CssLineStyle, s: Seq<char>)
    ensures
        line_style_keyword(line_style_name(l)) == Some(l),
        line_style_keyword(s) == Some(l) ==> s == line_style_name(l),
{
    reveal_strlit("none");
    reveal_strlit("hidden");
    reveal_strlit("dotted");
    reveal_strlit("dashed");
    reveal_strlit("solid");
    reveal_strlit("double");
    reveal_strlit("groove");
    reveal_strlit("ridge");
    reveal_strlit("inset");
    reveal_strlit("outset");
    match l {
        CssLineStyle::NoStyle => {
        },
        CssLineStyle::Hidden => {
            assert("hidden"@.len() != "none"@.len());
        },
        CssLineStyle::Dotted => {
            assert("dotted"@.len() != "none"@.len());
            assert("dotted"@[0] != "hidden"@[0]);
        },
        CssLineStyle::Dashed => {
            assert("dashed"@.len() != "none"@.len());
            assert("dashed"@[0] != "hidden"@[0]);
            assert("dashed"@[1] != "dotted"@[1]);
        },
        CssLineStyle::Solid => {
            assert("solid"@.len() != "none"@.len());
            assert("solid"@.len() != "hidden"@.len());
            assert("solid"@.len() != "dotted"@.len());
            assert("solid"@.len() != "dashed"@.len());
        },
        CssLineStyle::Double => {
            assert("double"@.len() != "none"@.len());
            assert("double"@[0] != "hidden"@[0]);
            assert("double"@[2] != "dotted"@[2]);
            assert("double"@[1] != "dashed"@[1]);
            assert("double"@.len() != "solid"@.len());
        },
        CssLineStyle::Groove => {
            assert("groove"@.len() != "none"@.len());
            assert("groove"@[0] != "hidden"@[0]);
            assert("groove"@[0] != "dotted"@[0]);
            assert("groove"@[0] != "dashed"@[0]);
            assert("groove"@.len() != "solid"@.len());
            assert("groove"@[0] != "double"@[0]);
        },
        CssLineStyle::Ridge => {
            assert("ridge"@.len() != "none"@.len());
            assert("ridge"@.len() != "hidden"@.len());
            assert("ridge"@.len() != "dotted"@.len());
            assert("ridge"@.len() != "dashed"@.len());
            assert("ridge"@[0] != "solid"@[0]);
            assert("ridge"@.len() != "double"@.len());
            assert("ridge"@.len() != "groove"@.len());
        },
        CssLineStyle::Inset => {
            assert("inset"@.len() != "none"@.len());
            assert("inset"@.len() != "hidden"@.len());
            assert("inset"@.len() != "dotted"@.len());
            assert("inset"@.len() != "dashed"@.len());
            assert("inset"@[0] != "solid"@[0]);
            assert("inset"@.len() != "double"@.len());
            assert("inset"@.len() != "groove"@.len());
            assert("inset"@[0] != "ridge"@[0]);
        },
        CssLineStyle::Outset => {
            assert("outset"@.len() != "none"@.len());
            assert("outset"@[0] != "hidden"@[0]);
            assert("outset"@[0] != "dotted"@[0]);
            assert("outset"@[0] != "dashed"@[0]);
            assert("outset"@.len() != "solid"@.len());
            assert("outset"@[0] != "double"@[0]);
            assert("outset"@[0] != "groove"@[0]);
            assert("outset"@.len() != "ridge"@.len());
            assert("outset"@.len() != "inset"@.len());
        },
    }
}

/// The line style that `s` names.
pub fn line_style_from_str(s: &str) -> (r: Option<CssLineStyle>)
    ensures
        r == line_style_keyword(s@),
{
    if str_eq(s, "none") {
        Some(CssLineStyle::NoStyle)
    } else if str_eq(s, "hidden") {
        Some(CssLineStyle::Hidden)
    } else if str_eq(s, "dotted") {
        Some(CssLineStyle::Dotted)
    } else if str_eq(s, "dashed") {
        Some(CssLineStyle::Dashed)
    } else if str_eq(s, "solid") {
        Some(CssLineStyle::Solid)
    } else if str_eq(s, "double") {
        Some(CssLineStyle::Double)
    } else if str_eq(s, "groove") {
        Some(CssLineStyle::Groove)
    } else if str_eq(s, "ridge") {
        Some(CssLineStyle::Ridge)
    } else if str_eq(s, "inset") {
        Some(CssLineStyle::Inset)
    } else if str_eq(s, "outset") {
        Some(CssLineStyle::Outset)
    } else {
        None
    }
}

pub open spec fn line_style_at(ts: Seq<SpannedToken>, i: usize, stop: usize) -> Result<(CssLineStyle, usize), ParseError> {
    match nxt(ts, i, stop) {
        None => Err(custom(RetinaStyleParseError::LineStyleUnknownKeyword)),
        Some((CssToken::Ident(s), _, a)) => match line_style_keyword(s@) {
            Some(l) => Ok((l, a)),
            None => Err(custom(RetinaStyleParseError::LineStyleUnknownKeyword)),
        },
        Some(_) => Err(custom(RetinaStyleParseError::LineStyleExpectedKeyword)),
    }
}

/// Reads a line style.
pub fn parse_line_style(ts: &Vec<SpannedToken>, i: usize, stop: usize) -> (r: Result<(CssLineStyle, usize), ParseError>)
    requires
        in_range(ts@, i, stop),
    ensures
        r == line_style_at(ts@, i, stop),
        r matches Ok((_, a)) ==> i < a <= stop,
{
    match next_sig(ts, i, stop) {
        None => Err(ParseError::Custom(RetinaStyleParseError::LineStyleUnknownKeyword)),
        Some((CssToken::Ident(s), _, a)) => match line_style_from_str(s.as_str()) {
            Some(l) => Ok((l, a)),
            None => Err(ParseError::Custom(RetinaStyleParseError::LineStyleUnknownKeyword)),
        },
        Some(_) => Err(ParseError::Custom(RetinaStyleParseError::LineStyleExpectedKeyword)),
    }
}

/// The `white-space` keywords, in any ASCII case.
pub open spec fn white_space_keyword(s: Seq<char>) -> Option<CssWhiteSpace> {
    if keyword_is(s, "normal"@) {
        Some(CssWhiteSpace::Normal)
    } else if keyword_is(s, "pre"@) {
        Some(CssWhiteSpace::Pre)
    } else if keyword_is(s, "nowrap"@) {
        Some(CssWhiteSpace::Nowrap)
    } else if keyword_is(s, "pre-wrap"@) {
        Some(CssWhiteSpace::PreWrap)
    } else if keyword_is(s, "break-spaces"@) {
        Some(CssWhiteSpace::BreakSpaces)
    } else if keyword_is(s, "pre-line"@) {
        Some(CssWhiteSpace::PreLine)
    } else {
        None
    }
}

pub open spec fn white_space_at(ts: Seq<SpannedToken>, i: usize, stop: usize) -> Result<(CssWhiteSpace, usize), ParseError> {
    match nxt(ts, i, stop) {
        None => Err(custom(RetinaStyleParseError::UnexpectedEofBasicColorKeyword)),
        Some((CssToken::Ident(s), _, a)) => match white_space_keyword(s@) {
            Some(w) => Ok((w, a)),
            None => Err(custom(RetinaStyleParseError::UnknownWhiteSpaceKeyword)),
        },
        Some(_) => Err(custom(RetinaStyleParseError::ExpectedIdentifierAsPropertyValue)),
    }
}

/// Reads a `white-space` value.
pub fn parse_white_space(ts: &Vec<SpannedToken>, i: usize, stop: usize) -> (r: Result<(CssWhiteSpace, usize), ParseError>)
    requires
        in_range(ts@, i, stop),
    ensures
        r == white_space_at(ts@, i, stop),
        r matches Ok((_, a)) ==> i < a <= stop,
{
    match next_sig(ts, i, stop) {
        None => Err(ParseError::Custom(RetinaStyleParseError::UnexpectedEofBasicColorKeyword)),
        Some((CssToken::Ident(s), _, a)) => {
            let k = s.as_str();
            if str_eq_ignore_ascii_case(k, "normal") {
                Ok((CssWhiteSpace::Normal, a))
            } else if str_eq_ignore_ascii_case(k, "pre") {
                Ok((CssWhiteSpace::Pre, a))
            } else if str_eq_ignore_ascii_case(k, "nowrap") {
                Ok((CssWhiteSpace::Nowrap, a))
            } else if str_eq_ignore_ascii_case(k, "pre-wrap") {
                Ok((CssWhiteSpace::PreWrap, a))
            } else if str_eq_ignore_ascii_case(k, "break-spaces") {
                Ok((CssWhiteSpace::BreakSpaces, a))
            } else if str_eq_ignore_ascii_case(k, "pre-line") {
                Ok((CssWhiteSpace::PreLine, a))
            } else {
                Err(ParseError::Custom(RetinaStyleParseError::UnknownWhiteSpaceKeyword))
            }
        },
        Some(_) => Err(ParseError::Custom(RetinaStyleParseError::ExpectedIdentifierAsPropertyValue)),
    }
}

/// A parse result with its error as the contracts see it.
pub open spec fn seen<T>(r: Result<(T, usize), ParseError>) -> Result<(T, usize), ParseErrorView> {
    match r {
        Ok(x) => Ok(x),
        Err(e) => Err(e@),
    }
}

/// The font family that a token names: a generic family for its keyword,
/// else the identifier or string itself.
pub open spec fn family_name(t: CssToken) -> Option<CssFontFamilyName> {
    match t {
        CssToken::Ident(s) => Some(
            match generic_family_keyword(s@) {
                Some(g) => CssFontFamilyName::Generic(g),
                None => CssFontFamilyName::Name(s),
            },
        ),
        CssToken::QuotedString(s) => Some(CssFontFamilyName::Name(s)),
        _ => None,
    }
}

/// A comma-separated list of font families from `i` on, after the families
/// `acc` already read.
pub open spec fn families_from(ts: Seq<SpannedToken>, i: usize, stop: usize, acc: Seq<CssFontFamilyName>) -> Result<
    (Seq<CssFontFamilyName>, usize),
    ParseError,
>
    decreases stop - i,
{
    if !in_range(ts, i, stop) || exhausted(ts, i as int, stop as int) {
        Ok((acc, i))
    } else {
        match nxt(ts, i, stop) {
            None => Ok((acc, i)),
            Some((t, _, a)) => match family_name(t) {
                None => Err(ParseError::Basic(BasicParseErrorKind::UnexpectedToken(t))),
                Some(f) => if exhausted(ts, a as int, stop as int) {
                    Ok((acc.push(f), a))
                } else {
                    match nxt(ts, a, stop) {
                        Some((CssToken::Comma, _, b)) => if i < b <= stop {
                            families_from(ts, b, stop, acc.push(f))
                        } else {
                            Ok((acc.push(f), b))
                        },
                        _ => Err(unexpected_at(ts, a, stop)),
                    }
                },
            },
        }
    }
}

pub open spec fn families_at(ts: Seq<SpannedToken>, i: usize, stop: usize) -> Result<(Seq<CssFontFamilyName>, usize), ParseError> {
    families_from(ts, i, stop, Seq::empty())
}

/// Reads a comma-separated list of font families.
pub fn parse_font_families(ts: &Vec<SpannedToken>, i: usize, stop: usize) -> (r: Result<(Vec<CssFontFamilyName>, usize), ParseError>)
    requires
        in_range(ts@, i, stop),
    ensures
        outcome(r) == seen(families_at(ts@, i, stop)),
        r matches Ok((_, a)) ==> i <= a <= stop,
{
    let mut families: Vec<CssFontFamilyName> = Vec::new();
    let mut pos = i;
    loop
        invariant
            in_range(ts@, pos, stop),
            i <= pos,
            families_at(ts@, i, stop) == families_from(ts@, pos, stop, families@),
        decreases stop - pos,
    {
        if is_exhausted(ts, pos, stop) {
            return Ok((families, pos));
        }
        match next_sig(ts, pos, stop) {
            None => {
                return Ok((families, pos));
            },
            Some((t, _, a)) => {
                let f = match t {
                    CssToken::Ident(s) => match generic_family(s.as_str()) {
                        Some(g) => CssFontFamilyName::Generic(g),
                        None => CssFontFamilyName::Name(s.clone()),
                    },
                    CssToken::QuotedString(s) => CssFontFamilyName::Name(s.clone()),
                    _ => {
                        return Err(ParseError::Basic(BasicParseErrorKind::UnexpectedToken(clone_token(t))));
                    },
                };
                families.push(f);
                if is_exhausted(ts, a, stop) {
                    return Ok((families, a));
                }
                match next_sig(ts, a, stop) {
                    Some((CssToken::Comma, _, b)) => {
                        pos = b;
                    },
                    _ => {
                        return Err(unexpected_here(ts, a, stop));
                    },
                }
            },
        }
    }
}

/// The `font` shorthand: a size, an optional `/` and line height, and the
/// font families.
pub open spec fn font_shorthand_at(ts: Seq<SpannedToken>, i: usize, stop: usize) -> Result<(ValueView, usize), ParseErrorView> {
    match length_at(ts, i, stop) {
        Err(e) => Err(e@),
        Ok((size, k)) => {
            let (line_height, k2) = match shorthand_line_height_at(ts, k, stop) {
                Ok((l, k2)) => (Some(l), k2),
                Err(_) => (None, k),
            };
            match families_at(ts, k2, stop) {
                Err(e) => Err(e@),
                Ok((families, k3)) => Ok(
                    (ValueView::FontShorthand { families, style: None, size, line_height, weight: None }, k3),
                ),
            }
        },
    }
}

/// Reads a `font` shorthand.
pub fn parse_font_shorthand(ts: &Vec<SpannedToken>, i: usize, stop: usize) -> (r: Result<(Value, usize), ParseError>)
    requires
        in_range(ts@, i, stop),
    ensures
        outcome(r) == font_shorthand_at(ts@, i, stop),
        r matches Ok((_, a)) ==> i <= a <= stop,
{
    let (size, k) = match parse_length(ts, i, stop) {
        Ok(x) => x,
        Err(e) => {
            return Err(e);
        },
    };
    let (line_height, k2) = match parse_font_shorthand_line_height(ts, k, stop) {
        Ok((l, k2)) => (Some(l), k2),
        Err(_) => (None, k),
    };
    match parse_font_families(ts, k2, stop) {
        Err(e) => Err(e),
        Ok((families, k3)) => Ok(
            (Value::FontShorthand(CssFontShorthand { families, style: None, size, line_height, weight: None }), k3),
        ),
    }
}

/// What the colour parser makes of the component value that starts with
/// token `j` and ends before index `a`.
pub open spec fn component_color(src: Seq<char>, ts: Seq<SpannedToken>, j: usize, a: usize) -> ColorParse {
    css_color_component(src, ts[j as int].start, ts[a - 1].end)
}

/// The value that a single component reads as when it is no colour: a
/// `display` keyword, a length, a line style or a `white-space` keyword,
/// tried in that order.
pub open spec fn non_color_value_at(ts: Seq<SpannedToken>, i: usize, stop: usize) -> Result<(Value, usize), ParseError> {
    match display_at(ts, i, stop) {
        Ok((d, a)) => Ok((Value::Display(d), a)),
        Err(_) => match length_at(ts, i, stop) {
            Ok((l, a)) => Ok((Value::Length(l), a)),
            Err(_) => match line_style_at(ts, i, stop) {
                Ok((l, a)) => Ok((Value::LineStyle(l), a)),
                Err(_) => match white_space_at(ts, i, stop) {
                    Ok((w, a)) => Ok((Value::WhiteSpace(w), a)),
                    Err(_) => Err(
                        custom(
                            RetinaStyleParseError::UnknownValue(
                                match nxt(ts, i, stop) {
                                    Some((t, _, _)) => Some(t),
                                    None => None,
                                },
                            ),
                        ),
                    ),
                },
            },
        },
    }
}

/// A single component value: a colour when the colour parser takes the
/// next component (an error when it is a colour that the engine does not
/// keep), else as `non_color_value_at` reads it.
pub open spec fn single_value_at(src: Seq<char>, ts: Seq<SpannedToken>, i: usize, stop: usize) -> Result<(Value, usize), ParseError> {
    match nxt(ts, i, stop) {
        Some((_, j, a)) => {
            let c = component_color(src, ts, j, a);
            if c is Invalid {
                non_color_value_at(ts, i, stop)
            } else {
                match converted_color(c) {
                    Some(color) => Ok((Value::Color(color), a)),
                    None => Err(custom(RetinaStyleParseError::ColorUnknownValue)),
                }
            }
        },
        None => non_color_value_at(ts, i, stop),
    }
}

/// The token spans lie in the text, and the positions in the tokens.
pub open spec fn well_placed(src: Seq<char>, ts: Seq<SpannedToken>, i: usize, stop: usize) -> bool {
    spans_in(src, ts) && in_range(ts, i, stop)
}

fn parse_non_color_value(ts: &Vec<SpannedToken>, i: usize, stop: usize) -> (r: Result<(Value, usize), ParseError>)
    requires
        in_range(ts@, i, stop),
    ensures
        r == non_color_value_at(ts@, i, stop),
        r matches Ok((_, a)) ==> i < a <= stop,
{
    if let Ok((d, a)) = parse_display(ts, i, stop) {
        return Ok((Value::Display(d), a));
    }
    if let Ok((l, a)) = parse_length(ts, i, stop) {
        return Ok((Value::Length(l), a));
    }
    if let Ok((l, a)) = parse_line_style(ts, i, stop) {
        return Ok((Value::LineStyle(l), a));
    }
    if let Ok((w, a)) = parse_white_space(ts, i, stop) {
        return Ok((Value::WhiteSpace(w), a));
    }
    let token = match next_sig(ts, i, stop) {
        Some((t, _, _)) => Some(clone_token(t)),
        None => None,
    };
    Err(ParseError::Custom(RetinaStyleParseError::UnknownValue(token)))
}

/// Reads a single component value.
pub fn parse_single_value(src: &str, ts: &Vec<SpannedToken>, i: usize, stop: usize) -> (r: Result<(Value, usize), ParseError>)
    requires
        well_placed(src@, ts@, i, stop),
    ensures
        r == single_value_at(src@, ts@, i, stop),
        r matches Ok((_, a)) ==> i < a <= stop,
{
    match next_sig(ts, i, stop) {
        Some((_, j, a)) => {
            let start = ts[j].start;
            let end = ts[a - 1].end;
            proof {
                if j < a - 1 {
                    assert(ts@[j as int].end <= ts@[a - 1].start);
                }
            }
            let c = parse_color_component(src, start, end);
            match c {
                ColorParse::Invalid => parse_non_color_value(ts, i, stop),
                _ => match convert_color(c) {
                    Some(color) => Ok((Value::Color(color), a)),
                    None => Err(ParseError::Custom(RetinaStyleParseError::ColorUnknownValue)),
                },
            }
        },
        None => parse_non_color_value(ts, i, stop),
    }
}

/// Component values from `k` on to the end, after the values `acc`.
pub open spec fn values_from(src: Seq<char>, ts: Seq<SpannedToken>, k: usize, stop: usize, acc: Seq<Value>) -> Result<
    (Seq<Value>, usize),
    ParseError,
>
    decreases stop - k,
{
    if !in_range(ts, k, stop) || exhausted(ts, k as int, stop as int) {
        Ok((acc, k))
    } else {
        match single_value_at(src, ts, k, stop) {
            Err(e) => Err(e),
            Ok((v, k2)) => if k < k2 <= stop {
                values_from(src, ts, k2, stop, acc.push(v))
            } else {
                Ok((acc.push(v), k2))
            },
        }
    }
}

pub open spec fn length_of(v: Value) -> Option<CssLength> {
    match v {
        Value::Length(l) => Some(l),
        _ => None,
    }
}

pub open spec fn color_of(v: Value) -> Option<CssColor> {
    match v {
        Value::Color(c) => Some(c),
        _ => None,
    }
}

pub open spec fn line_style_of(v: Value) -> Option<CssLineStyle> {
    match v {
        Value::LineStyle(l) => Some(l),
        _ => None,
    }
}

/// The shorthand value that a list of components makes: a border from a
/// width, style and colour in that order (the width or the colour may be
/// left out, not both), or two to four colours, or two to four lengths.
pub open spec fn combine(vs: Seq<Value>) -> Option<Value> {
    if vs.len() == 2 {
        match (length_of(vs[0]), line_style_of(vs[1])) {
            (Some(w), Some(s)) => Some(Value::BorderLonghand(CssBorderLonghand { width: Some(w), style: Some(s), color: None })),
            _ => match (line_style_of(vs[0]), color_of(vs[1])) {
                (Some(s), Some(c)) => Some(Value::BorderLonghand(CssBorderLonghand { width: None, style: Some(s), color: Some(c) })),
                _ => match (color_of(vs[0]), color_of(vs[1])) {
                    (Some(a), Some(b)) => Some(Value::ComponentList(ValueComponentList::TwoColors(a, b))),
                    _ => match (length_of(vs[0]), length_of(vs[1])) {
                        (Some(a), Some(b)) => Some(Value::ComponentList(ValueComponentList::TwoLengths(a, b))),
                        _ => None,
                    },
                },
            },
        }
    } else if vs.len() == 3 {
        match (length_of(vs[0]), line_style_of(vs[1]), color_of(vs[2])) {
            (Some(w), Some(s), Some(c)) => Some(
                Value::BorderLonghand(CssBorderLonghand { width: Some(w), style: Some(s), color: Some(c) }),
            ),
            _ => match (color_of(vs[0]), color_of(vs[1]), color_of(vs[2])) {
                (Some(a), Some(b), Some(c)) => Some(Value::ComponentList(ValueComponentList::ThreeColors(a, b, c))),
                _ => match (length_of(vs[0]), length_of(vs[1]), length_of(vs[2])) {
                    (Some(a), Some(b), Some(c)) => Some(Value::ComponentList(ValueComponentList::ThreeLengths(a, b, c))),
                    _ => None,
                },
            },
        }
    } else if vs.len() == 4 {
        match (color_of(vs[0]), color_of(vs[1]), color_of(vs[2]), color_of(vs[3])) {
            (Some(a), Some(b), Some(c), Some(d)) => Some(Value::ComponentList(ValueComponentList::FourColors(a, b, c, d))),
            _ => match (length_of(vs[0]), length_of(vs[1]), length_of(vs[2]), length_of(vs[3])) {
                (Some(a), Some(b), Some(c), Some(d)) => Some(
                    Value::ComponentList(ValueComponentList::FourLengths(a, b, c, d)),
                ),
                _ => None,
            },
        }
    } else {
        None
    }
}

fn value_length(v: &Value) -> (r: Option<CssLength>)
    ensures
        r == length_of(*v),
{
    match v {
        Value::Length(l) => Some(*l),
        _ => None,
    }
}

fn value_color(v: &Value) -> (r: Option<CssColor>)
    ensures
        r == color_of(*v),
{
    match v {
        Value::Color(c) => Some(*c),
        _ => None,
    }
}

fn value_line_style(v: &Value) -> (r: Option<CssLineStyle>)
    ensures
        r == line_style_of(*v),
{
    match v {
        Value::LineStyle(l) => Some(*l),
        _ => None,
    }
}

/// The shorthand value that a list of components makes.
pub fn combine_values(vs: &Vec<Value>) -> (r: Option<Value>)
    ensures
        r == combine(vs@),
{
    if vs.len() == 2 {
        match (value_length(&vs[0]), value_line_style(&vs[1])) {
            (Some(w), Some(s)) => Some(Value::BorderLonghand(CssBorderLonghand { width: Some(w), style: Some(s), color: None })),
            _ => match (value_line_style(&vs[0]), value_color(&vs[1])) {
                (Some(s), Some(c)) => Some(Value::BorderLonghand(CssBorderLonghand { width: None, style: Some(s), color: Some(c) })),
                _ => match (value_color(&vs[0]), value_color(&vs[1])) {
                    (Some(a), Some(b)) => Some(Value::ComponentList(ValueComponentList::TwoColors(a, b))),
                    _ => match (value_length(&vs[0]), value_length(&vs[1])) {
                        (Some(a), Some(b)) => Some(Value::ComponentList(ValueComponentList::TwoLengths(a, b))),
                        _ => None,
                    },
                },
            },
        }
    } else if vs.len() == 3 {
        match (value_length(&vs[0]), value_line_style(&vs[1]), value_color(&vs[2])) {
            (Some(w), Some(s), Some(c)) => Some(
                Value::BorderLonghand(CssBorderLonghand { width: Some(w), style: Some(s), color: Some(c) }),
            ),
            _ => match (value_color(&vs[0]), value_color(&vs[1]), value_color(&vs[2])) {
                (Some(a), Some(b), Some(c)) => Some(Value::ComponentList(ValueComponentList::ThreeColors(a, b, c))),
                _ => match (value_length(&vs[0]), value_length(&vs[1]), value_length(&vs[2])) {
                    (Some(a), Some(b), Some(c)) => Some(Value::ComponentList(ValueComponentList::ThreeLengths(a, b, c))),
                    _ => None,
                },
            },
        }
    } else if vs.len() == 4 {
        match (value_color(&vs[0]), value_color(&vs[1]), value_color(&vs[2]), value_color(&vs[3])) {
            (Some(a), Some(b), Some(c), Some(d)) => Some(Value::ComponentList(ValueComponentList::FourColors(a, b, c, d))),
            _ => match (value_length(&vs[0]), value_length(&vs[1]), value_length(&vs[2]), value_length(&vs[3])) {
                (Some(a), Some(b), Some(c), Some(d)) => Some(
                    Value::ComponentList(ValueComponentList::FourLengths(a, b, c, d)),
                ),
                _ => None,
            },
        }
    } else {
        None
    }
}

/// The value of a declaration of `property`: the properties with a grammar
/// of their own (`float`, `font`, `font-family`, `font-style`) read it;
/// every other property takes one component value, or a list of them that
/// `combine` makes into one.
pub open spec fn value_at(src: Seq<char>, ts: Seq<SpannedToken>, i: usize, stop: usize, property: Property) -> Result<
    (ValueView, usize),
    ParseErrorView,
> {
    match property {
        Property::Float => match float_at(ts, i, stop) {
            Ok((f, a)) => Ok((ValueView::Plain(Value::Float(f)), a)),
            Err(e) => Err(e@),
        },
        Property::Font => font_shorthand_at(ts, i, stop),
        Property::FontFamily => match families_at(ts, i, stop) {
            Ok((f, a)) => Ok((ValueView::FontFamily(f), a)),
            Err(e) => Err(e@),
        },
        Property::FontStyle => match font_style_at(ts, i, stop) {
            Ok((f, a)) => Ok((ValueView::Plain(Value::FontStyle(f)), a)),
            Err(e) => Err(e@),
        },
        _ => component_value_at(src, ts, i, stop),
    }
}

/// One component value, or a list of them that `combine` makes into one.
pub open spec fn component_value_at(src: Seq<char>, ts: Seq<SpannedToken>, i: usize, stop: usize) -> Result<
    (ValueView, usize),
    ParseErrorView,
> {
    match single_value_at(src, ts, i, stop) {
        Err(e) => Err(e@),
        Ok((v, k)) => if exhausted(ts, k as int, stop as int) {
            Ok((v@, k))
        } else {
            match values_from(src, ts, k, stop, seq![v]) {
                Err(e) => Err(e@),
                Ok((vs, k2)) => match combine(vs) {
                    Some(c) => Ok((c@, k2)),
                    None => Err(ParseErrorView::UnknownKinds(vs)),
                },
            }
        },
    }
}

/// Reads the value of a declaration of `property`.
pub fn parse_value(src: &str, ts: &Vec<SpannedToken>, i: usize, stop: usize, property: Property) -> (r: Result<
    (Value, usize),
    ParseError,
>)
    requires
        well_placed(src@, ts@, i, stop),
    ensures
        outcome(r) == value_at(src@, ts@, i, stop, property),
        r matches Ok((_, a)) ==> i <= a <= stop,
{
    match property {
        Property::Float => {
            return match parse_float(ts, i, stop) {
                Ok((f, a)) => Ok((Value::Float(f), a)),
                Err(e) => Err(e),
            };
        },
        Property::Font => {
            return parse_font_shorthand(ts, i, stop);
        },
        Property::FontFamily => {
            return match parse_font_families(ts, i, stop) {
                Ok((f, a)) => Ok((Value::FontFamily(f), a)),
                Err(e) => Err(e),
            };
        },
        Property::FontStyle => {
            return match parse_font_style(ts, i, stop) {
                Ok((f, a)) => Ok((Value::FontStyle(f), a)),
                Err(e) => Err(e),
            };
        },
        _ => {},
    }
    parse_component_value(src, ts, i, stop)
}

/// Reads one component value, or a list of them that make one.
fn parse_component_value(src: &str, ts: &Vec<SpannedToken>, i: usize, stop: usize) -> (r: Result<(Value, usize), ParseError>)
    requires
        well_placed(src@, ts@, i, stop),
    ensures
        outcome(r) == component_value_at(src@, ts@, i, stop),
        r matches Ok((_, a)) ==> i <= a <= stop,
{
    let (v, k) = match parse_single_value(src, ts, i, stop) {
        Ok(x) => x,
        Err(e) => {
            return Err(e);
        },
    };
    if is_exhausted(ts, k, stop) {
        return Ok((v, k));
    }
    let mut values: Vec<Value> = Vec::new();
    values.push(v);
    proof {
        assert(values@ =~= seq![v]);
    }
    let (values, pos) = match parse_values_from(src, ts, k, stop, values) {
        Ok(x) => x,
        Err(e) => {
            return Err(e);
        },
    };
    match combine_values(&values) {
        Some(c) => Ok((c, pos)),
        None => Err(ParseError::Custom(RetinaStyleParseError::ComponentListUnknownKinds(values))),
    }
}

/// Reads component values up to the end, after the values already read.
fn parse_values_from(src: &str, ts: &Vec<SpannedToken>, k: usize, stop: usize, acc: Vec<Value>) -> (r: Result<
    (Vec<Value>, usize),
    ParseError,
>)
    requires
        well_placed(src@, ts@, k, stop),
    ensures
        match (r, values_from(src@, ts@, k, stop, acc@)) {
            (Ok((vs, a)), Ok((s, b))) => vs@ == s && a == b,
            (Err(e), Err(f)) => e == f,
            _ => false,
        },
        r matches Ok((_, a)) ==> k <= a <= stop,
{
    let mut values = acc;
    let mut pos = k;
    loop
        invariant
            well_placed(src@, ts@, pos, stop),
            k <= pos,
            values_from(src@, ts@, k, stop, acc@) == values_from(src@, ts@, pos, stop, values@),
        decreases stop - pos,
    {
        if is_exhausted(ts, pos, stop) {
            return Ok((values, pos));
        }
        match parse_single_value(src, ts, pos, stop) {
            Ok((w, a)) => {
                values.push(w);
                pos = a;
            },
            Err(e) => {
                return Err(e);
            },
        }
    }
}

/// The keywords of `float`, `font-style`, `white-space` and the generic
/// font families are matched without regard to ASCII case.
pub proof fn value_keywords_ignore_ascii_case(a: Seq<char>, b: Seq<char>)
    requires
        lower_bytes(bytes_of(a)) == lower_bytes(bytes_of(b)),
    ensures
        float_keyword(a) == float_keyword(b),
        font_style_keyword(a) == font_style_keyword(b),
        white_space_keyword(a) == white_space_keyword(b),
        generic_family_keyword(a) == generic_family_keyword(b),
{
}

} // verus!
