//! Declarations: property names, the values that declarations give them,
//! and the parsers of declaration values.

use vstd::prelude::*;

use crate::error::{BasicParseErrorKind, ParseError, ParseErrorView, outcome};
use crate::dom::bytes_of;
use crate::selector_match::str_eq_ignore_ascii_case;
use crate::text::lower_bytes;
use crate::style::{CssColor, CssLength, Declaration, Property, ValueView};
use crate::syntax::{clone_token, exhausted, is_exhausted};
use crate::tokenizer::{SpannedToken, spans_in, tokenize, tokens_of};
use crate::util::{ColorParse, convert_color, converted_color, parse_color_component};
use crate::values::{
    component_color, in_range, keyword_is, length_at, next_sig, nxt, parse_length, parse_value, unexpected_at,
    value_at, well_placed,
};

verus! {

/// The property that a name stands for, in any ASCII case.
pub open spec fn property_named(s: Seq<char>) -> Option<Property> {
    if keyword_is(s, "background-color"@) {
        Some(Property::BackgroundColor)
    } else if keyword_is(s, "border"@) {
        Some(Property::Border)
    } else if keyword_is(s, "border-bottom"@) {
        Some(Property::BorderBottom)
    } else if keyword_is(s, "border-bottom-color"@) {
        Some(Property::BorderBottomColor)
    } else if keyword_is(s, "border-bottom-style"@) {
        Some(Property::BorderBottomStyle)
    } else if keyword_is(s, "border-bottom-width"@) {
        Some(Property::BorderBottomWidth)
    } else if keyword_is(s, "border-color"@) {
        Some(Property::BorderColor)
    } else if keyword_is(s, "border-left"@) {
        Some(Property::BorderLeft)
    } else if keyword_is(s, "border-left-color"@) {
        Some(Property::BorderLeftColor)
    } else if keyword_is(s, "border-left-style"@) {
        Some(Property::BorderLeftStyle)
    } else if keyword_is(s, "border-left-width"@) {
        Some(Property::BorderLeftWidth)
    } else if keyword_is(s, "border-right"@) {
        Some(Property::BorderRight)
    } else if keyword_is(s, "border-right-color"@) {
        Some(Property::BorderRightColor)
    } else if keyword_is(s, "border-right-style"@) {
        Some(Property::BorderRightStyle)
    } else if keyword_is(s, "border-right-width"@) {
        Some(Property::BorderRightWidth)
    } else if keyword_is(s, "border-style"@) {
        Some(Property::BorderStyle)
    } else if keyword_is(s, "border-top"@) {
        Some(Property::BorderTop)
    } else if keyword_is(s, "border-top-color"@) {
        Some(Property::BorderTopColor)
    } else if keyword_is(s, "border-top-style"@) {
        Some(Property::BorderTopStyle)
    } else if keyword_is(s, "border-top-width"@) {
        Some(Property::BorderTopWidth)
    } else if keyword_is(s, "border-width"@) {
        Some(Property::BorderWidth)
    } else if keyword_is(s, "color"@) {
        Some(Property::Color)
    } else if keyword_is(s, "display"@) {
        Some(Property::Display)
    } else if keyword_is(s, "float"@) {
        Some(Property::Float)
    } else if keyword_is(s, "font"@) {
        Some(Property::Font)
    } else if keyword_is(s, "font-family"@) {
        Some(Property::FontFamily)
    } else if keyword_is(s, "font-size"@) {
        Some(Property::FontSize)
    } else if keyword_is(s, "font-style"@) {
        Some(Property::FontStyle)
    } else if keyword_is(s, "height"@) {
        Some(Property::Height)
    } else if keyword_is(s, "white-space"@) {
        Some(Property::WhiteSpace)
    } else if keyword_is(s, "width"@) {
        Some(Property::Width)
    } else {
        None
    }
}

impl Property {
    /// The property that `name` stands for, in any ASCII case.
    pub fn parse(name: &str) -> (r: Option<Property>)
        ensures
            r == property_named(name@),
    {
        if str_eq_ignore_ascii_case(name, "background-color") {
            Some(Property::BackgroundColor)
        } else if str_eq_ignore_ascii_case(name, "border") {
            Some(Property::Border)
        } else if str_eq_ignore_ascii_case(name, "border-bottom") {
            Some(Property::BorderBottom)
        } else if str_eq_ignore_ascii_case(name, "border-bottom-color") {
            Some(Property::BorderBottomColor)
        } else if str_eq_ignore_ascii_case(name, "border-bottom-style") {
            Some(Property::BorderBottomStyle)
        } else if str_eq_ignore_ascii_case(name, "border-bottom-width") {
            Some(Property::BorderBottomWidth)
        } else if str_eq_ignore_ascii_case(name, "border-color") {
            Some(Property::BorderColor)
        } else if str_eq_ignore_ascii_case(name, "border-left") {
            Some(Property::BorderLeft)
        } else if str_eq_ignore_ascii_case(name, "border-left-color") {
            Some(Property::BorderLeftColor)
        } else if str_eq_ignore_ascii_case(name, "border-left-style") {
            Some(Property::BorderLeftStyle)
        } else if str_eq_ignore_ascii_case(name, "border-left-width") {
            Some(Property::BorderLeftWidth)
        } else if str_eq_ignore_ascii_case(name, "border-right") {
            Some(Property::BorderRight)
        } else if str_eq_ignore_ascii_case(name, "border-right-color") {
            Some(Property::BorderRightColor)
        } else if str_eq_ignore_ascii_case(name, "border-right-style") {
            Some(Property::BorderRightStyle)
        } else if str_eq_ignore_ascii_case(name, "border-right-width") {
            Some(Property::BorderRightWidth)
        } else if str_eq_ignore_ascii_case(name, "border-style") {
            Some(Property::BorderStyle)
        } else if str_eq_ignore_ascii_case(name, "border-top") {
            Some(Property::BorderTop)
        } else if str_eq_ignore_ascii_case(name, "border-top-color") {
            Some(Property::BorderTopColor)
        } else if str_eq_ignore_ascii_case(name, "border-top-style") {
            Some(Property::BorderTopStyle)
        } else if str_eq_ignore_ascii_case(name, "border-top-width") {
            Some(Property::BorderTopWidth)
        } else if str_eq_ignore_ascii_case(name, "border-width") {
            Some(Property::BorderWidth)
        } else if str_eq_ignore_ascii_case(name, "color") {
            Some(Property::Color)
        } else if str_eq_ignore_ascii_case(name, "display") {
            Some(Property::Display)
        } else if str_eq_ignore_ascii_case(name, "float") {
            Some(Property::Float)
        } else if str_eq_ignore_ascii_case(name, "font") {
            Some(Property::Font)
        } else if str_eq_ignore_ascii_case(name, "font-family") {
            Some(Property::FontFamily)
        } else if str_eq_ignore_ascii_case(name, "font-size") {
            Some(Property::FontSize)
        } else if str_eq_ignore_ascii_case(name, "font-style") {
            Some(Property::FontStyle)
        } else if str_eq_ignore_ascii_case(name, "height") {
            Some(Property::Height)
        } else if str_eq_ignore_ascii_case(name, "white-space") {
            Some(Property::WhiteSpace)
        } else if str_eq_ignore_ascii_case(name, "width") {
            Some(Property::Width)
        } else {
            None
        }
    }
}

/// The property of a declaration named `name`; an unknown name gives
/// `Property::Invalid`.
pub open spec fn declared_property(name: Seq<char>) -> Property {
    match property_named(name) {
        Some(p) => p,
        None => Property::Invalid,
    }
}

/// The declaration that the value in `ts[i..stop]` makes for the property
/// named `name`: the value must take every significant token.
pub open spec fn declared_value_at(src: Seq<char>, ts: Seq<SpannedToken>, i: usize, stop: usize, name: Seq<char>) -> Result<
    (Property, ValueView),
    ParseErrorView,
> {
    match value_at(src, ts, i, stop, declared_property(name)) {
        Ok((v, k)) => if exhausted(ts, k as int, stop as int) {
            Ok((declared_property(name), v))
        } else {
            Err(unexpected_at(ts, k, stop)@)
        },
        Err(e) => Err(e),
    }
}

/// The declaration that a value gives the property named `name`.
pub fn parse_declared_value(src: &str, ts: &Vec<SpannedToken>, i: usize, stop: usize, name: &str) -> (r: Result<
    Declaration,
    ParseError,
>)
    requires
        well_placed(src@, ts@, i, stop),
    ensures
        match r {
            Ok(d) => declared_value_at(src@, ts@, i, stop, name@) == Ok::<(Property, ValueView), ParseErrorView>(d@),
            Err(e) => declared_value_at(src@, ts@, i, stop, name@) == Err::<(Property, ValueView), ParseErrorView>(e@),
        },
{
    let property = match Property::parse(name) {
        Some(p) => p,
        None => Property::Invalid,
    };
    let (value, k) = parse_value(src, ts, i, stop, property)?;
    if is_exhausted(ts, k, stop) {
        Ok(Declaration::new(property, value))
    } else {
        Err(unexpected_error_at(ts, k, stop))
    }
}

/// The error for the first significant token that is left over, or for the
/// end of the input.
pub fn unexpected_error_at(ts: &Vec<SpannedToken>, i: usize, stop: usize) -> (r: ParseError)
    requires
        in_range(ts@, i, stop),
    ensures
        r == unexpected_at(ts@, i, stop),
{
    match next_sig(ts, i, stop) {
        Some((t, _, _)) => ParseError::Basic(BasicParseErrorKind::UnexpectedToken(clone_token(t))),
        None => ParseError::Basic(BasicParseErrorKind::EndOfInput),
    }
}

/// The parser of the values of style declarations.
#[derive(Copy, Clone, Debug, Default, PartialEq, Eq, PartialOrd, Ord)]
pub struct DeclarationParser;

impl DeclarationParser {
    /// The declaration that `input`, the value of a declaration of the
    /// property named `name`, makes.
    pub fn parse_value(&mut self, name: &str, input: &str) -> (r: Result<Declaration, ParseError>)
        ensures
            match r {
                Ok(d) => declared_value_at(input@, tokens_of(input@), 0, tokens_of(input@).len() as usize, name@)
                    == Ok::<(Property, ValueView), ParseErrorView>(d@),
                Err(e) => declared_value_at(input@, tokens_of(input@), 0, tokens_of(input@).len() as usize, name@)
                    == Err::<(Property, ValueView), ParseErrorView>(e@),
            },
    {
        let ts = tokenize(input);
        parse_declared_value(input, &ts, 0, ts.len(), name)
    }
}

/// The colour that the first component of `ts[i..stop]` gives, if the
/// colour parser takes it and the engine keeps its kind of colour.
pub open spec fn color_value_at(src: Seq<char>, ts: Seq<SpannedToken>, i: usize, stop: usize) -> Option<CssColor> {
    match nxt(ts, i, stop) {
        Some((_, j, a)) => converted_color(component_color(src, ts, j, a)),
        None => None,
    }
}

/// The colour that a text begins with.
pub fn parse_value_color(input: &str) -> (r: Option<CssColor>)
    ensures
        r == color_value_at(input@, tokens_of(input@), 0, tokens_of(input@).len() as usize),
{
    let ts = tokenize(input);
    match next_sig(&ts, 0, ts.len()) {
        Some((_, j, a)) => {
            proof {
                if j < a - 1 {
                    assert(ts@[j as int].end <= ts@[a - 1].start);
                }
            }
            convert_color(parse_color_component(input, ts[j].start, ts[a - 1].end))
        },
        None => None,
    }
}

/// The length that a text begins with.
pub fn parse_value_length(input: &str) -> (r: Option<CssLength>)
    ensures
        r == (match length_at(tokens_of(input@), 0, tokens_of(input@).len() as usize) {
            Ok((l, _)) => Some(l),
            Err(_) => None,
        }),
{
    let ts = tokenize(input);
    match parse_length(&ts, 0, ts.len()) {
        Ok((l, _)) => Some(l),
        Err(_) => None,
    }
}

/// Property names are matched without regard to ASCII case: two names that
/// differ only in the case of ASCII letters name the same property.
pub proof fn property_names_ignore_ascii_case(a: Seq<char>, b: Seq<char>)
    requires
        lower_bytes(bytes_of(a)) == lower_bytes(bytes_of(b)),
    ensures
        property_named(a) == property_named(b),
{
}

} // verus!
