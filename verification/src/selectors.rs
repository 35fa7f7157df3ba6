//! The grammar of selectors and selector lists.

use vstd::prelude::*;

use crate::error::{BasicParseErrorKind, ParseError, RetinaStyleParseError};
use crate::style::{
    AttributeSelector, AttributeSelectorCaseSensitivity, AttributeSelectorKind, Selector, SelectorList, SimpleSelector,
};
use crate::syntax::{BlockKind, block_end, clone_token, exhausted, find_block_end, find_comma, find_comma_index, is_exhausted};
use crate::tokenizer::{CssToken, SpannedToken, tokenize, tokens_of};
use crate::values::{
    expect_ident, expect_ident_or_string, ident_at, ident_or_string_at, in_range, next_sig, nxt, unexpected_at,
};
use crate::declarations::unexpected_error_at;

verus! {

impl View for SelectorList {
    type V = Seq<Selector>;

    open spec fn view(&self) -> Seq<Selector> {
        self.items@
    }
}

/// The kind of attribute selector that an operator token makes with the
/// value `v`; `None` for a token that is no operator.
pub open spec fn operator_kind(t: CssToken, v: String) -> Option<AttributeSelectorKind> {
    match t {
        CssToken::Delim('=') => Some(AttributeSelectorKind::Exact(v)),
        CssToken::IncludeMatch => Some(AttributeSelectorKind::OneOfWhitespaceSeparatedList(v)),
        CssToken::DashMatch => Some(AttributeSelectorKind::ExactOrStartsWithAndHyphen(v)),
        CssToken::PrefixMatch => Some(AttributeSelectorKind::BeginsWith(v)),
        CssToken::SuffixMatch => Some(AttributeSelectorKind::EndsWith(v)),
        CssToken::SubstringMatch => Some(AttributeSelectorKind::Contains(v)),
        _ => None,
    }
}

pub open spec fn is_operator(t: CssToken) -> bool {
    match t {
        CssToken::Delim('=') | CssToken::IncludeMatch | CssToken::DashMatch | CssToken::PrefixMatch
        | CssToken::SuffixMatch | CssToken::SubstringMatch => true,
        _ => false,
    }
}

/// The operator and value of an attribute selector, from `a` on: none at
/// the end, else an operator and an identifier or string.
pub open spec fn attribute_kind_at(ts: Seq<SpannedToken>, a: usize, stop: usize) -> Result<(AttributeSelectorKind, usize), ParseError> {
    match nxt(ts, a, stop) {
        None => Ok((AttributeSelectorKind::RegardlessOfValue, a)),
        Some((t, _, b)) => if is_operator(t) {
            match ident_or_string_at(ts, b, stop) {
                Ok((v, c)) => Ok((operator_kind(t, v).unwrap(), c)),
                Err(e) => Err(e),
            }
        } else {
            Err(ParseError::Custom(RetinaStyleParseError::AttributeSelectorUnknownOperatorName(t)))
        },
    }
}

/// The attribute selector in the block `ts[i..stop]`: a name, then an
/// optional operator and value, and nothing more.
pub open spec fn attribute_selector_at(ts: Seq<SpannedToken>, i: usize, stop: usize) -> Result<Selector, ParseError> {
    match nxt(ts, i, stop) {
        None => Err(ParseError::Basic(BasicParseErrorKind::EndOfInput)),
        Some((CssToken::Ident(name), _, a)) => match attribute_kind_at(ts, a, stop) {
            Err(e) => Err(e),
            Ok((kind, c)) => if exhausted(ts, c as int, stop as int) {
                Ok(
                    Selector::Simple(
                        SimpleSelector::Attribute(
                            AttributeSelector {
                                attribute_name: name,
                                case_sensitivity: AttributeSelectorCaseSensitivity::Default,
                                kind,
                            },
                        ),
                    ),
                )
            } else {
                Err(unexpected_at(ts, c, stop))
            },
        },
        Some((t, _, _)) => Err(
            ParseError::Custom(RetinaStyleParseError::AttributeSelectorExpectedIdentifierAsAttributeName(t)),
        ),
    }
}

fn operator(t: &CssToken, v: String) -> (r: Option<AttributeSelectorKind>)
    ensures
        r == operator_kind(*t, v),
{
    match t {
        CssToken::Delim(c) => if *c == '=' {
            Some(AttributeSelectorKind::Exact(v))
        } else {
            None
        },
        CssToken::IncludeMatch => Some(AttributeSelectorKind::OneOfWhitespaceSeparatedList(v)),
        CssToken::DashMatch => Some(AttributeSelectorKind::ExactOrStartsWithAndHyphen(v)),
        CssToken::PrefixMatch => Some(AttributeSelectorKind::BeginsWith(v)),
        CssToken::SuffixMatch => Some(AttributeSelectorKind::EndsWith(v)),
        CssToken::SubstringMatch => Some(AttributeSelectorKind::Contains(v)),
        _ => None,
    }
}

fn is_operator_token(t: &CssToken) -> (r: bool)
    ensures
        r == is_operator(*t),
{
    match t {
        CssToken::Delim(c) => *c == '=',
        CssToken::IncludeMatch | CssToken::DashMatch | CssToken::PrefixMatch | CssToken::SuffixMatch
        | CssToken::SubstringMatch => true,
        _ => false,
    }
}

fn parse_attribute_kind(ts: &Vec<SpannedToken>, a: usize, stop: usize) -> (r: Result<(AttributeSelectorKind, usize), ParseError>)
    requires
        in_range(ts@, a, stop),
    ensures
        r == attribute_kind_at(ts@, a, stop),
        r matches Ok((_, c)) ==> a <= c <= stop,
{
    match next_sig(ts, a, stop) {
        None => Ok((AttributeSelectorKind::RegardlessOfValue, a)),
        Some((t, _, b)) => {
            if is_operator_token(t) {
                let (v, c) = expect_ident_or_string(ts, b, stop)?;
                let kind = operator(t, v);
                Ok((kind.unwrap(), c))
            } else {
                Err(ParseError::Custom(RetinaStyleParseError::AttributeSelectorUnknownOperatorName(clone_token(t))))
            }
        },
    }
}

/// Reads the attribute selector in the block `ts[i..stop]`.
pub fn parse_attribute_selector(ts: &Vec<SpannedToken>, i: usize, stop: usize) -> (r: Result<Selector, ParseError>)
    requires
        in_range(ts@, i, stop),
    ensures
        r == attribute_selector_at(ts@, i, stop),
{
    match next_sig(ts, i, stop) {
        None => Err(ParseError::Basic(BasicParseErrorKind::EndOfInput)),
        Some((CssToken::Ident(name), _, a)) => {
            let (kind, c) = parse_attribute_kind(ts, a, stop)?;
            if is_exhausted(ts, c, stop) {
                Ok(
                    Selector::Simple(
                        SimpleSelector::Attribute(
                            AttributeSelector::new(name.clone(), AttributeSelectorCaseSensitivity::Default, kind),
                        ),
                    ),
                )
            } else {
                Err(unexpected_error_at(ts, c, stop))
            }
        },
        Some((t, _, _)) => Err(
            ParseError::Custom(RetinaStyleParseError::AttributeSelectorExpectedIdentifierAsAttributeName(clone_token(t))),
        ),
    }
}

/// A simple selector: an attribute selector in square brackets, `*`, a type
/// name, an id, or `.` and a class name.
pub open spec fn selector_at(ts: Seq<SpannedToken>, i: usize, stop: usize) -> Result<(Selector, usize), ParseError> {
    match nxt(ts, i, stop) {
        None => Err(ParseError::Basic(BasicParseErrorKind::EndOfInput)),
        Some((CssToken::SquareBracketBlock, j, a)) => match attribute_selector_at(
            ts,
            (j + 1) as usize,
            block_end(ts, j + 1, stop as int, seq![BlockKind::SquareBracket]) as usize,
        ) {
            Ok(s) => Ok((s, a)),
            Err(e) => Err(e),
        },
        Some((CssToken::Delim('*'), _, a)) => Ok((Selector::Simple(SimpleSelector::Universal), a)),
        Some((CssToken::Ident(s), _, a)) => Ok((Selector::Simple(SimpleSelector::TypeSelector(s)), a)),
        Some((CssToken::IdHash(s), _, a)) => if s@.len() > 0 {
            Ok((Selector::Simple(SimpleSelector::Id(s)), a))
        } else {
            Err(ParseError::Custom(RetinaStyleParseError::UnknownSelector(CssToken::IdHash(s))))
        },
        Some((CssToken::Delim('.'), _, a)) => match ident_at(ts, a, stop) {
            Ok((c, b)) => Ok((Selector::Simple(SimpleSelector::Class(c)), b)),
            Err(e) => Err(e),
        },
        Some((t, _, _)) => Err(ParseError::Custom(RetinaStyleParseError::UnknownSelector(t))),
    }
}

/// Reads a simple selector.
pub fn parse_selector(ts: &Vec<SpannedToken>, i: usize, stop: usize) -> (r: Result<(Selector, usize), ParseError>)
    requires
        in_range(ts@, i, stop),
    ensures
        r == selector_at(ts@, i, stop),
        r matches Ok((_, a)) ==> i < a <= stop,
{
    match next_sig(ts, i, stop) {
        None => Err(ParseError::Basic(BasicParseErrorKind::EndOfInput)),
        Some((CssToken::SquareBracketBlock, j, a)) => {
            let e = find_block_end(ts, j + 1, stop, BlockKind::SquareBracket);
            match parse_attribute_selector(ts, j + 1, e) {
                Ok(s) => Ok((s, a)),
                Err(e) => Err(e),
            }
        },
        Some((CssToken::Ident(s), _, a)) => Ok((Selector::Simple(SimpleSelector::TypeSelector(s.clone())), a)),
        Some((CssToken::IdHash(s), _, a)) => if !s.as_str().is_empty() {
            Ok((Selector::Simple(SimpleSelector::Id(s.clone())), a))
        } else {
            Err(ParseError::Custom(RetinaStyleParseError::UnknownSelector(CssToken::IdHash(s.clone()))))
        },
        Some((t, _, a)) => match t {
            CssToken::Delim(c) if *c == '*' => Ok((Selector::Simple(SimpleSelector::Universal), a)),
            CssToken::Delim(c) if *c == '.' => {
                let (name, b) = expect_ident(ts, a, stop)?;
                Ok((Selector::Simple(SimpleSelector::Class(name)), b))
            },
            _ => Err(ParseError::Custom(RetinaStyleParseError::UnknownSelector(clone_token(t)))),
        },
    }
}

/// A comma-separated list of selectors from `i` on, after the selectors
/// `acc`: each item must take every token up to its comma.
pub open spec fn selectors_from(ts: Seq<SpannedToken>, i: usize, stop: usize, acc: Seq<Selector>) -> Result<
    (Seq<Selector>, usize),
    ParseError,
>
    decreases stop - i,
{
    let c = find_comma(ts, i as int, stop as int);
    if !in_range(ts, i, stop) || !(i <= c <= stop) {
        Ok((acc, i))
    } else {
        match selector_at(ts, i, c as usize) {
            Err(e) => Err(e),
            Ok((s, k)) => if !exhausted(ts, k as int, c) {
                Err(unexpected_at(ts, k, c as usize))
            } else if c < stop {
                selectors_from(ts, (c + 1) as usize, stop, acc.push(s))
            } else {
                Ok((acc.push(s), c as usize))
            },
        }
    }
}

pub open spec fn selectors_at(ts: Seq<SpannedToken>, i: usize, stop: usize) -> Result<(Seq<Selector>, usize), ParseError> {
    selectors_from(ts, i, stop, Seq::empty())
}

/// Reads a comma-separated list of selectors.
pub fn parse_selectors(ts: &Vec<SpannedToken>, i: usize, stop: usize) -> (r: Result<(SelectorList, usize), ParseError>)
    requires
        in_range(ts@, i, stop),
    ensures
        match (r, selectors_at(ts@, i, stop)) {
            (Ok((l, a)), Ok((s, b))) => l@ == s && a == b,
            (Err(e), Err(f)) => e == f,
            _ => false,
        },
        r matches Ok((_, a)) ==> i <= a <= stop,
{
    let mut items: Vec<Selector> = Vec::new();
    let mut pos = i;
    loop
        invariant
            in_range(ts@, pos, stop),
            i <= pos,
            selectors_at(ts@, i, stop) == selectors_from(ts@, pos, stop, items@),
        decreases stop - pos,
    {
        let c = find_comma_index(ts, pos, stop);
        let (s, k) = parse_selector(ts, pos, c)?;
        if !is_exhausted(ts, k, c) {
            return Err(unexpected_error_at(ts, k, c));
        }
        items.push(s);
        if c < stop {
            pos = c + 1;
        } else {
            return Ok((SelectorList { items }, c));
        }
    }
}

/// The selectors of a whole text.
pub fn parse_selector_list(input: &str) -> (r: Result<SelectorList, ParseError>)
    ensures
        match (r, selectors_at(tokens_of(input@), 0, tokens_of(input@).len() as usize)) {
            (Ok(l), Ok((s, _))) => l@ == s,
            (Err(e), Err(f)) => e == f,
            _ => false,
        },
{
    let ts = tokenize(input);
    match parse_selectors(&ts, 0, ts.len()) {
        Ok((l, _)) => Ok(l),
        Err(e) => Err(e),
    }
}

} // verus!
