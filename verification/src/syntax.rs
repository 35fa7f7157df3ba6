//! The token-level structure of CSS that the grammars read: significant
//! tokens, blocks, comma-separated lists and the end of a component.

use vstd::prelude::*;

use crate::error::{BasicParseErrorKind, ParseError};
use crate::tokenizer::{CssToken, SpannedToken};

verus! {

#[derive(Copy, Clone, Debug, PartialEq, Eq, Structural)]
pub enum BlockKind {
    Parenthesis,
    SquareBracket,
    CurlyBracket,
}

/// The block that a token opens: functions and parentheses open a
/// parenthesis block.
pub open spec fn opener_kind(t: CssToken) -> Option<BlockKind> {
    match t {
        CssToken::Function(..) | CssToken::ParenthesisBlock => Some(BlockKind::Parenthesis),
        CssToken::SquareBracketBlock => Some(BlockKind::SquareBracket),
        CssToken::CurlyBracketBlock => Some(BlockKind::CurlyBracket),
        _ => None,
    }
}

pub open spec fn closer_kind(t: CssToken) -> Option<BlockKind> {
    match t {
        CssToken::CloseParenthesis => Some(BlockKind::Parenthesis),
        CssToken::CloseSquareBracket => Some(BlockKind::SquareBracket),
        CssToken::CloseCurlyBracket => Some(BlockKind::CurlyBracket),
        _ => None,
    }
}

/// The index of the token that closes the outermost of the open blocks
/// `stack`, scanning from `i`: a closing token closes the innermost open
/// block when it is of its kind and is ignored otherwise. `stop` when the
/// input ends first.
pub open spec fn block_end(ts: Seq<SpannedToken>, i: int, stop: int, stack: Seq<BlockKind>) -> int
    decreases stop - i,
{
    if i < 0 || i >= stop || stack.len() == 0 {
        stop
    } else {
        let t = ts[i].token;
        if closer_kind(t) == Some(stack.last()) {
            if stack.len() == 1 {
                i
            } else {
                block_end(ts, i + 1, stop, stack.drop_last())
            }
        } else {
            match opener_kind(t) {
                Some(k) => block_end(ts, i + 1, stop, stack.push(k)),
                None => block_end(ts, i + 1, stop, stack),
            }
        }
    }
}

/// The index after a block of `kind` whose content starts at `inner`.
pub open spec fn after_block(ts: Seq<SpannedToken>, inner: int, stop: int, kind: BlockKind) -> int {
    let e = block_end(ts, inner, stop, seq![kind]);
    if e < stop { e + 1 } else { stop }
}

pub open spec fn is_trivia(t: CssToken) -> bool {
    t is WhiteSpace || t is Comment
}

/// The index of the first token from `i` on that is neither whitespace nor
/// a comment.
pub open spec fn skip_trivia(ts: Seq<SpannedToken>, i: int, stop: int) -> int
    decreases stop - i,
{
    if 0 <= i < stop && is_trivia(ts[i].token) {
        skip_trivia(ts, i + 1, stop)
    } else {
        i
    }
}

/// The next significant token: the token, its index, and the index after
/// it, after the whole block when it opens one.
pub open spec fn next_token(ts: Seq<SpannedToken>, i: int, stop: int) -> Option<(CssToken, int, int)> {
    let j = skip_trivia(ts, i, stop);
    if j < 0 || j >= stop {
        None
    } else {
        let t = ts[j].token;
        match opener_kind(t) {
            Some(k) => Some((t, j, after_block(ts, j + 1, stop, k))),
            None => Some((t, j, j + 1)),
        }
    }
}

/// No significant token is left before `stop`.
pub open spec fn exhausted(ts: Seq<SpannedToken>, i: int, stop: int) -> bool {
    next_token(ts, i, stop) is None
}

/// The error for a missing token: the end of the input, or the token that
/// stands where another was expected.
pub open spec fn unexpected(n: Option<(CssToken, int, int)>) -> ParseError {
    match n {
        Some((t, _, _)) => ParseError::Basic(BasicParseErrorKind::UnexpectedToken(t)),
        None => ParseError::Basic(BasicParseErrorKind::EndOfInput),
    }
}

/// Whether a component ends at `stop`; the error names the first token
/// left over.
pub open spec fn check_exhausted(ts: Seq<SpannedToken>, i: int, stop: int) -> Result<(), ParseError> {
    match next_token(ts, i, stop) {
        Some((t, _, _)) => Err(ParseError::Basic(BasicParseErrorKind::UnexpectedToken(t))),
        None => Ok(()),
    }
}

/// The tokens that end a part of a component list or of a rule.
#[derive(Copy, Clone, Debug, PartialEq, Eq, Structural)]
pub enum Delimiter {
    Comma,
    Semicolon,
    CurlyBracketBlock,
    SemicolonOrCurlyBracketBlock,
}

pub open spec fn delimits(t: CssToken, d: Delimiter) -> bool {
    match d {
        Delimiter::Comma => t is Comma,
        Delimiter::Semicolon => t is Semicolon,
        Delimiter::CurlyBracketBlock => t is CurlyBracketBlock,
        Delimiter::SemicolonOrCurlyBracketBlock => t is Semicolon || t is CurlyBracketBlock,
    }
}

/// The index of the next delimiter at this nesting level, or `stop`.
pub open spec fn find_delimiter(ts: Seq<SpannedToken>, i: int, stop: int, d: Delimiter) -> int
    decreases stop - i,
{
    if i < 0 || i >= stop {
        stop
    } else if delimits(ts[i].token, d) {
        i
    } else {
        match opener_kind(ts[i].token) {
            Some(k) => {
                let a = after_block(ts, i + 1, stop, k);
                if a > i {
                    find_delimiter(ts, a, stop, d)
                } else {
                    stop
                }
            },
            None => find_delimiter(ts, i + 1, stop, d),
        }
    }
}

/// The index of the next comma at this nesting level, or `stop`.
pub open spec fn find_comma(ts: Seq<SpannedToken>, i: int, stop: int) -> int {
    find_delimiter(ts, i, stop, Delimiter::Comma)
}

/// A duplicate of a token.
pub fn clone_token(t: &CssToken) -> (r: CssToken)
    ensures
        r == *t,
{
    match t {
        CssToken::Ident(v) => CssToken::Ident(v.clone()),
        CssToken::AtKeyword(v) => CssToken::AtKeyword(v.clone()),
        CssToken::Hash(v) => CssToken::Hash(v.clone()),
        CssToken::IdHash(v) => CssToken::IdHash(v.clone()),
        CssToken::QuotedString(v) => CssToken::QuotedString(v.clone()),
        CssToken::UnquotedUrl(v) => CssToken::UnquotedUrl(v.clone()),
        CssToken::Delim(c) => CssToken::Delim(*c),
        CssToken::Number { has_sign, value, int_value } => CssToken::Number {
            has_sign: *has_sign,
            value: *value,
            int_value: *int_value,
        },
        CssToken::Percentage { has_sign, unit_value, int_value } => CssToken::Percentage {
            has_sign: *has_sign,
            unit_value: *unit_value,
            int_value: *int_value,
        },
        CssToken::Dimension { has_sign, value, int_value, unit } => CssToken::Dimension {
            has_sign: *has_sign,
            value: *value,
            int_value: *int_value,
            unit: unit.clone(),
        },
        CssToken::WhiteSpace(v) => CssToken::WhiteSpace(v.clone()),
        CssToken::Comment(v) => CssToken::Comment(v.clone()),
        CssToken::Colon => CssToken::Colon,
        CssToken::Semicolon => CssToken::Semicolon,
        CssToken::Comma => CssToken::Comma,
        CssToken::IncludeMatch => CssToken::IncludeMatch,
        CssToken::DashMatch => CssToken::DashMatch,
        CssToken::PrefixMatch => CssToken::PrefixMatch,
        CssToken::SuffixMatch => CssToken::SuffixMatch,
        CssToken::SubstringMatch => CssToken::SubstringMatch,
        CssToken::Cdo => CssToken::Cdo,
        CssToken::Cdc => CssToken::Cdc,
        CssToken::Function(v) => CssToken::Function(v.clone()),
        CssToken::ParenthesisBlock => CssToken::ParenthesisBlock,
        CssToken::SquareBracketBlock => CssToken::SquareBracketBlock,
        CssToken::CurlyBracketBlock => CssToken::CurlyBracketBlock,
        CssToken::BadUrl(v) => CssToken::BadUrl(v.clone()),
        CssToken::BadString(v) => CssToken::BadString(v.clone()),
        CssToken::CloseParenthesis => CssToken::CloseParenthesis,
        CssToken::CloseSquareBracket => CssToken::CloseSquareBracket,
        CssToken::CloseCurlyBracket => CssToken::CloseCurlyBracket,
    }
}

fn opener(t: &CssToken) -> (r: Option<BlockKind>)
    ensures
        r == opener_kind(*t),
{
    match t {
        CssToken::Function(..) | CssToken::ParenthesisBlock => Some(BlockKind::Parenthesis),
        CssToken::SquareBracketBlock => Some(BlockKind::SquareBracket),
        CssToken::CurlyBracketBlock => Some(BlockKind::CurlyBracket),
        _ => None,
    }
}

fn closer(t: &CssToken) -> (r: Option<BlockKind>)
    ensures
        r == closer_kind(*t),
{
    match t {
        CssToken::CloseParenthesis => Some(BlockKind::Parenthesis),
        CssToken::CloseSquareBracket => Some(BlockKind::SquareBracket),
        CssToken::CloseCurlyBracket => Some(BlockKind::CurlyBracket),
        _ => None,
    }
}

fn trivia(t: &CssToken) -> (r: bool)
    ensures
        r == is_trivia(*t),
{
    match t {
        CssToken::WhiteSpace(..) | CssToken::Comment(..) => true,
        _ => false,
    }
}

fn same_kind(a: BlockKind, b: BlockKind) -> (r: bool)
    ensures
        r == (a == b),
{
    match (a, b) {
        (BlockKind::Parenthesis, BlockKind::Parenthesis) => true,
        (BlockKind::SquareBracket, BlockKind::SquareBracket) => true,
        (BlockKind::CurlyBracket, BlockKind::CurlyBracket) => true,
        _ => false,
    }
}

/// The index of the token that closes a block of `kind` whose content
/// starts at `inner`; `stop` when the input ends first.
pub fn find_block_end(ts: &Vec<SpannedToken>, inner: usize, stop: usize, kind: BlockKind) -> (r: usize)
    requires
        inner <= stop <= ts@.len(),
    ensures
        r as int == block_end(ts@, inner as int, stop as int, seq![kind]),
        inner <= r <= stop,
{
    let mut stack: Vec<BlockKind> = Vec::new();
    stack.push(kind);
    let mut i = inner;
    while i < stop
        invariant
            inner <= i <= stop,
            stop <= ts@.len(),
            stack@.len() > 0,
            block_end(ts@, inner as int, stop as int, seq![kind]) == block_end(ts@, i as int, stop as int, stack@),
        decreases stop - i,
    {
        let t = &ts[i].token;
        let top = stack[stack.len() - 1];
        let closes = match closer(t) {
            Some(k) => same_kind(k, top),
            None => false,
        };
        if closes {
            if stack.len() == 1 {
                return i;
            }
            stack.pop();
        } else {
            match opener(t) {
                Some(k) => {
                    stack.push(k);
                },
                None => {},
            }
        }
        i = i + 1;
    }
    stop
}

/// The index after a block of `kind` whose content starts at `inner`.
pub fn skip_block(ts: &Vec<SpannedToken>, inner: usize, stop: usize, kind: BlockKind) -> (r: usize)
    requires
        inner <= stop <= ts@.len(),
    ensures
        r as int == after_block(ts@, inner as int, stop as int, kind),
        inner <= r <= stop,
{
    let e = find_block_end(ts, inner, stop, kind);
    if e < stop { e + 1 } else { stop }
}

/// The index of the first significant token from `i` on.
pub fn skip_whitespace(ts: &Vec<SpannedToken>, i: usize, stop: usize) -> (r: usize)
    requires
        i <= stop <= ts@.len(),
    ensures
        r as int == skip_trivia(ts@, i as int, stop as int),
        i <= r <= stop,
{
    let mut j = i;
    while j < stop && trivia(&ts[j].token)
        invariant
            i <= j <= stop,
            stop <= ts@.len(),
            skip_trivia(ts@, i as int, stop as int) == skip_trivia(ts@, j as int, stop as int),
        decreases stop - j,
    {
        j = j + 1;
    }
    j
}

/// The next significant token, its index, and the index after it.
pub fn next<'a>(ts: &'a Vec<SpannedToken>, i: usize, stop: usize) -> (r: Option<(&'a CssToken, usize, usize)>)
    requires
        i <= stop <= ts@.len(),
    ensures
        match next_token(ts@, i as int, stop as int) {
            Some((t, j, a)) => r matches Some((rt, rj, ra)) && *rt == t && rj == j && ra == a,
            None => r is None,
        },
        r matches Some((_, j, a)) ==> i <= j < a <= stop,
{
    let j = skip_whitespace(ts, i, stop);
    if j >= stop {
        return None;
    }
    let t = &ts[j].token;
    match opener(t) {
        Some(k) => Some((t, j, skip_block(ts, j + 1, stop, k))),
        None => Some((t, j, j + 1)),
    }
}

/// Whether no significant token is left before `stop`.
pub fn is_exhausted(ts: &Vec<SpannedToken>, i: usize, stop: usize) -> (r: bool)
    requires
        i <= stop <= ts@.len(),
    ensures
        r == exhausted(ts@, i as int, stop as int),
{
    next(ts, i, stop).is_none()
}

/// Checks that no significant token is left before `stop`.
pub fn expect_exhausted(ts: &Vec<SpannedToken>, i: usize, stop: usize) -> (r: Result<(), ParseError>)
    requires
        i <= stop <= ts@.len(),
    ensures
        r == check_exhausted(ts@, i as int, stop as int),
{
    match next(ts, i, stop) {
        Some((t, _, _)) => Err(ParseError::Basic(BasicParseErrorKind::UnexpectedToken(clone_token(t)))),
        None => Ok(()),
    }
}

/// The error for a missing token.
pub fn unexpected_error(n: Option<(&CssToken, usize, usize)>) -> (r: ParseError)
    ensures
        r == unexpected(match n { Some((t, j, a)) => Some((*t, j as int, a as int)), None => None }),
{
    match n {
        Some((t, _, _)) => ParseError::Basic(BasicParseErrorKind::UnexpectedToken(clone_token(t))),
        None => ParseError::Basic(BasicParseErrorKind::EndOfInput),
    }
}

fn is_delimiter(t: &CssToken, d: Delimiter) -> (r: bool)
    ensures
        r == delimits(*t, d),
{
    match (t, d) {
        (CssToken::Comma, Delimiter::Comma) => true,
        (CssToken::Semicolon, Delimiter::Semicolon) => true,
        (CssToken::CurlyBracketBlock, Delimiter::CurlyBracketBlock) => true,
        (CssToken::Semicolon, Delimiter::SemicolonOrCurlyBracketBlock) => true,
        (CssToken::CurlyBracketBlock, Delimiter::SemicolonOrCurlyBracketBlock) => true,
        _ => false,
    }
}

/// The index of the next delimiter at this nesting level, or `stop`.
pub fn find_delimiter_index(ts: &Vec<SpannedToken>, i: usize, stop: usize, d: Delimiter) -> (r: usize)
    requires
        i <= stop <= ts@.len(),
    ensures
        r as int == find_delimiter(ts@, i as int, stop as int, d),
        i <= r <= stop,
{
    let mut j = i;
    while j < stop
        invariant
            i <= j <= stop,
            stop <= ts@.len(),
            find_delimiter(ts@, i as int, stop as int, d) == find_delimiter(ts@, j as int, stop as int, d),
        decreases stop - j,
    {
        if is_delimiter(&ts[j].token, d) {
            return j;
        }
        match opener(&ts[j].token) {
            Some(k) => {
                let a = skip_block(ts, j + 1, stop, k);
                j = a;
            },
            None => {
                j = j + 1;
            },
        }
    }
    stop
}

/// The index of the next comma at this nesting level, or `stop`.
pub fn find_comma_index(ts: &Vec<SpannedToken>, i: usize, stop: usize) -> (r: usize)
    requires
        i <= stop <= ts@.len(),
    ensures
        r as int == find_comma(ts@, i as int, stop as int),
        i <= r <= stop,
{
    find_delimiter_index(ts, i, stop, Delimiter::Comma)
}

} // verus!
