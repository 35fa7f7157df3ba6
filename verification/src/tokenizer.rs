//! CSS tokens, as the CSS tokenizer produces them.

use vstd::prelude::*;
use vstd::string::StringSliceAdditionalSpecFns;
use vstd::utf8::encode_utf8;
use cssparser::{Parser, ParserInput, Token};

use crate::style::CssNumber;
use crate::text::splits_chars;

verus! {

/// A CSS token ([CSS Syntax 3 § 4](https://drafts.csswg.org/css-syntax/#tokenization)).
/// Numbers are held as the bit patterns of their single-precision values.
#[derive(Clone, Debug, PartialEq, Eq)]
pub enum CssToken {
    Ident(String),
    AtKeyword(String),
    Hash(String),
    IdHash(String),
    QuotedString(String),
    UnquotedUrl(String),
    Delim(char),
    Number { has_sign: bool, value: CssNumber, int_value: Option<i32> },
    Percentage { has_sign: bool, unit_value: CssNumber, int_value: Option<i32> },
    Dimension { has_sign: bool, value: CssNumber, int_value: Option<i32>, unit: String },
    WhiteSpace(String),
    Comment(String),
    Colon,
    Semicolon,
    Comma,
    IncludeMatch,
    DashMatch,
    PrefixMatch,
    SuffixMatch,
    SubstringMatch,
    Cdo,
    Cdc,
    Function(String),
    ParenthesisBlock,
    SquareBracketBlock,
    CurlyBracketBlock,
    BadUrl(String),
    BadString(String),
    CloseParenthesis,
    CloseSquareBracket,
    CloseCurlyBracket,
}

/// A token with the byte range of the input that it was read from.
#[derive(Clone, Debug, PartialEq, Eq)]
pub struct SpannedToken {
    pub token: CssToken,
    pub start: usize,
    pub end: usize,
}

/// The token that the CSS tokenizer reads from `input` starting at byte
/// `pos`, and how many bytes it takes; `None` at the end of the input.
pub uninterp spec fn css_token_at(input: Seq<char>, pos: usize) -> Option<(CssToken, usize)>;

/// The families into which the token readers split the tokens.
#[derive(Copy, Clone, Debug, PartialEq, Eq, Structural)]
pub enum TokenFamily {
    Named,
    Hashed,
    Textual,
    Numeric,
    Dimension,
    Punctuation,
    Matching,
    Bracket,
}

pub open spec fn family_of(t: CssToken) -> TokenFamily {
    match t {
        CssToken::Ident(..) | CssToken::AtKeyword(..) | CssToken::Function(..) => TokenFamily::Named,
        CssToken::Hash(..) | CssToken::IdHash(..) | CssToken::QuotedString(..) => TokenFamily::Hashed,
        CssToken::UnquotedUrl(..) | CssToken::BadUrl(..) | CssToken::BadString(..)
        | CssToken::WhiteSpace(..) | CssToken::Comment(..) => TokenFamily::Textual,
        CssToken::Number { .. } | CssToken::Percentage { .. } => TokenFamily::Numeric,
        CssToken::Dimension { .. } => TokenFamily::Dimension,
        CssToken::Delim(..) | CssToken::Colon | CssToken::Semicolon | CssToken::Comma | CssToken::Cdo
        | CssToken::Cdc => TokenFamily::Punctuation,
        CssToken::IncludeMatch | CssToken::DashMatch | CssToken::PrefixMatch | CssToken::SuffixMatch
        | CssToken::SubstringMatch => TokenFamily::Matching,
        _ => TokenFamily::Bracket,
    }
}

/// The token read, if it belongs to `family`.
pub open spec fn of_family(r: Option<(CssToken, usize)>, family: TokenFamily) -> Option<(CssToken, usize)> {
    match r {
        Some((t, n)) => if family_of(t) == family { r } else { None },
        None => None,
    }
}

/// A token read from byte `pos` that takes `n` bytes ends inside the input,
/// between two characters.
pub open spec fn token_fits(input: Seq<char>, pos: usize, n: usize) -> bool {
    0 < n && pos + n <= encode_utf8(input).len() && splits_chars(encode_utf8(input), pos + n)
}

/// Reads one token with `cssparser::Parser::next_including_whitespace_and_comments`
/// from a parser over the input from byte `pos`, and returns it with the
/// number of bytes it took when it is an identifier, at-keyword or function
/// token. The contract names the tokenizer's
/// result and claims that a token takes at least one byte and ends between
/// two characters.
#[verifier::external_body]
fn read_named_token(input: &str, pos: usize) -> (r: Option<(CssToken, usize)>)
    requires
        pos <= input.spec_bytes().len(),
        splits_chars(input.spec_bytes(), pos as int),
    ensures
        r == of_family(css_token_at(input@, pos), TokenFamily::Named),
        r matches Some((_, n)) ==> token_fits(input@, pos, n),
{
    let mut source = ParserInput::new(&input[pos..]);
    let mut parser = Parser::new(&mut source);
    let token = parser.next_including_whitespace_and_comments().ok()?.clone();
    let used = parser.position().byte_index();
    match token {
        Token::Ident(v) => Some((CssToken::Ident(v.to_string()), used)),
        Token::AtKeyword(v) => Some((CssToken::AtKeyword(v.to_string()), used)),
        Token::Function(v) => Some((CssToken::Function(v.to_string()), used)),
        _ => None,
    }
}

/// As [`read_named_token`], for hash and quoted-string tokens.
#[verifier::external_body]
fn read_hashed_token(input: &str, pos: usize) -> (r: Option<(CssToken, usize)>)
    requires
        pos <= input.spec_bytes().len(),
        splits_chars(input.spec_bytes(), pos as int),
    ensures
        r == of_family(css_token_at(input@, pos), TokenFamily::Hashed),
        r matches Some((_, n)) ==> token_fits(input@, pos, n),
{
    let mut source = ParserInput::new(&input[pos..]);
    let mut parser = Parser::new(&mut source);
    let token = parser.next_including_whitespace_and_comments().ok()?.clone();
    let used = parser.position().byte_index();
    match token {
        Token::Hash(v) => Some((CssToken::Hash(v.to_string()), used)),
        Token::IDHash(v) => Some((CssToken::IdHash(v.to_string()), used)),
        Token::QuotedString(v) => Some((CssToken::QuotedString(v.to_string()), used)),
        _ => None,
    }
}

/// As [`read_named_token`], for URL, bad URL, bad string, whitespace and
/// comment tokens.
#[verifier::external_body]
fn read_textual_token(input: &str, pos: usize) -> (r: Option<(CssToken, usize)>)
    requires
        pos <= input.spec_bytes().len(),
        splits_chars(input.spec_bytes(), pos as int),
    ensures
        r == of_family(css_token_at(input@, pos), TokenFamily::Textual),
        r matches Some((_, n)) ==> token_fits(input@, pos, n),
{
    let mut source = ParserInput::new(&input[pos..]);
    let mut parser = Parser::new(&mut source);
    let token = parser.next_including_whitespace_and_comments().ok()?.clone();
    let used = parser.position().byte_index();
    match token {
        Token::UnquotedUrl(v) => Some((CssToken::UnquotedUrl(v.to_string()), used)),
        Token::BadUrl(v) => Some((CssToken::BadUrl(v.to_string()), used)),
        Token::BadString(v) => Some((CssToken::BadString(v.to_string()), used)),
        Token::WhiteSpace(v) => Some((CssToken::WhiteSpace(v.to_string()), used)),
        Token::Comment(v) => Some((CssToken::Comment(v.to_string()), used)),
        _ => None,
    }
}

/// As [`read_named_token`], for number and percentage tokens; their values
/// are returned as single-precision bit patterns.
#[verifier::external_body]
fn read_numeric_token(input: &str, pos: usize) -> (r: Option<(CssToken, usize)>)
    requires
        pos <= input.spec_bytes().len(),
        splits_chars(input.spec_bytes(), pos as int),
    ensures
        r == of_family(css_token_at(input@, pos), TokenFamily::Numeric),
        r matches Some((_, n)) ==> token_fits(input@, pos, n),
{
    let mut source = ParserInput::new(&input[pos..]);
    let mut parser = Parser::new(&mut source);
    let token = parser.next_including_whitespace_and_comments().ok()?.clone();
    let used = parser.position().byte_index();
    match token {
        Token::Number { has_sign, value, int_value } => Some((CssToken::Number { has_sign, value: CssNumber { bits: value.to_bits() }, int_value }, used)),
        Token::Percentage { has_sign, unit_value, int_value } => Some((CssToken::Percentage { has_sign, unit_value: CssNumber { bits: unit_value.to_bits() }, int_value }, used)),
        _ => None,
    }
}

/// As [`read_named_token`], for dimension tokens.
#[verifier::external_body]
fn read_dimension_token(input: &str, pos: usize) -> (r: Option<(CssToken, usize)>)
    requires
        pos <= input.spec_bytes().len(),
        splits_chars(input.spec_bytes(), pos as int),
    ensures
        r == of_family(css_token_at(input@, pos), TokenFamily::Dimension),
        r matches Some((_, n)) ==> token_fits(input@, pos, n),
{
    let mut source = ParserInput::new(&input[pos..]);
    let mut parser = Parser::new(&mut source);
    let token = parser.next_including_whitespace_and_comments().ok()?.clone();
    let used = parser.position().byte_index();
    match token {
        Token::Dimension { has_sign, value, int_value, unit } => Some((CssToken::Dimension { has_sign, value: CssNumber { bits: value.to_bits() }, int_value, unit: unit.to_string() }, used)),
        _ => None,
    }
}

/// As [`read_named_token`], for delimiters, colons, semicolons, commas and
/// the `<!--` and `-->` tokens.
#[verifier::external_body]
fn read_punctuation_token(input: &str, pos: usize) -> (r: Option<(CssToken, usize)>)
    requires
        pos <= input.spec_bytes().len(),
        splits_chars(input.spec_bytes(), pos as int),
    ensures
        r == of_family(css_token_at(input@, pos), TokenFamily::Punctuation),
        r matches Some((_, n)) ==> token_fits(input@, pos, n),
{
    let mut source = ParserInput::new(&input[pos..]);
    let mut parser = Parser::new(&mut source);
    let token = parser.next_including_whitespace_and_comments().ok()?.clone();
    let used = parser.position().byte_index();
    match token {
        Token::Delim(c) => Some((CssToken::Delim(c), used)),
        Token::Colon => Some((CssToken::Colon, used)),
        Token::Semicolon => Some((CssToken::Semicolon, used)),
        Token::Comma => Some((CssToken::Comma, used)),
        Token::CDO => Some((CssToken::Cdo, used)),
        Token::CDC => Some((CssToken::Cdc, used)),
        _ => None,
    }
}

/// As [`read_named_token`], for the attribute-selector match operators.
#[verifier::external_body]
fn read_matching_token(input: &str, pos: usize) -> (r: Option<(CssToken, usize)>)
    requires
        pos <= input.spec_bytes().len(),
        splits_chars(input.spec_bytes(), pos as int),
    ensures
        r == of_family(css_token_at(input@, pos), TokenFamily::Matching),
        r matches Some((_, n)) ==> token_fits(input@, pos, n),
{
    let mut source = ParserInput::new(&input[pos..]);
    let mut parser = Parser::new(&mut source);
    let token = parser.next_including_whitespace_and_comments().ok()?.clone();
    let used = parser.position().byte_index();
    match token {
        Token::IncludeMatch => Some((CssToken::IncludeMatch, used)),
        Token::DashMatch => Some((CssToken::DashMatch, used)),
        Token::PrefixMatch => Some((CssToken::PrefixMatch, used)),
        Token::SuffixMatch => Some((CssToken::SuffixMatch, used)),
        Token::SubstringMatch => Some((CssToken::SubstringMatch, used)),
        _ => None,
    }
}

/// As [`read_named_token`], for the tokens that open and close blocks.
#[verifier::external_body]
fn read_bracket_token(input: &str, pos: usize) -> (r: Option<(CssToken, usize)>)
    requires
        pos <= input.spec_bytes().len(),
        splits_chars(input.spec_bytes(), pos as int),
    ensures
        r == of_family(css_token_at(input@, pos), TokenFamily::Bracket),
        r matches Some((_, n)) ==> token_fits(input@, pos, n),
{
    let mut source = ParserInput::new(&input[pos..]);
    let mut parser = Parser::new(&mut source);
    let token = parser.next_including_whitespace_and_comments().ok()?.clone();
    let used = parser.position().byte_index();
    match token {
        Token::ParenthesisBlock => Some((CssToken::ParenthesisBlock, used)),
        Token::SquareBracketBlock => Some((CssToken::SquareBracketBlock, used)),
        Token::CurlyBracketBlock => Some((CssToken::CurlyBracketBlock, used)),
        Token::CloseParenthesis => Some((CssToken::CloseParenthesis, used)),
        Token::CloseSquareBracket => Some((CssToken::CloseSquareBracket, used)),
        Token::CloseCurlyBracket => Some((CssToken::CloseCurlyBracket, used)),
        _ => None,
    }
}

/// The token that starts at byte `pos` of the input, with the number of
/// bytes it takes; `None` at the end of the input.
pub fn read_token(input: &str, pos: usize) -> (r: Option<(CssToken, usize)>)
    requires
        pos <= input.spec_bytes().len(),
        splits_chars(input.spec_bytes(), pos as int),
    ensures
        r == css_token_at(input@, pos),
        r matches Some((_, n)) ==> token_fits(input@, pos, n),
{
    if let Some(t) = read_named_token(input, pos) {
        return Some(t);
    }
    if let Some(t) = read_hashed_token(input, pos) {
        return Some(t);
    }
    if let Some(t) = read_textual_token(input, pos) {
        return Some(t);
    }
    if let Some(t) = read_numeric_token(input, pos) {
        return Some(t);
    }
    if let Some(t) = read_dimension_token(input, pos) {
        return Some(t);
    }
    if let Some(t) = read_punctuation_token(input, pos) {
        return Some(t);
    }
    if let Some(t) = read_matching_token(input, pos) {
        return Some(t);
    }
    read_bracket_token(input, pos)
}

/// The tokens of `input` from byte `pos` on, in order, each with its span.
pub open spec fn tokens_from(input: Seq<char>, pos: int) -> Seq<SpannedToken>
    decreases encode_utf8(input).len() - pos,
{
    if pos < 0 || pos >= encode_utf8(input).len() {
        Seq::empty()
    } else {
        match css_token_at(input, pos as usize) {
            Some((t, n)) => if 0 < n && pos + n <= encode_utf8(input).len() {
                seq![SpannedToken { token: t, start: pos as usize, end: (pos + n) as usize }] + tokens_from(input, pos + n)
            } else {
                Seq::empty()
            },
            None => Seq::empty(),
        }
    }
}

/// The tokens of a stylesheet text, in order.
pub open spec fn tokens_of(input: Seq<char>) -> Seq<SpannedToken> {
    tokens_from(input, 0)
}

/// Every token of the sequence starts and ends between two characters of
/// `input`, and each ends before the next begins.
pub open spec fn spans_in(input: Seq<char>, tokens: Seq<SpannedToken>) -> bool {
    &&& forall|i: int| 0 <= i < tokens.len() ==> {
        &&& #[trigger] tokens[i].start < tokens[i].end <= encode_utf8(input).len()
        &&& splits_chars(encode_utf8(input), tokens[i].start as int)
        &&& splits_chars(encode_utf8(input), tokens[i].end as int)
    }
    &&& forall|i: int, k: int| 0 <= i < k < tokens.len() ==> #[trigger] tokens[i].end <= #[trigger] tokens[k].start
}

/// Splits a text into its tokens.
pub fn tokenize(input: &str) -> (r: Vec<SpannedToken>)
    ensures
        r@ == tokens_of(input@),
        spans_in(input@, r@),
{
    let len = input.as_bytes().len();
    let mut tokens: Vec<SpannedToken> = Vec::new();
    let mut pos: usize = 0;
    loop
        invariant
            len == input.spec_bytes().len(),
            pos <= len,
            splits_chars(input.spec_bytes(), pos as int),
            tokens@ + tokens_from(input@, pos as int) == tokens_of(input@),
            spans_in(input@, tokens@),
            forall|i: int| 0 <= i < tokens@.len() ==> #[trigger] tokens@[i].end <= pos,
        decreases len - pos,
    {
        if pos == len {
            proof {
                assert(tokens_from(input@, pos as int) =~= Seq::<SpannedToken>::empty());
                assert(tokens@ + Seq::<SpannedToken>::empty() =~= tokens@);
            }
            return tokens;
        }
        match read_token(input, pos) {
            Some((token, n)) => {
                let ghost old_tokens = tokens@;
                tokens.push(SpannedToken { token, start: pos, end: pos + n });
                proof {
                    assert(tokens@ + tokens_from(input@, (pos + n) as int) =~= old_tokens + tokens_from(input@, pos as int));
                }
                pos = pos + n;
            },
            None => {
                proof {
                    assert(tokens_from(input@, pos as int) =~= Seq::<SpannedToken>::empty());
                    assert(tokens@ + Seq::<SpannedToken>::empty() =~= tokens@);
                }
                return tokens;
            },
        }
    }
}

} // verus!
