//! Errors of the CSS parsers, and the bookkeeping of reported errors.

use vstd::prelude::*;

use crate::dom::bytes_of;
use crate::style::Value;
use crate::tokenizer::CssToken;
use vstd::string::StringExecFns;

verus! {

/// The errors that the CSS syntax itself reports.
#[derive(Clone, Debug, PartialEq, Eq)]
pub enum BasicParseErrorKind {
    /// A token that the grammar does not allow where it stands.
    UnexpectedToken(CssToken),
    /// The input ended where the grammar expected more.
    EndOfInput,
}

/// The errors that the style grammars report.
#[derive(Clone, Debug, PartialEq, Eq)]
pub enum RetinaStyleParseError {
    /// A colour of a kind that the engine does not keep.
    ColorUnknownValue,
    ComponentListUnknownKinds(Vec<Value>),
    ExpectedIdentifierAsPropertyValue,
    FloatUnknownKeyword(String),
    FontKerningUnknownKeyword(String),
    FontStyleUnknownKeyword(String),
    FontVariantLigaturesUnknownKeyword(String),
    ImageUnexpectedFunction(String),
    ImageUnexpectedToken(CssToken),
    LengthUnexpectedToken(CssToken),
    LengthUnknownIdentifier(String),
    LengthUnknownUnit(String),
    LineStyleExpectedKeyword,
    LineStyleUnexpectedEof,
    LineStyleUnknownKeyword,
    MediaPreludeUnknownType(String),
    UnexpectedEofBasicColorKeyword,
    UnknownAtRule(String),
    UnknownBasicColorKeyword,
    UnknownKeyword(String),
    UnknownSelector(CssToken),
    UnknownSelectorPseudoClass(String),
    UnknownValue(Option<CssToken>),
    UnknownWhiteSpaceKeyword,
    AttributeSelectorExpectedIdentifierAsAttributeName(CssToken),
    AttributeSelectorUnknownOperatorName(CssToken),
    AtFontFaceInvalidProperty(String),
}

/// An error of a style parser.
#[derive(Clone, Debug, PartialEq, Eq)]
pub enum ParseError {
    Basic(BasicParseErrorKind),
    Custom(RetinaStyleParseError),
}

/// An error as the contracts see it: the values of an unknown component
/// list as a sequence.
pub enum ParseErrorView {
    Basic(BasicParseErrorKind),
    Custom(RetinaStyleParseError),
    UnknownKinds(Seq<Value>),
}

impl View for ParseError {
    type V = ParseErrorView;

    open spec fn view(&self) -> ParseErrorView {
        match self {
            ParseError::Custom(RetinaStyleParseError::ComponentListUnknownKinds(values)) => ParseErrorView::UnknownKinds(
                values@,
            ),
            ParseError::Basic(b) => ParseErrorView::Basic(*b),
            ParseError::Custom(c) => ParseErrorView::Custom(*c),
        }
    }
}

/// A parse result as the contracts see it.
pub open spec fn outcome<T: View>(r: Result<(T, usize), ParseError>) -> Result<(T::V, usize), ParseErrorView> {
    match r {
        Ok((v, k)) => Ok((v@, k)),
        Err(e) => Err(e@),
    }
}

/// Show at most 20 error messages, to prevent the console from being spammed.
pub const MAXIMUM_ERRORS_TO_DISPLAY: usize = 20;

/// Counts the parse errors of one stylesheet, and decides which of them are
/// shown.
#[derive(Clone, Copy, Debug, PartialEq, Eq, Structural)]
pub struct Context {
    pub error_count: usize,
}

impl Context {
    pub fn new() -> (r: Context)
        ensures
            r.error_count == 0,
    {
        Context { error_count: 0 }
    }

    /// Counts one more error, and says whether it is to be shown: the first
    /// twenty are.
    pub fn parse_error(&mut self) -> (shown: bool)
        requires
            old(self).error_count < usize::MAX,
        ensures
            final(self).error_count == old(self).error_count + 1,
            shown == (final(self).error_count <= MAXIMUM_ERRORS_TO_DISPLAY),
    {
        self.error_count = self.error_count + 1;
        self.error_count <= MAXIMUM_ERRORS_TO_DISPLAY
    }

    /// The number of errors that were not shown, and the word that the
    /// summary uses for them; `None` when every error was shown. The word is
    /// "error" for one skipped error and "skipped" for more, so that the
    /// summary of three reads "3 skipped skipped": this is what the engine
    /// has always logged, and it is kept as it is.
    pub fn skipped_errors(&self) -> (r: Option<(usize, &'static str)>)
        ensures
            self.error_count <= MAXIMUM_ERRORS_TO_DISPLAY ==> r is None,
            self.error_count > MAXIMUM_ERRORS_TO_DISPLAY ==> (r matches Some((n, w)) && n == self.error_count
                - MAXIMUM_ERRORS_TO_DISPLAY && (n == 1 ==> w@ == "error"@) && (n != 1 ==> w@ == "skipped"@)),
    {
        if self.error_count <= MAXIMUM_ERRORS_TO_DISPLAY {
            return None;
        }
        let errors_skipped = self.error_count - MAXIMUM_ERRORS_TO_DISPLAY;
        let word = if errors_skipped == 1 { "error" } else { "skipped" };
        Some((errors_skipped, word))
    }
}

/// The number of bytes of a text.
pub open spec fn text_len(s: String) -> nat {
    bytes_of(s@).len()
}

/// The width that an error marker gives a token: the length of its text,
/// of the unit of a dimension, the length of the punctuation, and one
/// column for a number, a percentage and a single character. `<!--` and
/// `-->` both count three columns, though `<!--` takes four: the marker the
/// engine draws under a `<!--` is one column short, and is kept so.
pub open spec fn token_len(t: CssToken) -> nat {
    match t {
        CssToken::AtKeyword(v) => text_len(v),
        CssToken::BadString(v) => text_len(v),
        CssToken::BadUrl(v) => text_len(v),
        CssToken::Comment(v) => text_len(v),
        CssToken::Function(v) => text_len(v),
        CssToken::Hash(v) => text_len(v),
        CssToken::IdHash(v) => text_len(v),
        CssToken::Ident(v) => text_len(v),
        CssToken::QuotedString(v) => text_len(v),
        CssToken::UnquotedUrl(v) => text_len(v),
        CssToken::WhiteSpace(v) => text_len(v),
        CssToken::Dimension { unit, .. } => text_len(unit),
        CssToken::Cdc | CssToken::Cdo => 3,
        CssToken::DashMatch | CssToken::IncludeMatch | CssToken::PrefixMatch | CssToken::SubstringMatch
        | CssToken::SuffixMatch => 2,
        _ => 1,
    }
}

fn string_len(s: &String) -> (r: usize)
    ensures
        r == text_len(*s),
{
    s.as_str().as_bytes().len()
}

impl CssToken {
    /// The width of the token in an error marker.
    pub fn length(&self) -> (r: usize)
        ensures
            r == token_len(*self),
    {
        match self {
            CssToken::AtKeyword(v) => string_len(v),
            CssToken::BadString(v) => string_len(v),
            CssToken::BadUrl(v) => string_len(v),
            CssToken::Comment(v) => string_len(v),
            CssToken::Function(v) => string_len(v),
            CssToken::Hash(v) => string_len(v),
            CssToken::IdHash(v) => string_len(v),
            CssToken::Ident(v) => string_len(v),
            CssToken::QuotedString(v) => string_len(v),
            CssToken::UnquotedUrl(v) => string_len(v),
            CssToken::WhiteSpace(v) => string_len(v),
            CssToken::Dimension { unit, .. } => string_len(unit),
            CssToken::Cdc | CssToken::Cdo => 3,
            CssToken::DashMatch | CssToken::IncludeMatch | CssToken::PrefixMatch | CssToken::SubstringMatch
            | CssToken::SuffixMatch => 2,
            _ => 1,
        }
    }
}

/// A better place for the marker of an error: a value that is no known
/// value is marked over the whole token that was read, which ends where
/// the error is reported (a function from before its name).
pub open spec fn improved_caret(space_count: int, caret_count: int, error: ParseError) -> Option<(int, int)> {
    match error {
        ParseError::Custom(RetinaStyleParseError::UnknownValue(Some(t))) => match t {
            CssToken::Function(f) => Some((space_count - text_len(f) - 1, caret_count + text_len(f) - 1)),
            _ => Some((space_count - token_len(t), caret_count + token_len(t) - 1)),
        },
        _ => None,
    }
}

/// The improved place fits in the line: the marker starts at or after its
/// first column and takes at least one column.
pub open spec fn improvement_fits(space_count: int, caret_count: int, error: ParseError) -> bool {
    match improved_caret(space_count, caret_count, error) {
        Some((s, c)) => 0 <= s && 1 <= c && c + 1 <= usize::MAX,
        None => true,
    }
}

/// A better place for the marker of an error.
pub fn improve_caret_location(space_count: usize, caret_count: usize, line: &str, error: &ParseError) -> (r: Option<
    (usize, usize),
>)
    requires
        improvement_fits(space_count as int, caret_count as int, *error),
    ensures
        match (r, improved_caret(space_count as int, caret_count as int, *error)) {
            (Some((s, c)), Some((es, ec))) => s == es && c == ec,
            (None, None) => true,
            _ => false,
        },
{
    match error {
        ParseError::Custom(RetinaStyleParseError::UnknownValue(Some(t))) => match t {
            CssToken::Function(f) => {
                let len = string_len(f);
                Some((space_count - len - 1, caret_count + len - 1))
            },
            _ => {
                let len = t.length();
                Some((space_count - len, caret_count + len - 1))
            },
        },
        _ => None,
    }
}

/// Where the marker of an error at `column` (counted from one; zero for an
/// unknown column) starts, and how many columns it takes: one for most
/// errors, the width of the token for an unexpected one; then improved as
/// `improved_caret` says.
pub open spec fn caret_span(column: u32, error: ParseError) -> (int, int) {
    let spaces: int = if column == 0 { 0 } else { column - 1 };
    let carets: int = match error {
        ParseError::Basic(BasicParseErrorKind::UnexpectedToken(t)) => token_len(t) as int,
        _ => 1,
    };
    match improved_caret(spaces, carets, error) {
        Some(p) => p,
        None => (spaces, carets),
    }
}

/// The marker of an error fits: it starts at or after the first column, and
/// takes at least one column.
pub open spec fn caret_fits(column: u32, error: ParseError) -> bool {
    let spaces: int = if column == 0 { 0 } else { column - 1 };
    let carets: int = match error {
        ParseError::Basic(BasicParseErrorKind::UnexpectedToken(t)) => token_len(t) as int,
        _ => 1,
    };
    &&& improvement_fits(spaces, carets, error)
    &&& caret_span(column, error).1 >= 1
}

/// The line that marks an error under the source line: spaces up to the
/// error, a caret, and a tilde for each further column it takes.
pub open spec fn marker_line(spaces: nat, carets: nat) -> Seq<char>
    decreases spaces + carets,
{
    if spaces > 0 {
        " "@ + marker_line((spaces - 1) as nat, carets)
    } else if carets <= 1 {
        "^"@
    } else {
        marker_line(0, (carets - 1) as nat) + "~"@
    }
}

/// The marker line of an error at `column`.
pub fn error_marker(column: u32, error: &ParseError) -> (r: String)
    requires
        caret_fits(column, *error),
    ensures
        r@ == marker_line(caret_span(column, *error).0 as nat, caret_span(column, *error).1 as nat),
{
    let space_count: usize = if column == 0 { 0 } else { (column - 1) as usize };
    let caret_count: usize = match error {
        ParseError::Basic(BasicParseErrorKind::UnexpectedToken(t)) => t.length(),
        _ => 1,
    };
    let (spaces, carets) = match improve_caret_location(space_count, caret_count, "", error) {
        Some(p) => p,
        None => (space_count, caret_count),
    };
    let mut out = String::new();
    let mut k: usize = 0;
    while k < spaces
        invariant
            k <= spaces,
            out@ + marker_line((spaces - k) as nat, carets as nat) == marker_line(spaces as nat, carets as nat),
        decreases spaces - k,
    {
        let ghost before = out@;
        out.append(" ");
        proof {
            assert(before + marker_line((spaces - k) as nat, carets as nat) =~= before + " "@ + marker_line(
                (spaces - k - 1) as nat,
                carets as nat,
            ));
        }
        k = k + 1;
    }
    let ghost before_caret = out@;
    out.append("^");
    proof {
        assert(before_caret + marker_line(0, carets as nat) == marker_line(spaces as nat, carets as nat));
        lemma_marker_tail(carets as nat);
        assert(out@ + tildes((carets - 1) as nat) =~= before_caret + marker_line(0, carets as nat));
    }
    let mut m: usize = 1;
    while m < carets
        invariant
            1 <= m <= carets,
            out@ + tildes((carets - m) as nat) == marker_line(spaces as nat, carets as nat),
        decreases carets - m,
    {
        let ghost before = out@;
        out.append("~");
        proof {
            lemma_tildes_front((carets - m) as nat);
            assert(before + tildes((carets - m) as nat) =~= before + "~"@ + tildes((carets - m - 1) as nat));
        }
        m = m + 1;
    }
    proof {
        assert(out@ + tildes(0) =~= out@);
    }
    out
}

/// Whether the marker of an error at `column` fits in its line, so that
/// `error_marker` can draw it.
pub fn error_marker_fits(column: u32, error: &ParseError) -> (r: bool)
    ensures
        r == caret_fits(column, *error),
{
    let space_count: usize = if column == 0 { 0 } else { (column - 1) as usize };
    let caret_count: usize = match error {
        ParseError::Basic(BasicParseErrorKind::UnexpectedToken(t)) => t.length(),
        _ => 1,
    };
    match error {
        ParseError::Custom(RetinaStyleParseError::UnknownValue(Some(t))) => {
            let len = match t {
                CssToken::Function(f) => string_len(f),
                _ => t.length(),
            };
            let extra: usize = match t {
                CssToken::Function(_) => 1,
                _ => 0,
            };
            if len > space_count || extra > space_count - len {
                return false;
            }
            len >= 1 || caret_count >= 2
        },
        _ => caret_count >= 1,
    }
}

/// `n` tildes.
pub open spec fn tildes(n: nat) -> Seq<char>
    decreases n,
{
    if n == 0 {
        Seq::empty()
    } else {
        tildes((n - 1) as nat) + "~"@
    }
}

proof fn lemma_tildes_front(n: nat)
    requires
        n >= 1,
    ensures
        tildes(n) == "~"@ + tildes((n - 1) as nat),
    decreases n,
{
    if n > 1 {
        lemma_tildes_front((n - 1) as nat);
        assert(tildes(n) =~= "~"@ + tildes((n - 1) as nat));
    } else {
        assert(tildes(1) =~= "~"@ + tildes(0));
    }
}

proof fn lemma_marker_tail(c: nat)
    requires
        c >= 1,
    ensures
        marker_line(0, c) == "^"@ + tildes((c - 1) as nat),
    decreases c,
{
    if c > 1 {
        lemma_marker_tail((c - 1) as nat);
        assert(marker_line(0, c) =~= "^"@ + tildes((c - 1) as nat));
    } else {
        assert("^"@ + tildes(0) =~= "^"@);
    }
}

} // verus!
