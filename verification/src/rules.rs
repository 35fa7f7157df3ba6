//! The grammar of stylesheets: rules, the declaration blocks of style and
//! `@font-face` rules, and `@media` rules with the stylesheets they hold.

use vstd::prelude::*;

use crate::declarations::{declared_value_at, parse_declared_value, unexpected_error_at};
use crate::error::{ParseError, ParseErrorView, RetinaStyleParseError};
use crate::fontface::{FontFaceDeclarationView, font_face_declared_at, parse_font_face_declared};
use crate::dom::bytes_of;
use crate::selector_match::str_eq_ignore_ascii_case;
use crate::text::lower_bytes;
use crate::selectors::{parse_selectors, selectors_at};
use crate::style::{
    AtMediaRule, CascadeOrigin, CssFontFaceAtRule, CssFontFaceDeclaration, Declaration, MediaQuery, MediaType,
    Property, Rule, Selector, SelectorList, StyleRule, Stylesheet, ValueView,
};
use crate::syntax::{
    BlockKind, Delimiter, after_block, block_end, exhausted, find_block_end, find_delimiter, find_delimiter_index,
    is_exhausted, opener_kind, skip_block, skip_trivia, skip_whitespace,
};
use crate::tokenizer::{CssToken, SpannedToken, tokenize, tokens_of};
use crate::values::{expect_ident, ident_at, in_range, keyword_is, next_sig, nxt, unexpected_at, well_placed};

verus! {

/// A rule as the contracts see it.
pub enum RuleView {
    FontFace(Seq<FontFaceDeclarationView>),
    Media { queries: Seq<MediaQuery>, rules: Seq<RuleView> },
    Style { cascade_origin: CascadeOrigin, selectors: Seq<Selector>, declarations: Seq<(Property, ValueView)> },
}

pub open spec fn decl_views(ds: Seq<Declaration>) -> Seq<(Property, ValueView)> {
    ds.map_values(|d: Declaration| d@)
}

pub open spec fn font_face_views(ds: Seq<CssFontFaceDeclaration>) -> Seq<FontFaceDeclarationView> {
    ds.map_values(|d: CssFontFaceDeclaration| d@)
}

/// The view of a rule; a media rule is seen with the views of the rules of
/// its stylesheet.
pub open spec fn rule_view(r: Rule) -> RuleView
    decreases r,
{
    match r {
        Rule::AtFontFace(f) => RuleView::FontFace(font_face_views(f.declarations@)),
        Rule::AtMedia(m) => RuleView::Media {
            queries: m.media_query_list@,
            rules: Seq::new(
                m.stylesheet.rules@.len(),
                |k: int|
                    if 0 <= k < m.stylesheet.rules@.len() {
                        rule_view(m.stylesheet.rules@[k])
                    } else {
                        RuleView::FontFace(Seq::empty())
                    },
            ),
        },
        Rule::Style(s) => RuleView::Style {
            cascade_origin: s.cascade_origin,
            selectors: s.selector_list@,
            declarations: decl_views(s.declarations@),
        },
    }
}

/// The views of a sequence of rules.
pub open spec fn views_of(rs: Seq<Rule>) -> Seq<RuleView> {
    Seq::new(rs.len(), |k: int| rule_view(rs[k]))
}

impl View for Rule {
    type V = RuleView;

    open spec fn view(&self) -> RuleView {
        rule_view(*self)
    }
}

impl View for Stylesheet {
    type V = Seq<RuleView>;

    open spec fn view(&self) -> Seq<RuleView> {
        views_of(self.rules@)
    }
}

/// The index after the token at `j`, and after its block when it opens one.
pub open spec fn after_token(ts: Seq<SpannedToken>, j: usize, stop: usize) -> usize {
    match opener_kind(ts[j as int].token) {
        Some(k) => after_block(ts, j + 1, stop as int, k) as usize,
        None => (j + 1) as usize,
    }
}

/// The index after the next semicolon at this nesting level, or `stop`.
pub open spec fn past_semicolon(ts: Seq<SpannedToken>, k: usize, stop: usize) -> usize {
    let s = find_delimiter(ts, k as int, stop as int, Delimiter::Semicolon);
    if s < stop { (s + 1) as usize } else { s as usize }
}

/// Where reading goes on after an at-rule whose prelude starts at `k`: past
/// the semicolon or the block that ends the prelude.
pub open spec fn past_at_rule(ts: Seq<SpannedToken>, k: usize, stop: usize) -> usize {
    let d = find_delimiter(ts, k as int, stop as int, Delimiter::SemicolonOrCurlyBracketBlock);
    if d < stop {
        if ts[d].token is CurlyBracketBlock {
            after_block(ts, d + 1, stop as int, BlockKind::CurlyBracket) as usize
        } else {
            (d + 1) as usize
        }
    } else {
        d as usize
    }
}

fn token_end(ts: &Vec<SpannedToken>, j: usize, stop: usize) -> (r: usize)
    requires
        j < stop <= ts@.len(),
    ensures
        r == after_token(ts@, j, stop),
        j < r <= stop,
{
    match &ts[j].token {
        CssToken::Function(..) | CssToken::ParenthesisBlock => skip_block(ts, j + 1, stop, BlockKind::Parenthesis),
        CssToken::SquareBracketBlock => skip_block(ts, j + 1, stop, BlockKind::SquareBracket),
        CssToken::CurlyBracketBlock => skip_block(ts, j + 1, stop, BlockKind::CurlyBracket),
        _ => j + 1,
    }
}

fn skip_past_semicolon(ts: &Vec<SpannedToken>, k: usize, stop: usize) -> (r: usize)
    requires
        k <= stop <= ts@.len(),
    ensures
        r == past_semicolon(ts@, k, stop),
        k <= r <= stop,
{
    let s = find_delimiter_index(ts, k, stop, Delimiter::Semicolon);
    if s < stop { s + 1 } else { s }
}

fn skip_past_at_rule(ts: &Vec<SpannedToken>, k: usize, stop: usize) -> (r: usize)
    requires
        k <= stop <= ts@.len(),
    ensures
        r == past_at_rule(ts@, k, stop),
        k <= r <= stop,
{
    let d = find_delimiter_index(ts, k, stop, Delimiter::SemicolonOrCurlyBracketBlock);
    if d < stop {
        if matches!(ts[d].token, CssToken::CurlyBracketBlock) {
            skip_block(ts, d + 1, stop, BlockKind::CurlyBracket)
        } else {
            d + 1
        }
    } else {
        d
    }
}

/// A declaration after its name: a colon and the value.
pub open spec fn declaration_body_at(src: Seq<char>, ts: Seq<SpannedToken>, k: usize, stop: usize, name: Seq<char>) -> Result<
    (Property, ValueView),
    ParseErrorView,
> {
    match nxt(ts, k, stop) {
        Some((CssToken::Colon, _, a)) => declared_value_at(src, ts, a, stop, name),
        _ => Err(unexpected_at(ts, k, stop)@),
    }
}

fn parse_declaration_body(src: &str, ts: &Vec<SpannedToken>, k: usize, stop: usize, name: &str) -> (r: Result<
    Declaration,
    ParseError,
>)
    requires
        well_placed(src@, ts@, k, stop),
    ensures
        match r {
            Ok(d) => declaration_body_at(src@, ts@, k, stop, name@) == Ok::<(Property, ValueView), ParseErrorView>(d@),
            Err(e) => declaration_body_at(src@, ts@, k, stop, name@) is Err,
        },
{
    match next_sig(ts, k, stop) {
        Some((CssToken::Colon, _, a)) => parse_declared_value(src, ts, a, stop, name),
        _ => Err(unexpected_error_at(ts, k, stop)),
    }
}

/// The declarations of a style rule's block `ts[i..stop]`, after `acc`: a
/// declaration that does not read is left out, and reading goes on after
/// its semicolon; at-rules and stray tokens are passed over likewise.
pub open spec fn declarations_from(
    src: Seq<char>,
    ts: Seq<SpannedToken>,
    i: usize,
    stop: usize,
    acc: Seq<(Property, ValueView)>,
) -> Seq<(Property, ValueView)>
    decreases stop - i,
{
    let j = skip_trivia(ts, i as int, stop as int);
    if !in_range(ts, i, stop) || !(i <= j) || j >= stop {
        acc
    } else {
        let (next, item) = match ts[j].token {
            CssToken::CloseCurlyBracket | CssToken::Semicolon => ((j + 1) as usize, None),
            CssToken::AtKeyword(_) => (past_at_rule(ts, (j + 1) as usize, stop), None),
            CssToken::Ident(name) => {
                let s = find_delimiter(ts, j + 1, stop as int, Delimiter::Semicolon);
                (
                    (if s < stop { s + 1 } else { s }) as usize,
                    match declaration_body_at(src, ts, (j + 1) as usize, s as usize, name@) {
                        Ok(d) => Some(d),
                        Err(_) => None,
                    },
                )
            },
            _ => (past_semicolon(ts, after_token(ts, j as usize, stop), stop), None),
        };
        let acc2 = match item {
            Some(d) => acc.push(d),
            None => acc,
        };
        if i < next <= stop {
            declarations_from(src, ts, next, stop, acc2)
        } else {
            acc2
        }
    }
}

/// Reads the declarations of a style rule's block.
pub fn parse_declaration_list(src: &str, ts: &Vec<SpannedToken>, i: usize, stop: usize) -> (r: Vec<Declaration>)
    requires
        well_placed(src@, ts@, i, stop),
    ensures
        decl_views(r@) == declarations_from(src@, ts@, i, stop, Seq::empty()),
{
    let mut decls: Vec<Declaration> = Vec::new();
    let mut pos = i;
    proof {
        assert(decl_views(decls@) =~= Seq::<(Property, ValueView)>::empty());
    }
    loop
        invariant
            well_placed(src@, ts@, pos, stop),
            i <= pos,
            declarations_from(src@, ts@, i, stop, Seq::empty()) == declarations_from(src@, ts@, pos, stop, decl_views(decls@)),
        decreases stop - pos,
    {
        let j = skip_whitespace(ts, pos, stop);
        if j >= stop {
            return decls;
        }
        let ghost before = decls@;
        let next = match &ts[j].token {
            CssToken::CloseCurlyBracket | CssToken::Semicolon => j + 1,
            CssToken::AtKeyword(_) => skip_past_at_rule(ts, j + 1, stop),
            CssToken::Ident(name) => {
                let s = find_delimiter_index(ts, j + 1, stop, Delimiter::Semicolon);
                match parse_declaration_body(src, ts, j + 1, s, name.as_str()) {
                    Ok(d) => {
                        decls.push(d);
                        proof {
                            assert(decl_views(decls@) =~= decl_views(before).push(d@));
                        }
                    },
                    Err(_) => {},
                }
                if s < stop { s + 1 } else { s }
            },
            _ => {
                let a = token_end(ts, j, stop);
                skip_past_semicolon(ts, a, stop)
            },
        };
        pos = next;
    }
}

/// The declarations of an `@font-face` block `ts[i..stop]`, after `acc`,
/// read as `declarations_from` reads those of a style rule.
pub open spec fn font_face_declarations_from(
    src: Seq<char>,
    ts: Seq<SpannedToken>,
    i: usize,
    stop: usize,
    acc: Seq<FontFaceDeclarationView>,
) -> Seq<FontFaceDeclarationView>
    decreases stop - i,
{
    let j = skip_trivia(ts, i as int, stop as int);
    if !in_range(ts, i, stop) || !(i <= j) || j >= stop {
        acc
    } else {
        let (next, item) = match ts[j].token {
            CssToken::CloseCurlyBracket | CssToken::Semicolon => ((j + 1) as usize, None),
            CssToken::AtKeyword(_) => (past_at_rule(ts, (j + 1) as usize, stop), None),
            CssToken::Ident(name) => {
                let s = find_delimiter(ts, j + 1, stop as int, Delimiter::Semicolon);
                (
                    (if s < stop { s + 1 } else { s }) as usize,
                    match nxt(ts, (j + 1) as usize, s as usize) {
                        Some((CssToken::Colon, _, a)) => match font_face_declared_at(src, ts, a, s as usize, name) {
                            Ok(d) => Some(d),
                            Err(_) => None,
                        },
                        _ => None,
                    },
                )
            },
            _ => (past_semicolon(ts, after_token(ts, j as usize, stop), stop), None),
        };
        let acc2 = match item {
            Some(d) => acc.push(d),
            None => acc,
        };
        if i < next <= stop {
            font_face_declarations_from(src, ts, next, stop, acc2)
        } else {
            acc2
        }
    }
}

/// Reads the declarations of an `@font-face` block.
pub fn parse_font_face_block(src: &str, ts: &Vec<SpannedToken>, i: usize, stop: usize) -> (r: Vec<CssFontFaceDeclaration>)
    requires
        well_placed(src@, ts@, i, stop),
    ensures
        font_face_views(r@) == font_face_declarations_from(src@, ts@, i, stop, Seq::empty()),
{
    let mut decls: Vec<CssFontFaceDeclaration> = Vec::new();
    let mut pos = i;
    proof {
        assert(font_face_views(decls@) =~= Seq::<FontFaceDeclarationView>::empty());
    }
    loop
        invariant
            well_placed(src@, ts@, pos, stop),
            i <= pos,
            font_face_declarations_from(src@, ts@, i, stop, Seq::empty()) == font_face_declarations_from(
                src@,
                ts@,
                pos,
                stop,
                font_face_views(decls@),
            ),
        decreases stop - pos,
    {
        let j = skip_whitespace(ts, pos, stop);
        if j >= stop {
            return decls;
        }
        let ghost before = decls@;
        let next = match &ts[j].token {
            CssToken::CloseCurlyBracket | CssToken::Semicolon => j + 1,
            CssToken::AtKeyword(_) => skip_past_at_rule(ts, j + 1, stop),
            CssToken::Ident(name) => {
                let s = find_delimiter_index(ts, j + 1, stop, Delimiter::Semicolon);
                match next_sig(ts, j + 1, s) {
                    Some((CssToken::Colon, _, a)) => match parse_font_face_declared(src, ts, a, s, name.clone()) {
                        Ok(d) => {
                            decls.push(d);
                            proof {
                                assert(font_face_views(decls@) =~= font_face_views(before).push(d@));
                            }
                        },
                        Err(_) => {},
                    },
                    _ => {},
                }
                if s < stop { s + 1 } else { s }
            },
            _ => {
                let a = token_end(ts, j, stop);
                skip_past_semicolon(ts, a, stop)
            },
        };
        pos = next;
    }
}

/// What the prelude of an at-rule announces.
#[derive(Clone, Debug, PartialEq, Eq)]
pub enum AtRulePrelude {
    FontFace,
    Media(Vec<MediaQuery>),
}

/// The prelude of an at-rule as the contracts see it.
pub enum AtRulePreludeView {
    FontFace,
    Media(Seq<MediaQuery>),
}

impl View for AtRulePrelude {
    type V = AtRulePreludeView;

    open spec fn view(&self) -> AtRulePreludeView {
        match self {
            AtRulePrelude::FontFace => AtRulePreludeView::FontFace,
            AtRulePrelude::Media(q) => AtRulePreludeView::Media(q@),
        }
    }
}

/// The media type that a keyword names, in any ASCII case.
pub open spec fn media_type_named(s: Seq<char>) -> Option<MediaType> {
    if keyword_is(s, "all"@) {
        Some(MediaType::All)
    } else if keyword_is(s, "print"@) {
        Some(MediaType::Print)
    } else if keyword_is(s, "screen"@) {
        Some(MediaType::Screen)
    } else {
        None
    }
}

/// The prelude of an at-rule named `name` in `ts[k..stop]`: `@media` takes
/// one media type, `@font-face` nothing; other at-rules are unknown.
pub open spec fn at_rule_prelude_at(ts: Seq<SpannedToken>, k: usize, stop: usize, name: String) -> Result<
    AtRulePreludeView,
    ParseError,
> {
    if keyword_is(name@, "media"@) {
        match ident_at(ts, k, stop) {
            Err(e) => Err(e),
            Ok((ty, a)) => match media_type_named(ty@) {
                None => Err(ParseError::Custom(RetinaStyleParseError::MediaPreludeUnknownType(ty))),
                Some(m) => if exhausted(ts, a as int, stop as int) {
                    Ok(AtRulePreludeView::Media(seq![MediaQuery::Type(m)]))
                } else {
                    Err(unexpected_at(ts, a, stop))
                },
            },
        }
    } else if keyword_is(name@, "font-face"@) {
        if exhausted(ts, k as int, stop as int) {
            Ok(AtRulePreludeView::FontFace)
        } else {
            Err(unexpected_at(ts, k, stop))
        }
    } else {
        Err(ParseError::Custom(RetinaStyleParseError::UnknownAtRule(name)))
    }
}

/// Reads the prelude of an at-rule named `name`.
pub fn parse_at_rule_prelude(ts: &Vec<SpannedToken>, k: usize, stop: usize, name: &String) -> (r: Result<
    AtRulePrelude,
    ParseError,
>)
    requires
        in_range(ts@, k, stop),
    ensures
        match (r, at_rule_prelude_at(ts@, k, stop, *name)) {
            (Ok(p), Ok(v)) => p@ == v,
            (Err(e), Err(f)) => e == f,
            _ => false,
        },
{
    if str_eq_ignore_ascii_case(name.as_str(), "media") {
        let (ty, a) = expect_ident(ts, k, stop)?;
        let t = ty.as_str();
        let m = if str_eq_ignore_ascii_case(t, "all") {
            MediaType::All
        } else if str_eq_ignore_ascii_case(t, "print") {
            MediaType::Print
        } else if str_eq_ignore_ascii_case(t, "screen") {
            MediaType::Screen
        } else {
            return Err(ParseError::Custom(RetinaStyleParseError::MediaPreludeUnknownType(ty)));
        };
        if is_exhausted(ts, a, stop) {
            let mut queries: Vec<MediaQuery> = Vec::new();
            queries.push(MediaQuery::Type(m));
            proof {
                assert(queries@ =~= seq![MediaQuery::Type(m)]);
            }
            Ok(AtRulePrelude::Media(queries))
        } else {
            Err(unexpected_error_at(ts, a, stop))
        }
    } else if str_eq_ignore_ascii_case(name.as_str(), "font-face") {
        if is_exhausted(ts, k, stop) {
            Ok(AtRulePrelude::FontFace)
        } else {
            Err(unexpected_error_at(ts, k, stop))
        }
    } else {
        Err(ParseError::Custom(RetinaStyleParseError::UnknownAtRule(name.clone())))
    }
}

/// Tokens that a stylesheet passes over between rules: whitespace,
/// comments, and the `<!--` and `-->` of old inline stylesheets.
pub open spec fn is_rule_trivia(t: CssToken) -> bool {
    t is WhiteSpace || t is Comment || t is Cdo || t is Cdc
}

/// The index of the first token from `i` on that starts a rule.
pub open spec fn skip_rule_trivia(ts: Seq<SpannedToken>, i: int, stop: int) -> int
    decreases stop - i,
{
    if 0 <= i < stop && is_rule_trivia(ts[i].token) {
        skip_rule_trivia(ts, i + 1, stop)
    } else {
        i
    }
}

fn rule_trivia(t: &CssToken) -> (r: bool)
    ensures
        r == is_rule_trivia(*t),
{
    match t {
        CssToken::WhiteSpace(..) | CssToken::Comment(..) | CssToken::Cdo | CssToken::Cdc => true,
        _ => false,
    }
}

fn skip_to_rule(ts: &Vec<SpannedToken>, i: usize, stop: usize) -> (r: usize)
    requires
        i <= stop <= ts@.len(),
    ensures
        r as int == skip_rule_trivia(ts@, i as int, stop as int),
        i <= r <= stop,
{
    let mut j = i;
    while j < stop && rule_trivia(&ts[j].token)
        invariant
            i <= j <= stop <= ts@.len(),
            skip_rule_trivia(ts@, i as int, stop as int) == skip_rule_trivia(ts@, j as int, stop as int),
        decreases stop - j,
    {
        j = j + 1;
    }
    j
}

/// The rule that starts with the token at `j`, and the index after it. A
/// rule that does not read is `None`, and so is a style rule without
/// declarations; a first rule `@charset` is passed over.
pub open spec fn rule_at(src: Seq<char>, ts: Seq<SpannedToken>, j: usize, stop: usize, origin: CascadeOrigin, first: bool) -> (
    usize,
    Option<RuleView>,
)
    decreases stop - j, 0int,
{
    if !(j < stop <= ts.len()) {
        (stop, None)
    } else {
        match ts[j as int].token {
            CssToken::AtKeyword(name) => if first && keyword_is(name@, "charset"@) {
                (past_at_rule(ts, (j + 1) as usize, stop), None)
            } else {
                let d = find_delimiter(ts, j + 1, stop as int, Delimiter::SemicolonOrCurlyBracketBlock);
                if !(j + 1 <= d <= stop) {
                    (stop, None)
                } else {
                    match at_rule_prelude_at(ts, (j + 1) as usize, d as usize, name) {
                        Err(_) => (past_at_rule(ts, (j + 1) as usize, stop), None),
                        Ok(p) => if d < stop && ts[d].token is CurlyBracketBlock {
                            let e = block_end(ts, d + 1, stop as int, seq![BlockKind::CurlyBracket]);
                            let after = after_block(ts, d + 1, stop as int, BlockKind::CurlyBracket) as usize;
                            if !(d + 1 <= e <= stop) {
                                (stop, None)
                            } else {
                                match p {
                                    AtRulePreludeView::FontFace => (
                                        after,
                                        Some(
                                            RuleView::FontFace(
                                                font_face_declarations_from(src, ts, (d + 1) as usize, e as usize, Seq::empty()),
                                            ),
                                        ),
                                    ),
                                    AtRulePreludeView::Media(queries) => (
                                        after,
                                        Some(
                                            RuleView::Media {
                                                queries,
                                                rules: rules_from(src, ts, (d + 1) as usize, e as usize, origin, true, Seq::empty()),
                                            },
                                        ),
                                    ),
                                }
                            }
                        } else {
                            ((if d < stop { d + 1 } else { d }) as usize, None)
                        },
                    }
                }
            },
            _ => {
                let q = find_delimiter(ts, j as int, stop as int, Delimiter::CurlyBracketBlock);
                if !(j <= q < stop) {
                    (stop, None)
                } else {
                    let e = block_end(ts, q + 1, stop as int, seq![BlockKind::CurlyBracket]);
                    let after = after_block(ts, q + 1, stop as int, BlockKind::CurlyBracket) as usize;
                    match selectors_at(ts, j, q as usize) {
                        Err(_) => (after, None),
                        Ok((selectors, k)) => if !exhausted(ts, k as int, q) || !(q + 1 <= e <= stop) {
                            (after, None)
                        } else {
                            let declarations = declarations_from(src, ts, (q + 1) as usize, e as usize, Seq::empty());
                            if declarations.len() == 0 {
                                (after, None)
                            } else {
                                (after, Some(RuleView::Style { cascade_origin: origin, selectors, declarations }))
                            }
                        },
                    }
                }
            },
        }
    }
}

/// The rules of a stylesheet from `i` on, after `acc`; `first` says that no
/// rule came before.
pub open spec fn rules_from(
    src: Seq<char>,
    ts: Seq<SpannedToken>,
    i: usize,
    stop: usize,
    origin: CascadeOrigin,
    first: bool,
    acc: Seq<RuleView>,
) -> Seq<RuleView>
    decreases stop - i, 1int,
{
    let j = skip_rule_trivia(ts, i as int, stop as int);
    if !in_range(ts, i, stop) || !(i <= j) || j >= stop {
        acc
    } else {
        let (next, rule) = rule_at(src, ts, j as usize, stop, origin, first);
        let acc2 = match rule {
            Some(r) => acc.push(r),
            None => acc,
        };
        if i < next <= stop {
            rules_from(src, ts, next, stop, origin, false, acc2)
        } else {
            acc2
        }
    }
}

/// The views of rules with one more rule at the end.
proof fn views_push(rs: Seq<Rule>, r: Rule)
    ensures
        views_of(rs.push(r)) == views_of(rs).push(rule_view(r)),
{
    assert(views_of(rs.push(r)) =~= views_of(rs).push(rule_view(r)));
}

/// Reads the rule that starts with the token at `j`.
fn parse_rule(src: &str, ts: &Vec<SpannedToken>, j: usize, stop: usize, origin: CascadeOrigin, first: bool) -> (r: (
    usize,
    Option<Rule>,
))
    requires
        well_placed(src@, ts@, j, stop),
        j < stop,
    ensures
        r.0 == rule_at(src@, ts@, j, stop, origin, first).0,
        match (r.1, rule_at(src@, ts@, j, stop, origin, first).1) {
            (Some(x), Some(v)) => rule_view(x) == v,
            (None, None) => true,
            _ => false,
        },
        j < r.0 <= stop,
    decreases stop - j, 0int,
{
    match &ts[j].token {
        CssToken::AtKeyword(name) => {
            if first && str_eq_ignore_ascii_case(name.as_str(), "charset") {
                return (skip_past_at_rule(ts, j + 1, stop), None);
            }
            let d = find_delimiter_index(ts, j + 1, stop, Delimiter::SemicolonOrCurlyBracketBlock);
            match parse_at_rule_prelude(ts, j + 1, d, name) {
                Err(_) => (skip_past_at_rule(ts, j + 1, stop), None),
                Ok(p) => if d < stop && matches!(ts[d].token, CssToken::CurlyBracketBlock) {
                    let e = find_block_end(ts, d + 1, stop, BlockKind::CurlyBracket);
                    let after = skip_block(ts, d + 1, stop, BlockKind::CurlyBracket);
                    match p {
                        AtRulePrelude::FontFace => {
                            let declarations = parse_font_face_block(src, ts, d + 1, e);
                            (after, Some(Rule::AtFontFace(CssFontFaceAtRule { declarations })))
                        },
                        AtRulePrelude::Media(media_query_list) => {
                            let rules = parse_rule_list(src, ts, d + 1, e, origin);
                            let rule = Rule::AtMedia(AtMediaRule { media_query_list, stylesheet: Stylesheet { rules } });
                            proof {
                                assert(rule_view(rule) matches RuleView::Media { rules: v, .. } && v =~= views_of(rules@));
                            }
                            (after, Some(rule))
                        },
                    }
                } else {
                    (if d < stop { d + 1 } else { d }, None)
                },
            }
        },
        _ => {
            let q = find_delimiter_index(ts, j, stop, Delimiter::CurlyBracketBlock);
            if q >= stop {
                return (stop, None);
            }
            let e = find_block_end(ts, q + 1, stop, BlockKind::CurlyBracket);
            let after = skip_block(ts, q + 1, stop, BlockKind::CurlyBracket);
            match parse_selectors(ts, j, q) {
                Err(_) => (after, None),
                Ok((selector_list, k)) => if !is_exhausted(ts, k, q) {
                    (after, None)
                } else {
                    let declarations = parse_declaration_list(src, ts, q + 1, e);
                    if declarations.len() == 0 {
                        (after, None)
                    } else {
                        (after, Some(Rule::Style(StyleRule { cascade_origin: origin, selector_list, declarations })))
                    }
                },
            }
        },
    }
}

/// Reads the rules of a stylesheet.
pub fn parse_rule_list(src: &str, ts: &Vec<SpannedToken>, i: usize, stop: usize, origin: CascadeOrigin) -> (r: Vec<Rule>)
    requires
        well_placed(src@, ts@, i, stop),
    ensures
        views_of(r@) == rules_from(src@, ts@, i, stop, origin, true, Seq::empty()),
    decreases stop - i, 1int,
{
    let mut rules: Vec<Rule> = Vec::new();
    let mut pos = i;
    let mut first = true;
    proof {
        assert(views_of(rules@) =~= Seq::<RuleView>::empty());
    }
    loop
        invariant
            well_placed(src@, ts@, pos, stop),
            i <= pos,
            rules_from(src@, ts@, i, stop, origin, true, Seq::empty()) == rules_from(
                src@,
                ts@,
                pos,
                stop,
                origin,
                first,
                views_of(rules@),
            ),
        decreases stop - pos,
    {
        let j = skip_to_rule(ts, pos, stop);
        if j >= stop {
            return rules;
        }
        let (next, rule) = parse_rule(src, ts, j, stop, origin, first);
        match rule {
            Some(r) => {
                proof {
                    views_push(rules@, r);
                }
                rules.push(r);
            },
            None => {},
        }
        first = false;
        pos = next;
    }
}

/// The rules of a stylesheet text.
pub open spec fn stylesheet_rules(origin: CascadeOrigin, input: Seq<char>) -> Seq<RuleView> {
    rules_from(input, tokens_of(input), 0, tokens_of(input).len() as usize, origin, true, Seq::empty())
}

/// A rule that a stylesheet of cascade origin `origin` can yield: a style
/// rule has that origin and at least one declaration, and so has every
/// style rule inside an `@media` rule.
pub open spec fn rule_fits_origin(r: RuleView, origin: CascadeOrigin) -> bool
    decreases r,
{
    match r {
        RuleView::Style { cascade_origin, declarations, .. } => cascade_origin == origin && declarations.len() > 0,
        RuleView::Media { rules, .. } => forall|k: int|
            0 <= k < rules.len() ==> rule_fits_origin(#[trigger] rules[k], origin),
        RuleView::FontFace(_) => true,
    }
}

pub open spec fn rules_fit_origin(rs: Seq<RuleView>, origin: CascadeOrigin) -> bool {
    forall|k: int| 0 <= k < rs.len() ==> rule_fits_origin(#[trigger] rs[k], origin)
}

proof fn rule_at_fits_origin(src: Seq<char>, ts: Seq<SpannedToken>, j: usize, stop: usize, origin: CascadeOrigin, first: bool)
    ensures
        rule_at(src, ts, j, stop, origin, first).1 matches Some(r) ==> rule_fits_origin(r, origin),
    decreases stop - j, 0int,
{
    if j < stop <= ts.len() {
        if let CssToken::AtKeyword(name) = ts[j as int].token {
            if !(first && keyword_is(name@, "charset"@)) {
                let d = find_delimiter(ts, j + 1, stop as int, Delimiter::SemicolonOrCurlyBracketBlock);
                if j + 1 <= d <= stop {
                    if let Ok(AtRulePreludeView::Media(_)) = at_rule_prelude_at(ts, (j + 1) as usize, d as usize, name) {
                        if d < stop && ts[d].token is CurlyBracketBlock {
                            let e = block_end(ts, d + 1, stop as int, seq![BlockKind::CurlyBracket]);
                            if d + 1 <= e <= stop {
                                rules_from_fit_origin(src, ts, (d + 1) as usize, e as usize, origin, true, Seq::empty());
                            }
                        }
                    }
                }
            }
        }
    }
}

proof fn rules_from_fit_origin(
    src: Seq<char>,
    ts: Seq<SpannedToken>,
    i: usize,
    stop: usize,
    origin: CascadeOrigin,
    first: bool,
    acc: Seq<RuleView>,
)
    requires
        rules_fit_origin(acc, origin),
    ensures
        rules_fit_origin(rules_from(src, ts, i, stop, origin, first, acc), origin),
    decreases stop - i, 1int,
{
    let j = skip_rule_trivia(ts, i as int, stop as int);
    if in_range(ts, i, stop) && i <= j && j < stop {
        rule_at_fits_origin(src, ts, j as usize, stop, origin, first);
        let (next, rule) = rule_at(src, ts, j as usize, stop, origin, first);
        let acc2 = match rule {
            Some(r) => acc.push(r),
            None => acc,
        };
        assert(rules_fit_origin(acc2, origin)) by {
            if let Some(r) = rule {
                assert forall|k: int| 0 <= k < acc2.len() implies rule_fits_origin(#[trigger] acc2[k], origin) by {
                    if k < acc.len() {
                        assert(acc2[k] == acc[k]);
                    }
                }
            }
        }
        if i < next <= stop {
            rules_from_fit_origin(src, ts, next, stop, origin, false, acc2);
        }
    }
}

/// Every style rule that a stylesheet of cascade origin `origin` yields,
/// at its top level or inside `@media` rules, has that origin and at least
/// one declaration: style rules without declarations are dropped.
pub proof fn parsed_style_rules_fit_origin(origin: CascadeOrigin, input: Seq<char>)
    ensures
        rules_fit_origin(stylesheet_rules(origin, input), origin),
{
    rules_from_fit_origin(input, tokens_of(input), 0, tokens_of(input).len() as usize, origin, true, Seq::empty());
}

/// Parses a stylesheet.
pub fn parse_stylesheet(cascade_origin: CascadeOrigin, input: &str) -> (r: Stylesheet)
    ensures
        r@ == stylesheet_rules(cascade_origin, input@),
{
    let ts = tokenize(input);
    Stylesheet { rules: parse_rule_list(input, &ts, 0, ts.len(), cascade_origin) }
}

/// Parses the `style` attribute of an element: a block of declarations of
/// the author's origin, without selectors.
pub fn parse_style_attribute(input: &str) -> (r: Result<Rule, ParseError>)
    ensures
        r matches Ok(rule) && rule@ == (RuleView::Style {
            cascade_origin: CascadeOrigin::Author,
            selectors: Seq::empty(),
            declarations: declarations_from(input@, tokens_of(input@), 0, tokens_of(input@).len() as usize, Seq::empty()),
        }),
{
    let ts = tokenize(input);
    let declarations = parse_declaration_list(input, &ts, 0, ts.len());
    let selector_list = SelectorList { items: Vec::new() };
    proof {
        assert(selector_list@ =~= Seq::<Selector>::empty());
    }
    Ok(Rule::Style(StyleRule { cascade_origin: CascadeOrigin::Author, selector_list, declarations }))
}

/// Types that a stylesheet text can be parsed into.
pub trait CssParsable: Sized {
    fn parse(cascade_origin: CascadeOrigin, input: &str) -> Self;
}

impl CssParsable for Stylesheet {
    fn parse(cascade_origin: CascadeOrigin, input: &str) -> (r: Stylesheet)
        ensures
            r@ == stylesheet_rules(cascade_origin, input@),
    {
        parse_stylesheet(cascade_origin, input)
    }
}

/// Media types are matched without regard to ASCII case.
pub proof fn media_types_ignore_ascii_case(a: Seq<char>, b: Seq<char>)
    requires
        lower_bytes(bytes_of(a)) == lower_bytes(bytes_of(b)),
    ensures
        media_type_named(a) == media_type_named(b),
{
}

} // verus!

