//! The decisions of the font loader: which `@font-face` rule provides a
//! font, which sources of it to try, and the state of each requested font.

use vstd::prelude::*;

use crate::dom::str_eq;
use crate::fontface::FontFaceDeclarationView;
use crate::rules::{RuleView, font_face_views, rule_view, views_of};
use crate::style::{
    CodePointRange, CssFontFaceAtRule, CssFontFaceDeclaration, CssFontFaceFormat, CssFontFaceSrc, CssFontStyle,
    CssGenericFontFamilyName, CssNumber, Rule, Stylesheet,
};
use crate::urls::{resolve_url, resolved_url};

verus! {

/// The name of a font family as the font provider takes it.
#[derive(Clone, Debug, PartialEq, Eq)]
pub enum FamilyName {
    Title(String),
    Generic(CssGenericFontFamilyName),
}

/// A font that layout asks for.
#[derive(Clone, Debug, PartialEq, Eq)]
pub struct FontDescriptor {
    pub name: FamilyName,
    /// The weight, as the bit pattern of a single-precision number.
    pub weight: CssNumber,
    pub style: CssFontStyle,
}

pub enum FamilyNameView {
    Title(Seq<char>),
    Generic(CssGenericFontFamilyName),
}

pub struct FontDescriptorView {
    pub name: FamilyNameView,
    pub weight: CssNumber,
    pub style: CssFontStyle,
}

impl View for FontDescriptor {
    type V = FontDescriptorView;

    open spec fn view(&self) -> FontDescriptorView {
        FontDescriptorView {
            name: match self.name {
                FamilyName::Title(t) => FamilyNameView::Title(t@),
                FamilyName::Generic(g) => FamilyNameView::Generic(g),
            },
            weight: self.weight,
            style: self.style,
        }
    }
}

/// A copy of a descriptor.
pub fn copy_descriptor(d: &FontDescriptor) -> (r: FontDescriptor)
    ensures
        r@ == d@,
{
    FontDescriptor {
        name: match &d.name {
            FamilyName::Title(t) => FamilyName::Title(t.clone()),
            FamilyName::Generic(g) => FamilyName::Generic(*g),
        },
        weight: d.weight,
        style: d.style,
    }
}

/// Whether two descriptors ask for the same font.
pub fn same_descriptor(a: &FontDescriptor, b: &FontDescriptor) -> (r: bool)
    ensures
        r == (a@ == b@),
{
    let names = match (&a.name, &b.name) {
        (FamilyName::Title(x), FamilyName::Title(y)) => str_eq(x.as_str(), y.as_str()),
        (FamilyName::Generic(x), FamilyName::Generic(y)) => *x == *y,
        _ => false,
    };
    names && a.weight.bits == b.weight.bits && a.style == b.style
}

/// A single-precision number that is not a number.
pub open spec fn is_nan(x: CssNumber) -> bool {
    (x.bits & 0x7f80_0000) == 0x7f80_0000 && (x.bits & 0x007f_ffff) != 0
}

/// A single-precision zero, of either sign.
pub open spec fn is_zero(x: CssNumber) -> bool {
    (x.bits & 0x7fff_ffff) == 0
}

/// Equality of single-precision numbers: no NaN equals anything, the two
/// zeros are equal, and other numbers are equal when their bits are.
pub open spec fn float_equal(a: CssNumber, b: CssNumber) -> bool {
    !is_nan(a) && !is_nan(b) && (a.bits == b.bits || (is_zero(a) && is_zero(b)))
}

fn floats_equal(a: CssNumber, b: CssNumber) -> (r: bool)
    ensures
        r == float_equal(a, b),
{
    let a_nan = (a.bits & 0x7f80_0000) == 0x7f80_0000 && (a.bits & 0x007f_ffff) != 0;
    let b_nan = (b.bits & 0x7f80_0000) == 0x7f80_0000 && (b.bits & 0x007f_ffff) != 0;
    let zeros = (a.bits & 0x7fff_ffff) == 0 && (b.bits & 0x7fff_ffff) == 0;
    !a_nan && !b_nan && (a.bits == b.bits || zeros)
}

/// The letter `a`, which the unicode ranges of a face must cover.
pub const LATIN_SMALL_A: u32 = 0x61;

/// The range holds the code point `c`.
pub open spec fn covers(r: CodePointRange, c: u32) -> bool {
    r.start <= c < r.end
}

/// The criteria after one more declaration of a face.
pub open spec fn criteria_step(c: (bool, bool, bool, bool), decl: FontFaceDeclarationView, d: FontDescriptorView) -> (
    bool,
    bool,
    bool,
    bool,
) {
    let (n, s, w, u) = c;
    match decl {
        FontFaceDeclarationView::FontFamily(family) => (
            match d.name {
                FamilyNameView::Title(t) => t == family@,
                FamilyNameView::Generic(_) => false,
            },
            s,
            w,
            u,
        ),
        FontFaceDeclarationView::FontStyle(style) => (n, style == d.style, w, u),
        FontFaceDeclarationView::FontWeight(weight) => (n, s, float_equal(weight, d.weight), u),
        FontFaceDeclarationView::UnicodeRanges(ranges) => (
            n,
            s,
            w,
            exists|k: int| 0 <= k < ranges.len() && #[trigger] covers(ranges[k], LATIN_SMALL_A),
        ),
        FontFaceDeclarationView::Src(_) => (n, s, w, u),
    }
}

/// How far the declarations of a face match a descriptor: its family name,
/// style, weight and unicode ranges. The last declaration of each kind
/// decides; a face without unicode ranges covers every character.
pub open spec fn face_criteria(decls: Seq<FontFaceDeclarationView>, d: FontDescriptorView) -> (bool, bool, bool, bool)
    decreases decls.len(),
{
    if decls.len() == 0 {
        (false, false, false, true)
    } else {
        criteria_step(face_criteria(decls.drop_last(), d), decls.last(), d)
    }
}

/// A face provides the font of a descriptor that names a family by title
/// when its family, style and weight match and it covers the letter `a`.
pub open spec fn face_matches(decls: Seq<FontFaceDeclarationView>, d: FontDescriptorView) -> bool {
    &&& d.name is Title
    &&& face_criteria(decls, d).0
    &&& face_criteria(decls, d).1
    &&& face_criteria(decls, d).2
    &&& face_criteria(decls, d).3
}

fn covers_small_a(ranges: &Vec<CodePointRange>) -> (r: bool)
    ensures
        r == exists|k: int| 0 <= k < ranges@.len() && #[trigger] covers(ranges@[k], LATIN_SMALL_A),
{
    let mut k: usize = 0;
    while k < ranges.len()
        invariant
            k <= ranges@.len(),
            forall|j: int| 0 <= j < k ==> !#[trigger] covers(ranges@[j], LATIN_SMALL_A),
        decreases ranges@.len() - k,
    {
        if ranges[k].start <= LATIN_SMALL_A && LATIN_SMALL_A < ranges[k].end {
            proof {
                assert(covers(ranges@[k as int], LATIN_SMALL_A));
            }
            return true;
        }
        k = k + 1;
    }
    false
}

fn criteria_after(
    c: (bool, bool, bool, bool),
    decl: &CssFontFaceDeclaration,
    requested: &String,
    descriptor: &FontDescriptor,
) -> (r: (bool, bool, bool, bool))
    requires
        descriptor.name == FamilyName::Title(*requested),
    ensures
        r == criteria_step(c, decl@, descriptor@),
{
    let (n, s, w, u) = c;
    match decl {
        CssFontFaceDeclaration::FontFamily(family) => {
            let same = str_eq(requested.as_str(), family.as_str());
            proof {
                assert(descriptor@.name == FamilyNameView::Title(requested@));
                assert(decl@ == FontFaceDeclarationView::FontFamily(*family));
                assert(same == (requested@ == family@));
                assert(criteria_step(c, decl@, descriptor@).0 == (requested@ == family@));
                assert(criteria_step(c, decl@, descriptor@).1 == s);
                assert(criteria_step(c, decl@, descriptor@).2 == w);
                assert(criteria_step(c, decl@, descriptor@).3 == u);
            }
            let res = (same, s, w, u);
            assert(res == criteria_step(c, decl@, descriptor@));
            res
        },
        CssFontFaceDeclaration::FontStyle(style) => {
            assert(decl@ == FontFaceDeclarationView::FontStyle(*style));
            let res = (n, *style == descriptor.style, w, u);
            assert(res == criteria_step(c, decl@, descriptor@));
            res
        },
        CssFontFaceDeclaration::FontWeight(weight) => {
            assert(decl@ == FontFaceDeclarationView::FontWeight(*weight));
            let res = (n, s, floats_equal(*weight, descriptor.weight), u);
            assert(res == criteria_step(c, decl@, descriptor@));
            res
        },
        CssFontFaceDeclaration::UnicodeRanges(ranges) => {
            let covered = covers_small_a(ranges);
            assert(decl@ == FontFaceDeclarationView::UnicodeRanges(ranges@));
            let res = (n, s, w, covered);
            assert(res == criteria_step(c, decl@, descriptor@));
            res
        },
        CssFontFaceDeclaration::Src { .. } => {
            let res = (n, s, w, u);
            assert(res == criteria_step(c, decl@, descriptor@));
            res
        },
    }
}

/// Whether an `@font-face` rule provides the font of a descriptor.
pub fn matches_font_face_rule(font_face: &CssFontFaceAtRule, descriptor: &FontDescriptor) -> (r: bool)
    ensures
        r == face_matches(font_face_views(font_face.declarations@), descriptor@),
{
    let requested = match &descriptor.name {
        FamilyName::Title(t) => t,
        FamilyName::Generic(_) => {
            return false;
        },
    };
    let decls = &font_face.declarations;
    let mut c = (false, false, false, true);
    let mut k: usize = 0;
    while k < decls.len()
        invariant
            k <= decls@.len(),
            descriptor.name == FamilyName::Title(*requested),
            c == face_criteria(font_face_views(decls@.take(k as int)), descriptor@),
        decreases decls@.len() - k,
    {
        proof {
            assert(font_face_views(decls@.take(k + 1)).drop_last() =~= font_face_views(decls@.take(k as int)));
            assert(font_face_views(decls@.take(k + 1)).last() == decls@[k as int]@);
        }
        c = criteria_after(c, &decls[k], requested, descriptor);
        k = k + 1;
    }
    proof {
        assert(decls@.take(decls@.len() as int) =~= decls@);
    }
    let (name_matches, style_matches, weight_matches, unicode_matches) = c;
    name_matches && style_matches && weight_matches && unicode_matches
}

/// The `@font-face` rule, among the rules of `rules` from `k` on, that
/// first provides the font of `d`.
pub open spec fn face_in_rules(rules: Seq<RuleView>, d: FontDescriptorView, k: int) -> Option<Seq<FontFaceDeclarationView>>
    decreases rules.len() - k,
{
    if k < 0 || k >= rules.len() {
        None
    } else {
        match rules[k] {
            RuleView::FontFace(decls) => if face_matches(decls, d) {
                Some(decls)
            } else {
                face_in_rules(rules, d, k + 1)
            },
            _ => face_in_rules(rules, d, k + 1),
        }
    }
}

/// The `@font-face` rule of the stylesheets from `k` on that first provides
/// the font of `d`; the rules inside `@media` rules are not searched.
pub open spec fn face_in_sheets(sheets: Seq<Seq<RuleView>>, d: FontDescriptorView, k: int) -> Option<
    Seq<FontFaceDeclarationView>,
>
    decreases sheets.len() - k,
{
    if k < 0 || k >= sheets.len() {
        None
    } else {
        match face_in_rules(sheets[k], d, 0) {
            Some(f) => Some(f),
            None => face_in_sheets(sheets, d, k + 1),
        }
    }
}

pub open spec fn sheet_views(sheets: Seq<Stylesheet>) -> Seq<Seq<RuleView>> {
    sheets.map_values(|s: Stylesheet| s@)
}

fn find_in_rules<'s>(rules: &'s Vec<Rule>, descriptor: &FontDescriptor) -> (r: Option<&'s CssFontFaceAtRule>)
    ensures
        match (r, face_in_rules(views_of(rules@), descriptor@, 0)) {
            (Some(f), Some(decls)) => font_face_views(f.declarations@) == decls,
            (None, None) => true,
            _ => false,
        },
{
    let mut k: usize = 0;
    while k < rules.len()
        invariant
            k <= rules@.len(),
            face_in_rules(views_of(rules@), descriptor@, 0) == face_in_rules(views_of(rules@), descriptor@, k as int),
        decreases rules@.len() - k,
    {
        if let Rule::AtFontFace(font_face) = &rules[k] {
            if matches_font_face_rule(font_face, descriptor) {
                return Some(font_face);
            }
        }
        k = k + 1;
    }
    None
}

/// The `@font-face` rule of the stylesheets that first provides the font
/// of `descriptor`.
pub fn find_font_face_rule<'s>(descriptor: &FontDescriptor, stylesheets: &'s [Stylesheet]) -> (r: Option<
    &'s CssFontFaceAtRule,
>)
    ensures
        match (r, face_in_sheets(sheet_views(stylesheets@), descriptor@, 0)) {
            (Some(f), Some(decls)) => font_face_views(f.declarations@) == decls,
            (None, None) => true,
            _ => false,
        },
{
    let mut k: usize = 0;
    while k < stylesheets.len()
        invariant
            k <= stylesheets@.len(),
            face_in_sheets(sheet_views(stylesheets@), descriptor@, 0) == face_in_sheets(
                sheet_views(stylesheets@),
                descriptor@,
                k as int,
            ),
        decreases stylesheets@.len() - k,
    {
        proof {
            assert(sheet_views(stylesheets@)[k as int] == views_of(stylesheets@[k as int].rules@));
        }
        if let Some(f) = find_in_rules(&stylesheets[k].rules, descriptor) {
            return Some(f);
        }
        k = k + 1;
    }
    None
}

/// The state of loading one font.
#[derive(Copy, Clone, Debug, PartialEq, Eq, Structural)]
pub enum FontState {
    /// Nothing has been done with this font thus far.
    Initial,
    /// The font is to be looked for in the `@font-face` rules again.
    TryLoadRemote,
    /// The font is being loaded from the system.
    LoadingLocal,
    /// The font is being loaded from an `@font-face` rule.
    LoadingRemote,
    /// The font is not in the system font list.
    InvalidLocalReference,
    /// The font is not in an `@font-face` rule, or none of its sources loaded.
    InvalidRemoteReference,
    /// The font is loaded.
    Loaded,
}

/// What the page does after a font finished loading.
#[derive(Copy, Clone, Debug, PartialEq, Eq, Structural)]
pub struct FontLoadResult {
    pub rerun_layout: bool,
    pub rerun_algorithm: bool,
}

/// The states that a finished load reports.
pub open spec fn is_final_state(s: FontState) -> bool {
    s is InvalidLocalReference || s is InvalidRemoteReference || s is Loaded
}

/// After a font loaded, layout runs again; after it failed, the choice of
/// fonts does.
pub open spec fn load_result(s: FontState) -> FontLoadResult {
    if s is Loaded {
        FontLoadResult { rerun_layout: true, rerun_algorithm: false }
    } else {
        FontLoadResult { rerun_layout: false, rerun_algorithm: true }
    }
}

pub type FontEntryView = (FontDescriptorView, FontState);

pub open spec fn descriptor_views(ds: Seq<FontDescriptor>) -> Seq<FontDescriptorView> {
    ds.map_values(|d: FontDescriptor| d@)
}

pub open spec fn entry_views(fonts: Seq<(FontDescriptor, FontState)>) -> Seq<FontEntryView> {
    fonts.map_values(|e: (FontDescriptor, FontState)| (e.0@, e.1))
}

/// No font occurs twice.
pub open spec fn distinct_fonts(fonts: Seq<FontEntryView>) -> bool {
    forall|i: int, j: int| 0 <= i < j < fonts.len() ==> #[trigger] fonts[i].0 != #[trigger] fonts[j].0
}

/// The index of the font `d`, if it is known.
pub open spec fn font_index(fonts: Seq<FontEntryView>, d: FontDescriptorView) -> Option<int> {
    if exists|i: int| 0 <= i < fonts.len() && #[trigger] fonts[i].0 == d {
        Some(choose|i: int| 0 <= i < fonts.len() && #[trigger] fonts[i].0 == d)
    } else {
        None
    }
}

/// The state of the font `d`, if it is known.
pub open spec fn font_state(fonts: Seq<FontEntryView>, d: FontDescriptorView) -> Option<FontState> {
    match font_index(fonts, d) {
        Some(i) => Some(fonts[i].1),
        None => None,
    }
}

/// The fonts with the state of `d` set to `s`: in its place when it is
/// known, else added at the end.
pub open spec fn with_state(fonts: Seq<FontEntryView>, d: FontDescriptorView, s: FontState) -> Seq<FontEntryView> {
    match font_index(fonts, d) {
        Some(i) => fonts.update(i, (d, s)),
        None => fonts.push((d, s)),
    }
}

/// The fonts after the families of a box, as the descriptors `candidates`
/// from `k` on, are registered; `current` is the font that the box uses.
/// The first family that is neither loaded, being loaded remotely, nor
/// known to fail remotely is enqueued; a family that failed locally is
/// enqueued to be looked for remotely, and registration goes on.
pub open spec fn registered(
    fonts: Seq<FontEntryView>,
    candidates: Seq<FontDescriptorView>,
    current: FontDescriptorView,
    k: int,
) -> Seq<FontEntryView>
    decreases candidates.len() - k,
{
    if k < 0 || k >= candidates.len() {
        fonts
    } else {
        let d = candidates[k];
        if d == current {
            fonts
        } else {
            match font_state(fonts, d) {
                Some(FontState::Initial) | Some(FontState::TryLoadRemote) | Some(FontState::Loaded) => fonts,
                Some(FontState::LoadingRemote) | Some(FontState::InvalidRemoteReference) => registered(
                    fonts,
                    candidates,
                    current,
                    k + 1,
                ),
                Some(FontState::LoadingLocal) | Some(FontState::InvalidLocalReference) => registered(
                    with_state(fonts, d, FontState::TryLoadRemote),
                    candidates,
                    current,
                    k + 1,
                ),
                None => with_state(fonts, d, FontState::Initial),
            }
        }
    }
}

/// The fonts that the page asked for, with the state of each.
pub struct FontLoader {
    pub fonts: Vec<(FontDescriptor, FontState)>,
    /// The address of the document, the referrer of remote font loads.
    pub document_url: String,
}

impl View for FontLoader {
    type V = Seq<FontEntryView>;

    open spec fn view(&self) -> Seq<FontEntryView> {
        entry_views(self.fonts@)
    }
}

impl FontLoader {
    pub open spec fn wf(&self) -> bool {
        distinct_fonts(self@)
    }

    pub fn new(document_url: String) -> (r: FontLoader)
        ensures
            r@ == Seq::<FontEntryView>::empty(),
            r.document_url == document_url,
            r.wf(),
    {
        let r = FontLoader { fonts: Vec::new(), document_url };
        proof {
            assert(r@ =~= Seq::<FontEntryView>::empty());
        }
        r
    }

    /// Changes the address of the document; the fonts are kept.
    pub fn set_document_url(&mut self, url: String)
        ensures
            final(self)@ == old(self)@,
            final(self).document_url == url,
            final(self).wf() == old(self).wf(),
    {
        self.document_url = url;
    }

    /// The index of the font `d`.
    fn index_of(&self, d: &FontDescriptor) -> (r: Option<usize>)
        requires
            self.wf(),
        ensures
            match (r, font_index(self@, d@)) {
                (Some(i), Some(j)) => i == j,
                (None, None) => true,
                _ => false,
            },
            r matches Some(i) ==> i < self@.len(),
    {
        let mut k: usize = 0;
        while k < self.fonts.len()
            invariant
                k <= self.fonts@.len(),
                self@.len() == self.fonts@.len(),
                self.wf(),
                forall|j: int| 0 <= j < k ==> #[trigger] self@[j].0 != d@,
            decreases self.fonts@.len() - k,
        {
            if same_descriptor(&self.fonts[k].0, d) {
                proof {
                    assert(self@[k as int].0 == d@);
                    let i = choose|i: int| 0 <= i < self@.len() && #[trigger] self@[i].0 == d@;
                    if i != k as int {
                        if i < k {
                            assert(self@[i].0 != d@);
                        } else {
                            assert(self@[k as int].0 != self@[i].0);
                        }
                    }
                }
                return Some(k);
            }
            k = k + 1;
        }
        None
    }

    /// Sets the state of the font `d`.
    fn set_state(&mut self, d: &FontDescriptor, s: FontState)
        requires
            old(self).wf(),
        ensures
            final(self)@ == with_state(old(self)@, d@, s),
            final(self).wf(),
            final(self).document_url == old(self).document_url,
    {
        match self.index_of(d) {
            Some(i) => {
                let ghost before = self@;
                self.fonts.set(i, (copy_descriptor(d), s));
                proof {
                    assert(self@ =~= before.update(i as int, (d@, s)));
                    assert forall|a: int, b: int| 0 <= a < b < self@.len() implies #[trigger] self@[a].0
                        != #[trigger] self@[b].0 by {
                        assert(before[a].0 != before[b].0);
                    }
                }
            },
            None => {
                let ghost before = self@;
                self.fonts.push((copy_descriptor(d), s));
                proof {
                    assert(self@ =~= before.push((d@, s)));
                    assert forall|a: int, b: int| 0 <= a < b < self@.len() implies #[trigger] self@[a].0
                        != #[trigger] self@[b].0 by {
                        if b == before.len() {
                            assert(before[a].0 != d@);
                        } else {
                            assert(before[a].0 != before[b].0);
                        }
                    }
                }
            },
        }
    }

    /// Records the outcome of loading a font, and says what the page is to
    /// do next.
    pub fn process_load_state(&mut self, descriptor: FontDescriptor, state: FontState) -> (r: FontLoadResult)
        requires
            old(self).wf(),
            is_final_state(state),
        ensures
            r == load_result(state),
            final(self)@ == with_state(old(self)@, descriptor@, state),
            final(self).wf(),
            final(self).document_url == old(self).document_url,
    {
        let result = match state {
            FontState::Loaded => FontLoadResult { rerun_layout: true, rerun_algorithm: false },
            _ => FontLoadResult { rerun_layout: false, rerun_algorithm: true },
        };
        self.set_state(&descriptor, state);
        result
    }
}

/// A load of a font that the page starts.
#[derive(Clone, Debug, PartialEq, Eq)]
pub enum FontJob {
    /// Load the font from the system.
    Local(FontDescriptor),
    /// Load the font from the sources of its `@font-face` rule; `None` when
    /// the rule has no `src` descriptor.
    Remote { descriptor: FontDescriptor, sources: Option<Vec<CssFontFaceSrc>> },
}

pub enum FontJobView {
    Local(FontDescriptorView),
    Remote(FontDescriptorView, Option<Seq<CssFontFaceSrc>>),
}

impl View for FontJob {
    type V = FontJobView;

    open spec fn view(&self) -> FontJobView {
        match self {
            FontJob::Local(d) => FontJobView::Local(d@),
            FontJob::Remote { descriptor, sources } => FontJobView::Remote(
                descriptor@,
                match sources {
                    Some(s) => Some(s@),
                    None => None,
                },
            ),
        }
    }
}

pub open spec fn job_views(jobs: Seq<FontJob>) -> Seq<FontJobView> {
    jobs.map_values(|j: FontJob| j@)
}

/// The sources of the first `src` descriptor of a face.
pub open spec fn face_sources(decls: Seq<FontFaceDeclarationView>, k: int) -> Option<Seq<CssFontFaceSrc>>
    decreases decls.len() - k,
{
    if k < 0 || k >= decls.len() {
        None
    } else {
        match decls[k] {
            FontFaceDeclarationView::Src(s) => Some(s),
            _ => face_sources(decls, k + 1),
        }
    }
}

/// Whether a font waits for a load to start: it was just requested, or its
/// load is to be looked at again.
pub open spec fn awaiting(s: FontState) -> bool {
    s is Initial || s is LoadingLocal || s is LoadingRemote || s is TryLoadRemote
}

/// The fonts and the loads that start when the fonts from index `i` on are
/// looked at: a font that an `@font-face` rule provides loads from its
/// sources; another loads from the system, unless it was being loaded, or
/// was to be looked for, remotely.
pub open spec fn enqueued(fonts: Seq<FontEntryView>, sheets: Seq<Seq<RuleView>>, i: int) -> (
    Seq<FontEntryView>,
    Seq<FontJobView>,
)
    decreases fonts.len() - i,
{
    if i < 0 || i >= fonts.len() {
        (fonts, Seq::empty())
    } else {
        let (d, st) = fonts[i];
        if !awaiting(st) {
            enqueued(fonts, sheets, i + 1)
        } else {
            match face_in_sheets(sheets, d, 0) {
                Some(decls) => {
                    let rest = enqueued(fonts.update(i, (d, FontState::LoadingRemote)), sheets, i + 1);
                    (rest.0, seq![FontJobView::Remote(d, face_sources(decls, 0))] + rest.1)
                },
                None => if st is LoadingRemote || st is TryLoadRemote {
                    enqueued(fonts, sheets, i + 1)
                } else {
                    let rest = enqueued(fonts.update(i, (d, FontState::LoadingLocal)), sheets, i + 1);
                    (rest.0, seq![FontJobView::Local(d)] + rest.1)
                },
            }
        }
    }
}

fn copy_sources(sources: &Vec<CssFontFaceSrc>) -> (r: Vec<CssFontFaceSrc>)
    ensures
        r@ == sources@,
{
    let mut out: Vec<CssFontFaceSrc> = Vec::new();
    let mut k: usize = 0;
    while k < sources.len()
        invariant
            k <= sources@.len(),
            out@ == sources@.take(k as int),
        decreases sources@.len() - k,
    {
        let copy = match &sources[k] {
            CssFontFaceSrc::Local(name) => CssFontFaceSrc::Local(name.clone()),
            CssFontFaceSrc::WebFont { url, format } => CssFontFaceSrc::WebFont { url: url.clone(), format: *format },
        };
        out.push(copy);
        proof {
            assert(sources@.take(k + 1) =~= sources@.take(k as int).push(sources@[k as int]));
        }
        k = k + 1;
    }
    proof {
        assert(sources@.take(sources@.len() as int) =~= sources@);
    }
    out
}

/// The sources of the first `src` descriptor of a face.
pub fn sources_of(face: &CssFontFaceAtRule) -> (r: Option<Vec<CssFontFaceSrc>>)
    ensures
        match (r, face_sources(font_face_views(face.declarations@), 0)) {
            (Some(v), Some(s)) => v@ == s,
            (None, None) => true,
            _ => false,
        },
{
    let decls = &face.declarations;
    let mut k: usize = 0;
    while k < decls.len()
        invariant
            k <= decls@.len(),
            decls@ == face.declarations@,
            face_sources(font_face_views(decls@), 0) == face_sources(font_face_views(decls@), k as int),
        decreases decls@.len() - k,
    {
        proof {
            assert(font_face_views(decls@)[k as int] == decls@[k as int]@);
        }
        if let CssFontFaceDeclaration::Src { sources } = &decls[k] {
            proof {
                assert(decls@[k as int]@ == FontFaceDeclarationView::Src(sources@));
            }
            return Some(copy_sources(sources));
        }
        k = k + 1;
    }
    None
}

impl FontLoader {
    /// The state of the font `d`, if it is known.
    pub fn state_of(&self, d: &FontDescriptor) -> (r: Option<FontState>)
        requires
            self.wf(),
        ensures
            r == font_state(self@, d@),
    {
        match self.index_of(d) {
            Some(i) => Some(self.fonts[i].1),
            None => None,
        }
    }

    /// Registers the fonts that a box asks for: the descriptor of each of
    /// its families, in order, and the font that it uses now.
    pub fn register(&mut self, candidates: &[FontDescriptor], current: &FontDescriptor)
        requires
            old(self).wf(),
        ensures
            final(self)@ == registered(old(self)@, descriptor_views(candidates@), current@, 0),
            final(self).wf(),
            final(self).document_url == old(self).document_url,
    {
        let ghost cands = descriptor_views(candidates@);
        let ghost start = self@;
        let mut k: usize = 0;
        while k < candidates.len()
            invariant
                k <= candidates@.len(),
                cands == descriptor_views(candidates@),
                start == old(self)@,
                self.wf(),
                self.document_url == old(self).document_url,
                registered(start, cands, current@, 0) == registered(self@, cands, current@, k as int),
            decreases candidates@.len() - k,
        {
            let d = &candidates[k];
            proof {
                assert(cands[k as int] == d@);
            }
            if same_descriptor(d, current) {
                proof {
                    assert(registered(self@, cands, current@, k as int) == self@);
                }
                return;
            }
            match self.state_of(d) {
                Some(FontState::Initial) | Some(FontState::TryLoadRemote) | Some(FontState::Loaded) => {
                    return;
                },
                Some(FontState::LoadingRemote) | Some(FontState::InvalidRemoteReference) => {},
                Some(FontState::LoadingLocal) | Some(FontState::InvalidLocalReference) => {
                    self.set_state(d, FontState::TryLoadRemote);
                },
                None => {
                    self.set_state(d, FontState::Initial);
                    return;
                },
            }
            k = k + 1;
        }
    }

    /// Looks at each font that waits for a load, and starts the loads that
    /// the stylesheets call for.
    pub fn process_enqueued(&mut self, stylesheets: &[Stylesheet]) -> (r: Vec<FontJob>)
        requires
            old(self).wf(),
        ensures
            final(self)@ == enqueued(old(self)@, sheet_views(stylesheets@), 0).0,
            job_views(r@) == enqueued(old(self)@, sheet_views(stylesheets@), 0).1,
            final(self).wf(),
            final(self).document_url == old(self).document_url,
    {
        let ghost sheets = sheet_views(stylesheets@);
        let ghost start = self@;
        let mut jobs: Vec<FontJob> = Vec::new();
        let mut i: usize = 0;
        proof {
            assert(job_views(jobs@) + enqueued(self@, sheets, 0).1 =~= enqueued(self@, sheets, 0).1);
        }
        while i < self.fonts.len()
            invariant
                i <= self.fonts@.len(),
                self@.len() == self.fonts@.len(),
                sheets == sheet_views(stylesheets@),
                self.wf(),
                self.document_url == old(self).document_url,
                enqueued(start, sheets, 0).0 == enqueued(self@, sheets, i as int).0,
                enqueued(start, sheets, 0).1 == job_views(jobs@) + enqueued(self@, sheets, i as int).1,
            decreases self.fonts@.len() - i,
        {
            let st = self.fonts[i].1;
            let waiting = match st {
                FontState::Initial | FontState::LoadingLocal | FontState::LoadingRemote | FontState::TryLoadRemote => true,
                _ => false,
            };
            if waiting {
                let d = copy_descriptor(&self.fonts[i].0);
                proof {
                    assert(self@[i as int] == (d@, st));
                }
                match find_font_face_rule(&d, stylesheets) {
                    Some(face) => {
                        let ghost before = self@;
                        let ghost old_jobs = jobs@;
                        self.fonts.set(i, (copy_descriptor(&d), FontState::LoadingRemote));
                        let sources = sources_of(face);
                        jobs.push(FontJob::Remote { descriptor: d, sources });
                        proof {
                            assert(self@ =~= before.update(i as int, (d@, FontState::LoadingRemote)));
                            assert forall|a: int, b: int| 0 <= a < b < self@.len() implies #[trigger] self@[a].0
                                != #[trigger] self@[b].0 by {
                                assert(before[a].0 != before[b].0);
                            }
                            assert(job_views(jobs@) =~= job_views(old_jobs).push(jobs@.last()@));
                            assert(job_views(jobs@) + enqueued(self@, sheets, i + 1).1 =~= job_views(old_jobs) + (
                            seq![jobs@.last()@] + enqueued(self@, sheets, i + 1).1));
                        }
                    },
                    None => {
                        let remote = match st {
                            FontState::LoadingRemote | FontState::TryLoadRemote => true,
                            _ => false,
                        };
                        if !remote {
                            let ghost before = self@;
                            let ghost old_jobs = jobs@;
                            self.fonts.set(i, (copy_descriptor(&d), FontState::LoadingLocal));
                            jobs.push(FontJob::Local(d));
                            proof {
                                assert(self@ =~= before.update(i as int, (jobs@.last()->Local_0@, FontState::LoadingLocal)));
                                assert forall|a: int, b: int| 0 <= a < b < self@.len() implies #[trigger] self@[a].0
                                    != #[trigger] self@[b].0 by {
                                    assert(before[a].0 != before[b].0);
                                }
                                assert(job_views(jobs@) =~= job_views(old_jobs).push(jobs@.last()@));
                                assert(job_views(jobs@) + enqueued(self@, sheets, i + 1).1 =~= job_views(old_jobs) + (
                                seq![jobs@.last()@] + enqueued(self@, sheets, i + 1).1));
                            }
                        }
                    },
                }
            }
            i = i + 1;
        }
        proof {
            assert(job_views(jobs@) + Seq::<FontJobView>::empty() =~= job_views(jobs@));
        }
        jobs
    }
}

/// How to load one source of a remote font.
#[derive(Clone, Debug, PartialEq, Eq)]
pub enum FontSourcePlan {
    /// Fetch the font from `url`, and decode it as `format`.
    Fetch { url: String, format: CssFontFaceFormat },
    /// Load the system font of this name.
    Local(String),
}

pub enum FontSourcePlanView {
    Fetch(Seq<char>, CssFontFaceFormat),
    Local(Seq<char>),
}

impl View for FontSourcePlan {
    type V = FontSourcePlanView;

    open spec fn view(&self) -> FontSourcePlanView {
        match self {
            FontSourcePlan::Fetch { url, format } => FontSourcePlanView::Fetch(url@, *format),
            FontSourcePlan::Local(n) => FontSourcePlanView::Local(n@),
        }
    }
}

/// The formats that the loader decodes: TrueType, OpenType, WOFF and WOFF2.
pub open spec fn decodable(f: CssFontFaceFormat) -> bool {
    f is Truetype || f is Opentype || f is Woff || f is Woff2
}

/// The sources, from `k` on, that the loader tries in order: the local
/// ones, and the web fonts of a format it decodes whose URL parses.
pub open spec fn source_plan(sources: Seq<CssFontFaceSrc>, k: int) -> Seq<FontSourcePlanView>
    decreases sources.len() - k,
{
    if k < 0 || k >= sources.len() {
        Seq::empty()
    } else {
        let here = match sources[k] {
            CssFontFaceSrc::Local(name) => seq![FontSourcePlanView::Local(name@)],
            CssFontFaceSrc::WebFont { url, format } => if decodable(format) {
                match resolved_url(None, url@) {
                    Some(u) => seq![FontSourcePlanView::Fetch(u, format)],
                    None => Seq::empty(),
                }
            } else {
                Seq::empty()
            },
        };
        here + source_plan(sources, k + 1)
    }
}

pub open spec fn plan_views(plan: Seq<FontSourcePlan>) -> Seq<FontSourcePlanView> {
    plan.map_values(|p: FontSourcePlan| p@)
}

/// The sources of a remote font that the loader tries, in order.
pub fn remote_font_plan(sources: &[CssFontFaceSrc]) -> (r: Vec<FontSourcePlan>)
    ensures
        plan_views(r@) == source_plan(sources@, 0),
{
    let mut plan: Vec<FontSourcePlan> = Vec::new();
    let mut k: usize = 0;
    proof {
        assert(plan_views(plan@) + source_plan(sources@, 0) =~= source_plan(sources@, 0));
    }
    while k < sources.len()
        invariant
            k <= sources@.len(),
            source_plan(sources@, 0) == plan_views(plan@) + source_plan(sources@, k as int),
        decreases sources@.len() - k,
    {
        let ghost before = plan@;
        match &sources[k] {
            CssFontFaceSrc::Local(name) => {
                plan.push(FontSourcePlan::Local(name.clone()));
            },
            CssFontFaceSrc::WebFont { url, format } => {
                let decodes = match format {
                    CssFontFaceFormat::Truetype | CssFontFaceFormat::Opentype | CssFontFaceFormat::Woff
                    | CssFontFaceFormat::Woff2 => true,
                    _ => false,
                };
                if decodes {
                    if let Some(u) = resolve_url(None, url.as_str()) {
                        plan.push(FontSourcePlan::Fetch { url: u, format: *format });
                    }
                }
            },
        }
        proof {
            assert(plan_views(plan@) + source_plan(sources@, k + 1) =~= plan_views(before) + source_plan(
                sources@,
                k as int,
            ));
        }
        k = k + 1;
    }
    proof {
        assert(plan_views(plan@) + source_plan(sources@, k as int) =~= plan_views(plan@));
    }
    plan
}

/// What the loader of a remote font does next: try the source at an index
/// of its plan, or stop and report the font's new state.
#[derive(Copy, Clone, Debug, PartialEq, Eq, Structural)]
pub enum RemoteFontStep {
    Try(usize),
    Finish(FontState),
}

/// The first step of loading a remote font whose plan holds `plan_len`
/// sources: the first source, or, with none, the font is an invalid remote
/// reference.
pub fn first_remote_font_step(plan_len: usize) -> (r: RemoteFontStep)
    ensures
        r == (if plan_len > 0 {
            RemoteFontStep::Try(0)
        } else {
            RemoteFontStep::Finish(FontState::InvalidRemoteReference)
        }),
{
    if plan_len > 0 {
        RemoteFontStep::Try(0)
    } else {
        RemoteFontStep::Finish(FontState::InvalidRemoteReference)
    }
}

/// The step after the source at `index` of a plan of `plan_len` sources
/// was tried: a source that `loaded` ends the search with the font loaded;
/// otherwise the next source is tried, and after the last the font is an
/// invalid remote reference.
pub fn next_remote_font_step(plan_len: usize, index: usize, loaded: bool) -> (r: RemoteFontStep)
    requires
        index < plan_len,
    ensures
        r == (if loaded {
            RemoteFontStep::Finish(FontState::Loaded)
        } else if index + 1 < plan_len {
            RemoteFontStep::Try((index + 1) as usize)
        } else {
            RemoteFontStep::Finish(FontState::InvalidRemoteReference)
        }),
{
    if loaded {
        RemoteFontStep::Finish(FontState::Loaded)
    } else if index + 1 < plan_len {
        RemoteFontStep::Try(index + 1)
    } else {
        RemoteFontStep::Finish(FontState::InvalidRemoteReference)
    }
}

/// Setting the state of a font is read back: the font then has that state,
/// every other font keeps its own, and no font occurs twice.
pub proof fn font_state_read_back(fonts: Seq<FontEntryView>, d: FontDescriptorView, s: FontState, e: FontDescriptorView)
    requires
        distinct_fonts(fonts),
    ensures
        font_state(with_state(fonts, d, s), d) == Some(s),
        e != d ==> font_state(with_state(fonts, d, s), e) == font_state(fonts, e),
        distinct_fonts(with_state(fonts, d, s)),
{
    let after = with_state(fonts, d, s);
    match font_index(fonts, d) {
        Some(i) => {
            assert(after[i].0 == d);
            assert forall|a: int, b: int| 0 <= a < b < after.len() implies #[trigger] after[a].0 != #[trigger] after[b].0 by {
                assert(fonts[a].0 != fonts[b].0);
            }
            let k = choose|k: int| 0 <= k < after.len() && #[trigger] after[k].0 == d;
            assert(k == i) by {
                if k != i {
                    if k < i {
                        assert(after[k].0 != after[i].0);
                    } else {
                        assert(after[i].0 != after[k].0);
                    }
                }
            }
            if e != d {
                if exists|j: int| 0 <= j < fonts.len() && #[trigger] fonts[j].0 == e {
                    let j = choose|j: int| 0 <= j < fonts.len() && #[trigger] fonts[j].0 == e;
                    assert(after[j].0 == e);
                    let m = choose|m: int| 0 <= m < after.len() && #[trigger] after[m].0 == e;
                    assert(m == j) by {
                        if m != j {
                            if m < j {
                                assert(after[m].0 != after[j].0);
                            } else {
                                assert(after[j].0 != after[m].0);
                            }
                        }
                    }
                } else {
                    assert forall|m: int| 0 <= m < after.len() implies #[trigger] after[m].0 != e by {
                        if m != i {
                            assert(after[m] == fonts[m]);
                        }
                    }
                }
            }
        },
        None => {
            assert(after[fonts.len() as int].0 == d);
            assert forall|a: int, b: int| 0 <= a < b < after.len() implies #[trigger] after[a].0 != #[trigger] after[b].0 by {
                if b == fonts.len() {
                    assert(fonts[a].0 != d);
                } else {
                    assert(fonts[a].0 != fonts[b].0);
                }
            }
            let k = choose|k: int| 0 <= k < after.len() && #[trigger] after[k].0 == d;
            assert(k == fonts.len()) by {
                if k < fonts.len() {
                    assert(fonts[k].0 == d);
                }
            }
            if e != d {
                if exists|j: int| 0 <= j < fonts.len() && #[trigger] fonts[j].0 == e {
                    let j = choose|j: int| 0 <= j < fonts.len() && #[trigger] fonts[j].0 == e;
                    assert(after[j].0 == e);
                    let m = choose|m: int| 0 <= m < after.len() && #[trigger] after[m].0 == e;
                    assert(m == j) by {
                        if m != j {
                            if m < j {
                                assert(after[m].0 != after[j].0);
                            } else {
                                assert(after[j].0 != after[m].0);
                            }
                        }
                    }
                } else {
                    assert forall|m: int| 0 <= m < after.len() implies #[trigger] after[m].0 != e by {
                        if m < fonts.len() {
                            assert(after[m] == fonts[m]);
                        }
                    }
                }
            }
        },
    }
}

} // verus!
