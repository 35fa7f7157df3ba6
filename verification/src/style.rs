//! The CSS object model: selectors, values, declarations, rules and
//! stylesheets.

use vstd::prelude::*;

verus! {

/// A CSS number, held as the bit pattern of the single-precision value that
/// the tokenizer produced for it. The style engine never computes with
/// numbers; it carries them from the stylesheet to the layout.
#[derive(Copy, Clone, Debug, PartialEq, Eq, Structural)]
pub struct CssNumber {
    pub bits: u32,
}

impl CssNumber {
    /// The number zero.
    pub fn zero() -> (r: CssNumber)
        ensures
            r.bits == 0,
    {
        CssNumber { bits: 0 }
    }

    /// The number one.
    pub fn one() -> (r: CssNumber)
        ensures
            r.bits == 0x3f80_0000,
    {
        CssNumber { bits: 0x3f80_0000 }
    }
}

/// An sRGB colour with an alpha channel.
#[derive(Copy, Clone, Debug, PartialEq, Eq, Structural)]
pub struct Color {
    pub red: u8,
    pub green: u8,
    pub blue: u8,
    pub alpha: CssNumber,
}

impl Color {
    /// An opaque colour from its three channel bytes.
    pub fn rgb_bytes(red: u8, green: u8, blue: u8) -> (r: Color)
        ensures
            r == (Color { red, green, blue, alpha: CssNumber { bits: 0x3f80_0000 } }),
    {
        Color { red, green, blue, alpha: CssNumber::one() }
    }

    /// The same colour with another alpha channel.
    pub fn with_alpha(self, alpha: CssNumber) -> (r: Color)
        ensures
            r == (Color { alpha, ..self }),
    {
        Color { alpha, ..self }
    }
}

#[derive(Copy, Clone, Debug, PartialEq, Eq, Structural)]
pub enum CssColor {
    Color(Color),
}

/// Named colours that the engine uses itself.
pub struct CssNamedColor;

impl CssNamedColor {
    pub fn transparent() -> (r: CssColor)
        ensures
            r == CssColor::Color(Color { red: 0, green: 0, blue: 0, alpha: CssNumber { bits: 0 } }),
    {
        CssColor::Color(Color { red: 0, green: 0, blue: 0, alpha: CssNumber::zero() })
    }

    pub fn black() -> (r: CssColor)
        ensures
            r == CssColor::Color(Color::spec_rgb(0, 0, 0)),
    {
        CssColor::Color(Color::rgb_bytes(0, 0, 0))
    }

    pub fn white() -> (r: CssColor)
        ensures
            r == CssColor::Color(Color::spec_rgb(255, 255, 255)),
    {
        CssColor::Color(Color::rgb_bytes(255, 255, 255))
    }

    pub fn red() -> (r: CssColor)
        ensures
            r == CssColor::Color(Color::spec_rgb(255, 0, 0)),
    {
        CssColor::Color(Color::rgb_bytes(255, 0, 0))
    }

    pub fn green() -> (r: CssColor)
        ensures
            r == CssColor::Color(Color::spec_rgb(0, 128, 0)),
    {
        CssColor::Color(Color::rgb_bytes(0, 128, 0))
    }

    pub fn blue() -> (r: CssColor)
        ensures
            r == CssColor::Color(Color::spec_rgb(0, 0, 255)),
    {
        CssColor::Color(Color::rgb_bytes(0, 0, 255))
    }

    pub fn yellow() -> (r: CssColor)
        ensures
            r == CssColor::Color(Color::spec_rgb(255, 255, 0)),
    {
        CssColor::Color(Color::rgb_bytes(255, 255, 0))
    }
}

impl Color {
    /// The opaque colour with the given channels.
    pub open spec fn spec_rgb(red: u8, green: u8, blue: u8) -> Color {
        Color { red, green, blue, alpha: CssNumber { bits: 0x3f80_0000 } }
    }
}

#[derive(Copy, Clone, Debug, PartialEq, Eq, Structural)]
pub enum CssLength {
    Auto,
    FontSize(CssNumber),
    FontSizeOfRootElement(CssNumber),
    Percentage(CssNumber),
    Pixels(CssNumber),
    UaDefaultViewportHeightPercentage(CssNumber),
    UaDefaultViewportWidthPercentage(CssNumber),
}

#[derive(Copy, Clone, Debug, PartialEq, Eq, Structural)]
pub enum CssLineStyle {
    NoStyle,
    Hidden,
    Dotted,
    Dashed,
    Solid,
    Double,
    Groove,
    Ridge,
    Inset,
    Outset,
}

#[derive(Copy, Clone, Debug, PartialEq, Eq, Structural)]
pub enum CssDisplayInside {
    Flow,
    FlowRoot,
    Table,
    Flex,
    Grid,
    Ruby,
}

#[derive(Copy, Clone, Debug, PartialEq, Eq, Structural)]
pub enum CssDisplayOutside {
    Block,
    Inline,
    RunIn,
}

#[derive(Copy, Clone, Debug, PartialEq, Eq, Structural)]
pub enum CssDisplayBox {
    Contents,
    NoBox,
}

#[derive(Copy, Clone, Debug, PartialEq, Eq, Structural)]
pub enum CssDisplay {
    Box(CssDisplayBox),
    Normal { inside: CssDisplayInside, outside: CssDisplayOutside, is_list_item: bool },
}

#[derive(Copy, Clone, Debug, PartialEq, Eq, Structural)]
pub enum CssWhiteSpace {
    Normal,
    Pre,
    Nowrap,
    PreWrap,
    BreakSpaces,
    PreLine,
}

#[derive(Copy, Clone, Debug, PartialEq, Eq, Structural)]
pub enum CssFloatValue {
    Left,
    Right,
    NoFloat,
    InlineStart,
    InlineEnd,
}

#[derive(Copy, Clone, Debug, PartialEq, Eq, Structural)]
pub enum CssFontStyle {
    Normal,
    Italic,
    Oblique,
}

#[derive(Copy, Clone, Debug, PartialEq, Eq, Structural)]
pub enum CssGenericFontFamilyName {
    Serif,
    SansSerif,
    Cursive,
    Fantasy,
    Monospace,
    SystemUi,
    Emoji,
    Math,
    Fangsong,
    UiSerif,
    UiSansSerif,
    UiMonospace,
    UiRounded,
}

#[derive(Clone, Debug, PartialEq, Eq)]
pub enum CssFontFamilyName {
    Generic(CssGenericFontFamilyName),
    Name(String),
}

#[derive(Clone, Debug, PartialEq, Eq)]
pub struct CssFontShorthand {
    pub families: Vec<CssFontFamilyName>,
    pub style: Option<CssFontStyle>,
    pub size: CssLength,
    pub line_height: Option<CssLength>,
    pub weight: Option<CssNumber>,
}

#[derive(Copy, Clone, Debug, PartialEq, Eq, Structural)]
pub struct CssBorderLonghand {
    pub color: Option<CssColor>,
    pub style: Option<CssLineStyle>,
    pub width: Option<CssLength>,
}

#[derive(Copy, Clone, Debug, PartialEq, Eq, Structural)]
pub enum ValueComponentList {
    TwoColors(CssColor, CssColor),
    ThreeColors(CssColor, CssColor, CssColor),
    FourColors(CssColor, CssColor, CssColor, CssColor),
    TwoLengths(CssLength, CssLength),
    ThreeLengths(CssLength, CssLength, CssLength),
    FourLengths(CssLength, CssLength, CssLength, CssLength),
}

#[derive(Clone, Debug, PartialEq, Eq)]
pub enum Value {
    BorderLonghand(CssBorderLonghand),
    Color(CssColor),
    ComponentList(ValueComponentList),
    Display(CssDisplay),
    Float(CssFloatValue),
    FontFamily(Vec<CssFontFamilyName>),
    FontShorthand(CssFontShorthand),
    FontStyle(CssFontStyle),
    Length(CssLength),
    LineStyle(CssLineStyle),
    WhiteSpace(CssWhiteSpace),
}

/// A value as the contracts see it: the lists of font families as
/// sequences, every other kind of value as it is.
pub enum ValueView {
    Plain(Value),
    FontFamily(Seq<CssFontFamilyName>),
    FontShorthand {
        families: Seq<CssFontFamilyName>,
        style: Option<CssFontStyle>,
        size: CssLength,
        line_height: Option<CssLength>,
        weight: Option<CssNumber>,
    },
}

impl View for Value {
    type V = ValueView;

    open spec fn view(&self) -> ValueView {
        match self {
            Value::FontFamily(f) => ValueView::FontFamily(f@),
            Value::FontShorthand(s) => ValueView::FontShorthand {
                families: s.families@,
                style: s.style,
                size: s.size,
                line_height: s.line_height,
                weight: s.weight,
            },
            _ => ValueView::Plain(*self),
        }
    }
}

#[derive(Copy, Clone, Debug, PartialEq, Eq, Structural)]
pub enum Property {
    Invalid,
    BackgroundColor,
    Border,
    BorderBottom,
    BorderBottomColor,
    BorderBottomStyle,
    BorderBottomWidth,
    BorderColor,
    BorderLeft,
    BorderLeftColor,
    BorderLeftStyle,
    BorderLeftWidth,
    BorderRight,
    BorderRightColor,
    BorderRightStyle,
    BorderRightWidth,
    BorderStyle,
    BorderTop,
    BorderTopColor,
    BorderTopStyle,
    BorderTopWidth,
    BorderWidth,
    Color,
    Display,
    Float,
    Font,
    FontFamily,
    FontSize,
    FontStyle,
    Height,
    WhiteSpace,
    Width,
}

#[derive(Clone, Debug, PartialEq, Eq)]
pub struct Declaration {
    pub property: Property,
    pub value: Value,
}

impl View for Declaration {
    type V = (Property, ValueView);

    open spec fn view(&self) -> (Property, ValueView) {
        (self.property, self.value@)
    }
}

impl Declaration {
    pub fn new(property: Property, value: Value) -> (r: Declaration)
        ensures
            r == (Declaration { property, value }),
    {
        Declaration { property, value }
    }

    pub fn property(&self) -> (r: Property)
        ensures
            r == self.property,
    {
        self.property
    }

    pub fn value(&self) -> (r: &Value)
        ensures
            *r == self.value,
    {
        &self.value
    }
}

#[derive(Copy, Clone, Debug, PartialEq, Eq, Structural)]
pub enum CascadeOrigin {
    UserAgent,
    User,
    Author,
}

#[derive(Copy, Clone, Debug, PartialEq, Eq, Structural)]
pub enum AttributeSelectorCaseSensitivity {
    Default,
    AsciiCaseInsensitive,
    Identical,
}

#[derive(Clone, Debug, PartialEq, Eq)]
pub enum AttributeSelectorKind {
    RegardlessOfValue,
    Exact(String),
    OneOfWhitespaceSeparatedList(String),
    ExactOrStartsWithAndHyphen(String),
    BeginsWith(String),
    EndsWith(String),
    Contains(String),
}

#[derive(Clone, Debug, PartialEq, Eq)]
pub struct AttributeSelector {
    pub attribute_name: String,
    pub case_sensitivity: AttributeSelectorCaseSensitivity,
    pub kind: AttributeSelectorKind,
}

impl AttributeSelector {
    pub fn new(
        attribute_name: String,
        case_sensitivity: AttributeSelectorCaseSensitivity,
        kind: AttributeSelectorKind,
    ) -> (r: AttributeSelector)
        ensures
            r == (AttributeSelector { attribute_name, case_sensitivity, kind }),
    {
        AttributeSelector { attribute_name, case_sensitivity, kind }
    }

    pub fn attribute_name(&self) -> (r: &str)
        ensures
            r@ == self.attribute_name@,
    {
        self.attribute_name.as_str()
    }

    pub fn case_sensitivity(&self) -> (r: AttributeSelectorCaseSensitivity)
        ensures
            r == self.case_sensitivity,
    {
        self.case_sensitivity
    }

    pub fn kind(&self) -> (r: &AttributeSelectorKind)
        ensures
            *r == self.kind,
    {
        &self.kind
    }
}

#[derive(Clone, Debug, PartialEq, Eq)]
pub enum SimpleSelector {
    Attribute(AttributeSelector),
    Class(String),
    Id(String),
    TypeSelector(String),
    Universal,
}

#[derive(Clone, Debug, PartialEq, Eq)]
pub enum Selector {
    Simple(SimpleSelector),
}

#[derive(Clone, Debug, PartialEq, Eq)]
pub struct SelectorList {
    pub items: Vec<Selector>,
}

#[derive(Clone, Debug, PartialEq, Eq)]
pub struct StyleRule {
    pub cascade_origin: CascadeOrigin,
    pub selector_list: SelectorList,
    pub declarations: Vec<Declaration>,
}

#[derive(Copy, Clone, Debug, PartialEq, Eq, Structural)]
pub enum MediaType {
    All,
    Print,
    Screen,
}

#[derive(Copy, Clone, Debug, PartialEq, Eq, Structural)]
pub enum MediaQuery {
    Type(MediaType),
}

#[derive(Debug, PartialEq, Eq)]
pub struct AtMediaRule {
    pub media_query_list: Vec<MediaQuery>,
    pub stylesheet: Stylesheet,
}

#[derive(Copy, Clone, Debug, PartialEq, Eq, Structural)]
pub enum CssFontFaceFormat {
    Collection,
    EmbeddedOpentype,
    Opentype,
    Svg,
    Truetype,
    Unknown,
    Woff,
    Woff2,
}

#[derive(Clone, Debug, PartialEq, Eq)]
pub enum CssFontFaceSrc {
    Local(String),
    WebFont { url: String, format: CssFontFaceFormat },
}

/// A range of code points, `start` included and `end` excluded.
#[derive(Copy, Clone, Debug, PartialEq, Eq, Structural)]
pub struct CodePointRange {
    pub start: u32,
    pub end: u32,
}

#[derive(Clone, Debug, PartialEq, Eq)]
pub enum CssFontFaceDeclaration {
    FontFamily(String),
    FontStyle(CssFontStyle),
    FontWeight(CssNumber),
    Src { sources: Vec<CssFontFaceSrc> },
    UnicodeRanges(Vec<CodePointRange>),
}

#[derive(Clone, Debug, PartialEq, Eq)]
pub struct CssFontFaceAtRule {
    pub declarations: Vec<CssFontFaceDeclaration>,
}

#[derive(Debug, PartialEq, Eq)]
pub enum Rule {
    AtFontFace(CssFontFaceAtRule),
    AtMedia(AtMediaRule),
    Style(StyleRule),
}

impl Rule {
    pub fn try_as_style(&self) -> (r: Option<&StyleRule>)
        ensures
            match self {
                Rule::Style(s) => r == Some(s),
                _ => r is None,
            },
    {
        match self {
            Rule::Style(s) => Some(s),
            _ => None,
        }
    }
}

#[derive(Debug, PartialEq, Eq)]
pub struct Stylesheet {
    pub rules: Vec<Rule>,
}

impl Stylesheet {
    pub fn new() -> (r: Stylesheet)
        ensures
            r.rules@.len() == 0,
    {
        Stylesheet { rules: Vec::new() }
    }

    pub fn push(&mut self, rule: Rule)
        ensures
            final(self).rules@ == old(self).rules@.push(rule),
    {
        self.rules.push(rule);
    }

    pub fn rules(&self) -> (r: &[Rule])
        ensures
            r@ == self.rules@,
    {
        self.rules.as_slice()
    }
}

} // verus!
