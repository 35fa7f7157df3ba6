//! The cascaded values of one node, and how a declaration sets them.

use vstd::prelude::*;
use vstd::std_specs::convert::{FromSpecImpl, TryFromSpecImpl};

use crate::style::{
    Color, CssBorderLonghand, CssColor, CssDisplay, CssDisplayInside, CssDisplayOutside,
    CssFloatValue, CssLength, CssLineStyle, CssNamedColor, CssNumber, CssWhiteSpace, Property, Value, ValueView,
};

verus! {

/// The initial value of the [`border-color`](https://drafts.csswg.org/css-backgrounds/#typedef-line-color).
pub open spec fn initial_border_color() -> CssColor {
    CssColor::Color(Color::spec_rgb(0, 0, 0))
}

/// The initial value of the [`border-width`](https://drafts.csswg.org/css-backgrounds/#typedef-line-width):
/// three pixels.
pub open spec fn initial_border_width() -> CssLength {
    CssLength::Pixels(CssNumber { bits: 0x4040_0000 })
}

#[derive(Copy, Clone, Debug, PartialEq, Eq, Structural)]
pub struct BorderProperties {
    pub color: CssColor,
    pub style: CssLineStyle,
    pub width: CssLength,
}

impl BorderProperties {
    /// The border that no declaration has touched.
    pub open spec fn initial() -> BorderProperties {
        BorderProperties {
            color: initial_border_color(),
            style: CssLineStyle::NoStyle,
            width: initial_border_width(),
        }
    }

    /// The border that a border longhand value describes: the parts it gives,
    /// and the initial values for the others.
    pub open spec fn from_longhand(value: CssBorderLonghand) -> BorderProperties {
        BorderProperties {
            color: match value.color { Some(c) => c, None => initial_border_color() },
            style: match value.style { Some(s) => s, None => CssLineStyle::NoStyle },
            width: match value.width { Some(w) => w, None => initial_border_width() },
        }
    }

    /// The border that a value of a `border` shorthand describes, if any.
    pub open spec fn from_value(value: Value) -> Option<BorderProperties> {
        match value {
            Value::BorderLonghand(l) => Some(BorderProperties::from_longhand(l)),
            Value::Color(color) => Some(BorderProperties { color, ..BorderProperties::initial() }),
            Value::Length(width) => Some(BorderProperties { width, ..BorderProperties::initial() }),
            Value::LineStyle(style) => Some(BorderProperties { style, ..BorderProperties::initial() }),
            _ => None,
        }
    }

    /// The border that a value describes, or `Err` for a value that cannot
    /// describe a border.
    pub fn try_from_value(value: &Value) -> (r: Result<BorderProperties, ()>)
        ensures
            match BorderProperties::from_value(*value) {
                Some(b) => r == Ok::<BorderProperties, ()>(b),
                None => r == Err::<BorderProperties, ()>(()),
            },
    {
        match value {
            Value::BorderLonghand(longhand) => Ok(BorderProperties::from(*longhand)),
            Value::Color(color) => {
                let mut border = BorderProperties::default();
                border.color = *color;
                Ok(border)
            },
            Value::Length(width) => {
                let mut border = BorderProperties::default();
                border.width = *width;
                Ok(border)
            },
            Value::LineStyle(style) => {
                let mut border = BorderProperties::default();
                border.style = *style;
                Ok(border)
            },
            _ => Err(()),
        }
    }
}

impl Default for BorderProperties {
    fn default() -> (r: BorderProperties)
        ensures
            r == BorderProperties::initial(),
    {
        BorderProperties {
            color: CssColor::Color(Color::rgb_bytes(0, 0, 0)),
            style: CssLineStyle::NoStyle,
            width: CssLength::Pixels(CssNumber { bits: 0x4040_0000 }),
        }
    }
}

impl From<CssBorderLonghand> for BorderProperties {
    fn from(value: CssBorderLonghand) -> (r: BorderProperties) {
        let mut border = BorderProperties::default();
        if let Some(color) = value.color {
            border.color = color;
        }
        if let Some(style) = value.style {
            border.style = style;
        }
        if let Some(width) = value.width {
            border.width = width;
        }
        border
    }
}

impl FromSpecImpl<CssBorderLonghand> for BorderProperties {
    open spec fn obeys_from_spec() -> bool {
        true
    }

    open spec fn from_spec(value: CssBorderLonghand) -> BorderProperties {
        BorderProperties::from_longhand(value)
    }
}

impl TryFrom<Value> for BorderProperties {
    type Error = ();

    fn try_from(value: Value) -> (r: Result<BorderProperties, ()>) {
        BorderProperties::try_from_value(&value)
    }
}

impl TryFromSpecImpl<Value> for BorderProperties {
    open spec fn obeys_try_from_spec() -> bool {
        true
    }

    open spec fn try_from_spec(value: Value) -> Result<BorderProperties, ()> {
        match BorderProperties::from_value(value) {
            Some(b) => Ok(b),
            None => Err(()),
        }
    }
}

/// The cascaded value of each property that style resolution keeps;
/// `None` where no declaration applied.
#[derive(Copy, Clone, Debug, PartialEq, Eq, Structural)]
pub struct PropertyMap {
    pub background_color: Option<CssColor>,
    pub border_bottom: BorderProperties,
    pub border_left: BorderProperties,
    pub border_right: BorderProperties,
    pub border_top: BorderProperties,
    pub color: Option<CssColor>,
    pub display: Option<CssDisplay>,
    pub font_size: Option<CssLength>,
    pub height: Option<CssLength>,
    /// The margins, which the presentational hints of a `body` element
    /// set; no declaration sets them.
    pub margin_bottom: Option<CssLength>,
    pub margin_left: Option<CssLength>,
    pub margin_right: Option<CssLength>,
    pub margin_top: Option<CssLength>,
    pub white_space: Option<CssWhiteSpace>,
    pub width: Option<CssLength>,
}

#[derive(Copy, Clone, Debug, PartialEq, Eq, Structural, PartialOrd, Ord)]
pub enum PropertyMapDidApply {
    NoBecauseOfAnInvalidProperty,
    NoBecauseOfAnInvalidValue,
    Yes,
}

impl PropertyMap {
    /// The map in which no declaration applied.
    pub open spec fn empty() -> PropertyMap {
        PropertyMap {
            background_color: None,
            border_bottom: BorderProperties::initial(),
            border_left: BorderProperties::initial(),
            border_right: BorderProperties::initial(),
            border_top: BorderProperties::initial(),
            color: None,
            display: None,
            font_size: None,
            height: None,
            margin_bottom: None,
            margin_left: None,
            margin_right: None,
            margin_top: None,
            white_space: None,
            width: None,
        }
    }

    pub fn new() -> (r: PropertyMap)
        ensures
            r == PropertyMap::empty(),
    {
        PropertyMap::default()
    }
}

impl Default for PropertyMap {
    fn default() -> (r: PropertyMap)
        ensures
            r == PropertyMap::empty(),
    {
        PropertyMap {
            background_color: None,
            border_bottom: BorderProperties::default(),
            border_left: BorderProperties::default(),
            border_right: BorderProperties::default(),
            border_top: BorderProperties::default(),
            color: None,
            display: None,
            font_size: None,
            height: None,
            margin_bottom: None,
            margin_left: None,
            margin_right: None,
            margin_top: None,
            white_space: None,
            width: None,
        }
    }
}

/// The map after a declaration of `property` with `value`, and whether the
/// declaration applied. A declaration applies when the map keeps the property
/// and the value has the kind that the property takes; the shorthands
/// `border`, `border-color`, `border-style` and `border-width` set all four
/// sides. Properties that the map does not keep, and the invalid property,
/// do not apply.
pub open spec fn applied(m: PropertyMap, property: Property, value: Value) -> (PropertyMap, PropertyMapDidApply) {
    let no_value = (m, PropertyMapDidApply::NoBecauseOfAnInvalidValue);
    let yes = PropertyMapDidApply::Yes;
    match property {
        Property::BackgroundColor => match value {
            Value::Color(c) => (PropertyMap { background_color: Some(c), ..m }, yes),
            _ => no_value,
        },
        Property::Border => match BorderProperties::from_value(value) {
            Some(b) => (PropertyMap { border_bottom: b, border_left: b, border_right: b, border_top: b, ..m }, yes),
            None => no_value,
        },
        Property::BorderBottom => match BorderProperties::from_value(value) {
            Some(b) => (PropertyMap { border_bottom: b, ..m }, yes),
            None => no_value,
        },
        Property::BorderLeft => match BorderProperties::from_value(value) {
            Some(b) => (PropertyMap { border_left: b, ..m }, yes),
            None => no_value,
        },
        Property::BorderRight => match BorderProperties::from_value(value) {
            Some(b) => (PropertyMap { border_right: b, ..m }, yes),
            None => no_value,
        },
        Property::BorderTop => match BorderProperties::from_value(value) {
            Some(b) => (PropertyMap { border_top: b, ..m }, yes),
            None => no_value,
        },
        Property::BorderBottomColor => match value {
            Value::Color(c) => (PropertyMap { border_bottom: BorderProperties { color: c, ..m.border_bottom }, ..m }, yes),
            _ => no_value,
        },
        Property::BorderLeftColor => match value {
            Value::Color(c) => (PropertyMap { border_left: BorderProperties { color: c, ..m.border_left }, ..m }, yes),
            _ => no_value,
        },
        Property::BorderRightColor => match value {
            Value::Color(c) => (PropertyMap { border_right: BorderProperties { color: c, ..m.border_right }, ..m }, yes),
            _ => no_value,
        },
        Property::BorderTopColor => match value {
            Value::Color(c) => (PropertyMap { border_top: BorderProperties { color: c, ..m.border_top }, ..m }, yes),
            _ => no_value,
        },
        Property::BorderBottomStyle => match value {
            Value::LineStyle(s) => (PropertyMap { border_bottom: BorderProperties { style: s, ..m.border_bottom }, ..m }, yes),
            _ => no_value,
        },
        Property::BorderLeftStyle => match value {
            Value::LineStyle(s) => (PropertyMap { border_left: BorderProperties { style: s, ..m.border_left }, ..m }, yes),
            _ => no_value,
        },
        Property::BorderRightStyle => match value {
            Value::LineStyle(s) => (PropertyMap { border_right: BorderProperties { style: s, ..m.border_right }, ..m }, yes),
            _ => no_value,
        },
        Property::BorderTopStyle => match value {
            Value::LineStyle(s) => (PropertyMap { border_top: BorderProperties { style: s, ..m.border_top }, ..m }, yes),
            _ => no_value,
        },
        Property::BorderBottomWidth => match value {
            Value::Length(w) => (PropertyMap { border_bottom: BorderProperties { width: w, ..m.border_bottom }, ..m }, yes),
            _ => no_value,
        },
        Property::BorderLeftWidth => match value {
            Value::Length(w) => (PropertyMap { border_left: BorderProperties { width: w, ..m.border_left }, ..m }, yes),
            _ => no_value,
        },
        Property::BorderRightWidth => match value {
            Value::Length(w) => (PropertyMap { border_right: BorderProperties { width: w, ..m.border_right }, ..m }, yes),
            _ => no_value,
        },
        Property::BorderTopWidth => match value {
            Value::Length(w) => (PropertyMap { border_top: BorderProperties { width: w, ..m.border_top }, ..m }, yes),
            _ => no_value,
        },
        Property::BorderColor => match value {
            Value::Color(c) => (PropertyMap {
                border_bottom: BorderProperties { color: c, ..m.border_bottom },
                border_left: BorderProperties { color: c, ..m.border_left },
                border_right: BorderProperties { color: c, ..m.border_right },
                border_top: BorderProperties { color: c, ..m.border_top },
                ..m
            }, yes),
            _ => no_value,
        },
        Property::BorderStyle => match value {
            Value::LineStyle(s) => (PropertyMap {
                border_bottom: BorderProperties { style: s, ..m.border_bottom },
                border_left: BorderProperties { style: s, ..m.border_left },
                border_right: BorderProperties { style: s, ..m.border_right },
                border_top: BorderProperties { style: s, ..m.border_top },
                ..m
            }, yes),
            _ => no_value,
        },
        Property::BorderWidth => match value {
            Value::Length(w) => (PropertyMap {
                border_bottom: BorderProperties { width: w, ..m.border_bottom },
                border_left: BorderProperties { width: w, ..m.border_left },
                border_right: BorderProperties { width: w, ..m.border_right },
                border_top: BorderProperties { width: w, ..m.border_top },
                ..m
            }, yes),
            _ => no_value,
        },
        Property::Color => match value {
            Value::Color(c) => (PropertyMap { color: Some(c), ..m }, yes),
            _ => no_value,
        },
        Property::Display => match value {
            Value::Display(d) => (PropertyMap { display: Some(d), ..m }, yes),
            _ => no_value,
        },
        Property::FontSize => match value {
            Value::Length(l) => (PropertyMap { font_size: Some(l), ..m }, yes),
            _ => no_value,
        },
        Property::Height => match value {
            Value::Length(l) => (PropertyMap { height: Some(l), ..m }, yes),
            _ => no_value,
        },
        Property::Width => match value {
            Value::Length(l) => (PropertyMap { width: Some(l), ..m }, yes),
            _ => no_value,
        },
        Property::WhiteSpace => match value {
            Value::WhiteSpace(w) => (PropertyMap { white_space: Some(w), ..m }, yes),
            _ => no_value,
        },
        _ => (m, PropertyMapDidApply::NoBecauseOfAnInvalidProperty),
    }
}

impl PropertyMap {
    /// Applies one declaration; see [`applied`].
    pub fn apply_property(&mut self, property: Property, value: &Value) -> (r: PropertyMapDidApply)
        ensures
            (*final(self), r) == applied(*old(self), property, *value),
    {
        match property {
            Property::Invalid | Property::Float | Property::Font | Property::FontFamily
            | Property::FontStyle => PropertyMapDidApply::NoBecauseOfAnInvalidProperty,
            Property::BackgroundColor => if let Value::Color(color) = value {
                self.background_color = Some(*color);
                PropertyMapDidApply::Yes
            } else {
                PropertyMapDidApply::NoBecauseOfAnInvalidValue
            },
            Property::Border => match BorderProperties::try_from_value(value) {
                Ok(border) => {
                    self.border_bottom = border;
                    self.border_left = border;
                    self.border_right = border;
                    self.border_top = border;
                    PropertyMapDidApply::Yes
                },
                Err(..) => PropertyMapDidApply::NoBecauseOfAnInvalidValue,
            },
            Property::BorderBottom => match BorderProperties::try_from_value(value) {
                Ok(border) => {
                    self.border_bottom = border;
                    PropertyMapDidApply::Yes
                },
                Err(..) => PropertyMapDidApply::NoBecauseOfAnInvalidValue,
            },
            Property::BorderLeft => match BorderProperties::try_from_value(value) {
                Ok(border) => {
                    self.border_left = border;
                    PropertyMapDidApply::Yes
                },
                Err(..) => PropertyMapDidApply::NoBecauseOfAnInvalidValue,
            },
            Property::BorderRight => match BorderProperties::try_from_value(value) {
                Ok(border) => {
                    self.border_right = border;
                    PropertyMapDidApply::Yes
                },
                Err(..) => PropertyMapDidApply::NoBecauseOfAnInvalidValue,
            },
            Property::BorderTop => match BorderProperties::try_from_value(value) {
                Ok(border) => {
                    self.border_top = border;
                    PropertyMapDidApply::Yes
                },
                Err(..) => PropertyMapDidApply::NoBecauseOfAnInvalidValue,
            },
            Property::BorderBottomColor => if let Value::Color(color) = value {
                self.border_bottom.color = *color;
                PropertyMapDidApply::Yes
            } else {
                PropertyMapDidApply::NoBecauseOfAnInvalidValue
            },
            Property::BorderLeftColor => if let Value::Color(color) = value {
                self.border_left.color = *color;
                PropertyMapDidApply::Yes
            } else {
                PropertyMapDidApply::NoBecauseOfAnInvalidValue
            },
            Property::BorderRightColor => if let Value::Color(color) = value {
                self.border_right.color = *color;
                PropertyMapDidApply::Yes
            } else {
                PropertyMapDidApply::NoBecauseOfAnInvalidValue
            },
            Property::BorderTopColor => if let Value::Color(color) = value {
                self.border_top.color = *color;
                PropertyMapDidApply::Yes
            } else {
                PropertyMapDidApply::NoBecauseOfAnInvalidValue
            },
            Property::BorderBottomStyle => if let Value::LineStyle(style) = value {
                self.border_bottom.style = *style;
                PropertyMapDidApply::Yes
            } else {
                PropertyMapDidApply::NoBecauseOfAnInvalidValue
            },
            Property::BorderLeftStyle => if let Value::LineStyle(style) = value {
                self.border_left.style = *style;
                PropertyMapDidApply::Yes
            } else {
                PropertyMapDidApply::NoBecauseOfAnInvalidValue
            },
            Property::BorderRightStyle => if let Value::LineStyle(style) = value {
                self.border_right.style = *style;
                PropertyMapDidApply::Yes
            } else {
                PropertyMapDidApply::NoBecauseOfAnInvalidValue
            },
            Property::BorderTopStyle => if let Value::LineStyle(style) = value {
                self.border_top.style = *style;
                PropertyMapDidApply::Yes
            } else {
                PropertyMapDidApply::NoBecauseOfAnInvalidValue
            },
            Property::BorderBottomWidth => if let Value::Length(width) = value {
                self.border_bottom.width = *width;
                PropertyMapDidApply::Yes
            } else {
                PropertyMapDidApply::NoBecauseOfAnInvalidValue
            },
            Property::BorderLeftWidth => if let Value::Length(width) = value {
                self.border_left.width = *width;
                PropertyMapDidApply::Yes
            } else {
                PropertyMapDidApply::NoBecauseOfAnInvalidValue
            },
            Property::BorderRightWidth => if let Value::Length(width) = value {
                self.border_right.width = *width;
                PropertyMapDidApply::Yes
            } else {
                PropertyMapDidApply::NoBecauseOfAnInvalidValue
            },
            Property::BorderTopWidth => if let Value::Length(width) = value {
                self.border_top.width = *width;
                PropertyMapDidApply::Yes
            } else {
                PropertyMapDidApply::NoBecauseOfAnInvalidValue
            },
            Property::BorderColor => if let Value::Color(color) = value {
                self.border_bottom.color = *color;
                self.border_left.color = *color;
                self.border_right.color = *color;
                self.border_top.color = *color;
                PropertyMapDidApply::Yes
            } else {
                PropertyMapDidApply::NoBecauseOfAnInvalidValue
            },
            Property::BorderStyle => if let Value::LineStyle(style) = value {
                self.border_bottom.style = *style;
                self.border_left.style = *style;
                self.border_right.style = *style;
                self.border_top.style = *style;
                PropertyMapDidApply::Yes
            } else {
                PropertyMapDidApply::NoBecauseOfAnInvalidValue
            },
            Property::BorderWidth => if let Value::Length(width) = value {
                self.border_bottom.width = *width;
                self.border_left.width = *width;
                self.border_right.width = *width;
                self.border_top.width = *width;
                PropertyMapDidApply::Yes
            } else {
                PropertyMapDidApply::NoBecauseOfAnInvalidValue
            },
            Property::Color => if let Value::Color(color) = value {
                self.color = Some(*color);
                PropertyMapDidApply::Yes
            } else {
                PropertyMapDidApply::NoBecauseOfAnInvalidValue
            },
            Property::Display => if let Value::Display(display) = value {
                self.display = Some(*display);
                PropertyMapDidApply::Yes
            } else {
                PropertyMapDidApply::NoBecauseOfAnInvalidValue
            },
            Property::FontSize => if let Value::Length(length) = value {
                self.font_size = Some(*length);
                PropertyMapDidApply::Yes
            } else {
                PropertyMapDidApply::NoBecauseOfAnInvalidValue
            },
            Property::Height => if let Value::Length(length) = value {
                self.height = Some(*length);
                PropertyMapDidApply::Yes
            } else {
                PropertyMapDidApply::NoBecauseOfAnInvalidValue
            },
            Property::Width => if let Value::Length(length) = value {
                self.width = Some(*length);
                PropertyMapDidApply::Yes
            } else {
                PropertyMapDidApply::NoBecauseOfAnInvalidValue
            },
            Property::WhiteSpace => if let Value::WhiteSpace(white_space) = value {
                self.white_space = Some(*white_space);
                PropertyMapDidApply::Yes
            } else {
                PropertyMapDidApply::NoBecauseOfAnInvalidValue
            },
        }
    }

    pub fn background_color(&self) -> (r: CssColor)
        ensures
            r == (match self.background_color {
                Some(c) => c,
                None => CssColor::Color(Color { red: 0, green: 0, blue: 0, alpha: CssNumber { bits: 0 } }),
            }),
    {
        match self.background_color {
            Some(c) => c,
            None => CssNamedColor::transparent(),
        }
    }

    /// The text colour; the initial value is implementation-defined, black
    /// here.
    pub fn color(&self) -> (r: CssColor)
        ensures
            r == (match self.color {
                Some(c) => c,
                None => CssColor::Color(Color::spec_rgb(0, 0, 0)),
            }),
    {
        match self.color {
            Some(c) => c,
            None => CssNamedColor::black(),
        }
    }

    /// The font size; sixteen pixels where none applied.
    pub fn font_size(&self) -> (r: CssLength)
        ensures
            r == (match self.font_size {
                Some(l) => l,
                None => CssLength::Pixels(CssNumber { bits: 0x4180_0000 }),
            }),
    {
        match self.font_size {
            Some(l) => l,
            None => CssLength::Pixels(CssNumber { bits: 0x4180_0000 }),
        }
    }

    pub fn height(&self) -> (r: CssLength)
        ensures
            r == (match self.height {
                Some(l) => l,
                None => CssLength::Auto,
            }),
    {
        match self.height {
            Some(l) => l,
            None => CssLength::Auto,
        }
    }

    pub fn width(&self) -> (r: CssLength)
        ensures
            r == (match self.width {
                Some(l) => l,
                None => CssLength::Auto,
            }),
    {
        match self.width {
            Some(l) => l,
            None => CssLength::Auto,
        }
    }

    /// The display type; a block box with flow layout where none applied.
    pub fn display(&self) -> (r: CssDisplay)
        ensures
            r == (match self.display {
                Some(d) => d,
                None => CssDisplay::Normal {
                    inside: CssDisplayInside::Flow,
                    outside: CssDisplayOutside::Block,
                    is_list_item: false,
                },
            }),
    {
        match self.display {
            Some(d) => d,
            None => CssDisplay::Normal {
                inside: CssDisplayInside::Flow,
                outside: CssDisplayOutside::Block,
                is_list_item: false,
            },
        }
    }
}

/// A declaration that does not apply leaves the map unchanged.
pub proof fn rejected_declaration_changes_nothing(m: PropertyMap, property: Property, value: Value)
    requires
        applied(m, property, value).1 != PropertyMapDidApply::Yes,
    ensures
        applied(m, property, value).0 == m,
{
}

/// Applying the same declaration twice is the same as applying it once.
pub proof fn apply_property_idempotent(m: PropertyMap, property: Property, value: Value)
    ensures
        applied(applied(m, property, value).0, property, value) == applied(m, property, value),
{
}

/// Of two declarations of one property, the later one wins when it applies.
pub proof fn later_declaration_wins(m: PropertyMap, property: Property, first: Value, second: Value)
    requires
        applied(m, property, second).1 == PropertyMapDidApply::Yes,
    ensures
        applied(applied(m, property, first).0, property, second).0 == applied(m, property, second).0,
{
}

/// The effect of a declaration whose value is seen as `v`: a list of font
/// families, or the `font` shorthand, is a value that no property that the
/// map keeps takes.
pub open spec fn applied_view(m: PropertyMap, property: Property, v: ValueView) -> (PropertyMap, PropertyMapDidApply) {
    match v {
        ValueView::Plain(x) => applied(m, property, x),
        _ => applied(m, property, Value::Float(CssFloatValue::Left)),
    }
}

/// A declaration has the effect that its view says.
pub proof fn applied_view_agrees(m: PropertyMap, property: Property, value: Value)
    ensures
        applied(m, property, value) == applied_view(m, property, value@),
{
}

/// The fields of a property map.
#[derive(Copy, Clone, Debug, PartialEq, Eq, Structural)]
pub enum MapField {
    BackgroundColor,
    BorderBottom,
    BorderLeft,
    BorderRight,
    BorderTop,
    Color,
    Display,
    FontSize,
    Height,
    MarginBottom,
    MarginLeft,
    MarginRight,
    MarginTop,
    WhiteSpace,
    Width,
}

/// `a` and `b` hold the same value in every field but `f`.
pub open spec fn agree_except(a: PropertyMap, b: PropertyMap, f: MapField) -> bool {
    &&& (f == MapField::BackgroundColor || a.background_color == b.background_color)
    &&& (f == MapField::BorderBottom || a.border_bottom == b.border_bottom)
    &&& (f == MapField::BorderLeft || a.border_left == b.border_left)
    &&& (f == MapField::BorderRight || a.border_right == b.border_right)
    &&& (f == MapField::BorderTop || a.border_top == b.border_top)
    &&& (f == MapField::Color || a.color == b.color)
    &&& (f == MapField::Display || a.display == b.display)
    &&& (f == MapField::FontSize || a.font_size == b.font_size)
    &&& (f == MapField::Height || a.height == b.height)
    &&& (f == MapField::MarginBottom || a.margin_bottom == b.margin_bottom)
    &&& (f == MapField::MarginLeft || a.margin_left == b.margin_left)
    &&& (f == MapField::MarginRight || a.margin_right == b.margin_right)
    &&& (f == MapField::MarginTop || a.margin_top == b.margin_top)
    &&& (f == MapField::WhiteSpace || a.white_space == b.white_space)
    &&& (f == MapField::Width || a.width == b.width)
}

/// `a` and `b` hold the same value in every field but the four borders.
pub open spec fn agree_except_borders(a: PropertyMap, b: PropertyMap) -> bool {
    &&& a.background_color == b.background_color
    &&& a.color == b.color
    &&& a.display == b.display
    &&& a.font_size == b.font_size
    &&& a.height == b.height
    &&& a.margin_bottom == b.margin_bottom
    &&& a.margin_left == b.margin_left
    &&& a.margin_right == b.margin_right
    &&& a.margin_top == b.margin_top
    &&& a.white_space == b.white_space
    &&& a.width == b.width
}

/// A declaration of a plain property with a value of the kind it takes
/// applies, puts that value in the property's own field, and leaves every
/// other field as it was: `width` sets the width and nothing else,
/// `height` the height, and so on.
pub proof fn declaration_sets_its_own_field(m: PropertyMap, c: CssColor, d: CssDisplay, l: CssLength, w: CssWhiteSpace)
    ensures
        applied(m, Property::BackgroundColor, Value::Color(c)).1 == PropertyMapDidApply::Yes,
        applied(m, Property::BackgroundColor, Value::Color(c)).0.background_color == Some(c),
        agree_except(m, applied(m, Property::BackgroundColor, Value::Color(c)).0, MapField::BackgroundColor),
        applied(m, Property::Color, Value::Color(c)).1 == PropertyMapDidApply::Yes,
        applied(m, Property::Color, Value::Color(c)).0.color == Some(c),
        agree_except(m, applied(m, Property::Color, Value::Color(c)).0, MapField::Color),
        applied(m, Property::Display, Value::Display(d)).1 == PropertyMapDidApply::Yes,
        applied(m, Property::Display, Value::Display(d)).0.display == Some(d),
        agree_except(m, applied(m, Property::Display, Value::Display(d)).0, MapField::Display),
        applied(m, Property::FontSize, Value::Length(l)).1 == PropertyMapDidApply::Yes,
        applied(m, Property::FontSize, Value::Length(l)).0.font_size == Some(l),
        agree_except(m, applied(m, Property::FontSize, Value::Length(l)).0, MapField::FontSize),
        applied(m, Property::Height, Value::Length(l)).1 == PropertyMapDidApply::Yes,
        applied(m, Property::Height, Value::Length(l)).0.height == Some(l),
        agree_except(m, applied(m, Property::Height, Value::Length(l)).0, MapField::Height),
        applied(m, Property::Width, Value::Length(l)).1 == PropertyMapDidApply::Yes,
        applied(m, Property::Width, Value::Length(l)).0.width == Some(l),
        agree_except(m, applied(m, Property::Width, Value::Length(l)).0, MapField::Width),
        applied(m, Property::WhiteSpace, Value::WhiteSpace(w)).1 == PropertyMapDidApply::Yes,
        applied(m, Property::WhiteSpace, Value::WhiteSpace(w)).0.white_space == Some(w),
        agree_except(m, applied(m, Property::WhiteSpace, Value::WhiteSpace(w)).0, MapField::WhiteSpace),
{
}

/// A border longhand of one side sets that part (colour, style or width)
/// of that side's border, and leaves the other parts of that border and
/// every other field as they were.
pub proof fn border_longhand_sets_one_part_of_one_side(m: PropertyMap, c: CssColor, s: CssLineStyle, l: CssLength)
    ensures
        applied(m, Property::BorderBottomColor, Value::Color(c)).1 == PropertyMapDidApply::Yes,
        applied(m, Property::BorderBottomColor, Value::Color(c)).0.border_bottom.color == c,
        applied(m, Property::BorderBottomColor, Value::Color(c)).0.border_bottom.style == m.border_bottom.style,
        applied(m, Property::BorderBottomColor, Value::Color(c)).0.border_bottom.width == m.border_bottom.width,
        agree_except(m, applied(m, Property::BorderBottomColor, Value::Color(c)).0, MapField::BorderBottom),
        applied(m, Property::BorderBottomStyle, Value::LineStyle(s)).1 == PropertyMapDidApply::Yes,
        applied(m, Property::BorderBottomStyle, Value::LineStyle(s)).0.border_bottom.style == s,
        applied(m, Property::BorderBottomStyle, Value::LineStyle(s)).0.border_bottom.color == m.border_bottom.color,
        applied(m, Property::BorderBottomStyle, Value::LineStyle(s)).0.border_bottom.width == m.border_bottom.width,
        agree_except(m, applied(m, Property::BorderBottomStyle, Value::LineStyle(s)).0, MapField::BorderBottom),
        applied(m, Property::BorderBottomWidth, Value::Length(l)).1 == PropertyMapDidApply::Yes,
        applied(m, Property::BorderBottomWidth, Value::Length(l)).0.border_bottom.width == l,
        applied(m, Property::BorderBottomWidth, Value::Length(l)).0.border_bottom.color == m.border_bottom.color,
        applied(m, Property::BorderBottomWidth, Value::Length(l)).0.border_bottom.style == m.border_bottom.style,
        agree_except(m, applied(m, Property::BorderBottomWidth, Value::Length(l)).0, MapField::BorderBottom),
        applied(m, Property::BorderLeftColor, Value::Color(c)).1 == PropertyMapDidApply::Yes,
        applied(m, Property::BorderLeftColor, Value::Color(c)).0.border_left.color == c,
        applied(m, Property::BorderLeftColor, Value::Color(c)).0.border_left.style == m.border_left.style,
        applied(m, Property::BorderLeftColor, Value::Color(c)).0.border_left.width == m.border_left.width,
        agree_except(m, applied(m, Property::BorderLeftColor, Value::Color(c)).0, MapField::BorderLeft),
        applied(m, Property::BorderLeftStyle, Value::LineStyle(s)).1 == PropertyMapDidApply::Yes,
        applied(m, Property::BorderLeftStyle, Value::LineStyle(s)).0.border_left.style == s,
        applied(m, Property::BorderLeftStyle, Value::LineStyle(s)).0.border_left.color == m.border_left.color,
        applied(m, Property::BorderLeftStyle, Value::LineStyle(s)).0.border_left.width == m.border_left.width,
        agree_except(m, applied(m, Property::BorderLeftStyle, Value::LineStyle(s)).0, MapField::BorderLeft),
        applied(m, Property::BorderLeftWidth, Value::Length(l)).1 == PropertyMapDidApply::Yes,
        applied(m, Property::BorderLeftWidth, Value::Length(l)).0.border_left.width == l,
        applied(m, Property::BorderLeftWidth, Value::Length(l)).0.border_left.color == m.border_left.color,
        applied(m, Property::BorderLeftWidth, Value::Length(l)).0.border_left.style == m.border_left.style,
        agree_except(m, applied(m, Property::BorderLeftWidth, Value::Length(l)).0, MapField::BorderLeft),
        applied(m, Property::BorderRightColor, Value::Color(c)).1 == PropertyMapDidApply::Yes,
        applied(m, Property::BorderRightColor, Value::Color(c)).0.border_right.color == c,
        applied(m, Property::BorderRightColor, Value::Color(c)).0.border_right.style == m.border_right.style,
        applied(m, Property::BorderRightColor, Value::Color(c)).0.border_right.width == m.border_right.width,
        agree_except(m, applied(m, Property::BorderRightColor, Value::Color(c)).0, MapField::BorderRight),
        applied(m, Property::BorderRightStyle, Value::LineStyle(s)).1 == PropertyMapDidApply::Yes,
        applied(m, Property::BorderRightStyle, Value::LineStyle(s)).0.border_right.style == s,
        applied(m, Property::BorderRightStyle, Value::LineStyle(s)).0.border_right.color == m.border_right.color,
        applied(m, Property::BorderRightStyle, Value::LineStyle(s)).0.border_right.width == m.border_right.width,
        agree_except(m, applied(m, Property::BorderRightStyle, Value::LineStyle(s)).0, MapField::BorderRight),
        applied(m, Property::BorderRightWidth, Value::Length(l)).1 == PropertyMapDidApply::Yes,
        applied(m, Property::BorderRightWidth, Value::Length(l)).0.border_right.width == l,
        applied(m, Property::BorderRightWidth, Value::Length(l)).0.border_right.color == m.border_right.color,
        applied(m, Property::BorderRightWidth, Value::Length(l)).0.border_right.style == m.border_right.style,
        agree_except(m, applied(m, Property::BorderRightWidth, Value::Length(l)).0, MapField::BorderRight),
        applied(m, Property::BorderTopColor, Value::Color(c)).1 == PropertyMapDidApply::Yes,
        applied(m, Property::BorderTopColor, Value::Color(c)).0.border_top.color == c,
        applied(m, Property::BorderTopColor, Value::Color(c)).0.border_top.style == m.border_top.style,
        applied(m, Property::BorderTopColor, Value::Color(c)).0.border_top.width == m.border_top.width,
        agree_except(m, applied(m, Property::BorderTopColor, Value::Color(c)).0, MapField::BorderTop),
        applied(m, Property::BorderTopStyle, Value::LineStyle(s)).1 == PropertyMapDidApply::Yes,
        applied(m, Property::BorderTopStyle, Value::LineStyle(s)).0.border_top.style == s,
        applied(m, Property::BorderTopStyle, Value::LineStyle(s)).0.border_top.color == m.border_top.color,
        applied(m, Property::BorderTopStyle, Value::LineStyle(s)).0.border_top.width == m.border_top.width,
        agree_except(m, applied(m, Property::BorderTopStyle, Value::LineStyle(s)).0, MapField::BorderTop),
        applied(m, Property::BorderTopWidth, Value::Length(l)).1 == PropertyMapDidApply::Yes,
        applied(m, Property::BorderTopWidth, Value::Length(l)).0.border_top.width == l,
        applied(m, Property::BorderTopWidth, Value::Length(l)).0.border_top.color == m.border_top.color,
        applied(m, Property::BorderTopWidth, Value::Length(l)).0.border_top.style == m.border_top.style,
        agree_except(m, applied(m, Property::BorderTopWidth, Value::Length(l)).0, MapField::BorderTop),
{
}

/// `border-color`, `border-style` and `border-width` set that part of all
/// four borders, and leave the other parts and every other field as they
/// were.
pub proof fn border_part_shorthand_sets_all_sides(m: PropertyMap, c: CssColor, s: CssLineStyle, l: CssLength)
    ensures
        applied(m, Property::BorderColor, Value::Color(c)).1 == PropertyMapDidApply::Yes,
        applied(m, Property::BorderColor, Value::Color(c)).0.border_bottom.color == c,
        applied(m, Property::BorderColor, Value::Color(c)).0.border_bottom.style == m.border_bottom.style,
        applied(m, Property::BorderColor, Value::Color(c)).0.border_bottom.width == m.border_bottom.width,
        applied(m, Property::BorderColor, Value::Color(c)).0.border_left.color == c,
        applied(m, Property::BorderColor, Value::Color(c)).0.border_left.style == m.border_left.style,
        applied(m, Property::BorderColor, Value::Color(c)).0.border_left.width == m.border_left.width,
        applied(m, Property::BorderColor, Value::Color(c)).0.border_right.color == c,
        applied(m, Property::BorderColor, Value::Color(c)).0.border_right.style == m.border_right.style,
        applied(m, Property::BorderColor, Value::Color(c)).0.border_right.width == m.border_right.width,
        applied(m, Property::BorderColor, Value::Color(c)).0.border_top.color == c,
        applied(m, Property::BorderColor, Value::Color(c)).0.border_top.style == m.border_top.style,
        applied(m, Property::BorderColor, Value::Color(c)).0.border_top.width == m.border_top.width,
        agree_except_borders(m, applied(m, Property::BorderColor, Value::Color(c)).0),
        applied(m, Property::BorderStyle, Value::LineStyle(s)).1 == PropertyMapDidApply::Yes,
        applied(m, Property::BorderStyle, Value::LineStyle(s)).0.border_bottom.style == s,
        applied(m, Property::BorderStyle, Value::LineStyle(s)).0.border_bottom.color == m.border_bottom.color,
        applied(m, Property::BorderStyle, Value::LineStyle(s)).0.border_bottom.width == m.border_bottom.width,
        applied(m, Property::BorderStyle, Value::LineStyle(s)).0.border_left.style == s,
        applied(m, Property::BorderStyle, Value::LineStyle(s)).0.border_left.color == m.border_left.color,
        applied(m, Property::BorderStyle, Value::LineStyle(s)).0.border_left.width == m.border_left.width,
        applied(m, Property::BorderStyle, Value::LineStyle(s)).0.border_right.style == s,
        applied(m, Property::BorderStyle, Value::LineStyle(s)).0.border_right.color == m.border_right.color,
        applied(m, Property::BorderStyle, Value::LineStyle(s)).0.border_right.width == m.border_right.width,
        applied(m, Property::BorderStyle, Value::LineStyle(s)).0.border_top.style == s,
        applied(m, Property::BorderStyle, Value::LineStyle(s)).0.border_top.color == m.border_top.color,
        applied(m, Property::BorderStyle, Value::LineStyle(s)).0.border_top.width == m.border_top.width,
        agree_except_borders(m, applied(m, Property::BorderStyle, Value::LineStyle(s)).0),
        applied(m, Property::BorderWidth, Value::Length(l)).1 == PropertyMapDidApply::Yes,
        applied(m, Property::BorderWidth, Value::Length(l)).0.border_bottom.width == l,
        applied(m, Property::BorderWidth, Value::Length(l)).0.border_bottom.color == m.border_bottom.color,
        applied(m, Property::BorderWidth, Value::Length(l)).0.border_bottom.style == m.border_bottom.style,
        applied(m, Property::BorderWidth, Value::Length(l)).0.border_left.width == l,
        applied(m, Property::BorderWidth, Value::Length(l)).0.border_left.color == m.border_left.color,
        applied(m, Property::BorderWidth, Value::Length(l)).0.border_left.style == m.border_left.style,
        applied(m, Property::BorderWidth, Value::Length(l)).0.border_right.width == l,
        applied(m, Property::BorderWidth, Value::Length(l)).0.border_right.color == m.border_right.color,
        applied(m, Property::BorderWidth, Value::Length(l)).0.border_right.style == m.border_right.style,
        applied(m, Property::BorderWidth, Value::Length(l)).0.border_top.width == l,
        applied(m, Property::BorderWidth, Value::Length(l)).0.border_top.color == m.border_top.color,
        applied(m, Property::BorderWidth, Value::Length(l)).0.border_top.style == m.border_top.style,
        agree_except_borders(m, applied(m, Property::BorderWidth, Value::Length(l)).0),
{
}

} // verus!
