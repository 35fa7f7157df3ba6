use retina_style_core::declarations::{parse_value_color, parse_value_length, DeclarationParser};
use retina_style_core::error::{BasicParseErrorKind, ParseError, RetinaStyleParseError};
use retina_style_core::style::{
    CssBorderLonghand, CssDisplay, CssDisplayBox, CssDisplayInside, CssDisplayOutside, CssFloatValue,
    CssFontFamilyName, CssFontShorthand, CssGenericFontFamilyName, CssLength, CssLineStyle, CssNamedColor, CssNumber,
    CssWhiteSpace, Declaration, Property, Value, ValueComponentList,
};
use retina_style_core::tokenizer::{tokenize, CssToken};
use retina_style_core::values::{parse_font_shorthand_line_height, parse_value};

fn number(v: f32) -> CssNumber {
    CssNumber { bits: v.to_bits() }
}

fn value_of(input: &str, property: Property) -> Result<Value, ParseError> {
    let ts = tokenize(input);
    parse_value(input, &ts, 0, ts.len(), property).map(|(v, _)| v)
}

#[test]
fn value_color() {
    let cases = [
        ("red", CssNamedColor::red()),
        ("RED", CssNamedColor::red()),
        ("rEd", CssNamedColor::red()),
        ("Red", CssNamedColor::red()),
        ("green", CssNamedColor::green()),
        ("greeN", CssNamedColor::green()),
        ("blue", CssNamedColor::blue()),
    ];
    for (input, color) in cases {
        assert_eq!(value_of(input, Property::Color), Ok(Value::Color(color)), "{input}");
    }
}

#[test]
fn value_display() {
    let cases = [
        ("none", CssDisplay::Box(CssDisplayBox::NoBox)),
        (
            "inline",
            CssDisplay::Normal { inside: CssDisplayInside::Flow, outside: CssDisplayOutside::Inline, is_list_item: false },
        ),
        (
            "block",
            CssDisplay::Normal { inside: CssDisplayInside::Flow, outside: CssDisplayOutside::Block, is_list_item: false },
        ),
        (
            "inline-block",
            CssDisplay::Normal {
                inside: CssDisplayInside::FlowRoot,
                outside: CssDisplayOutside::Inline,
                is_list_item: false,
            },
        ),
    ];
    for (input, display) in cases {
        assert_eq!(value_of(input, Property::Display), Ok(Value::Display(display)), "{input}");
    }
}

#[test]
fn value_font_shorthand() {
    let expected = CssFontShorthand {
        families: vec![
            CssFontFamilyName::Name("Verdana".to_string()),
            CssFontFamilyName::Generic(CssGenericFontFamilyName::SansSerif),
        ],
        style: None,
        size: CssLength::Pixels(number(10.0)),
        line_height: Some(CssLength::FontSize(number(1.0))),
        weight: None,
    };
    assert_eq!(value_of("10px/1 Verdana, sans-serif", Property::Font), Ok(Value::FontShorthand(expected)));
}

#[test]
fn value_font_shorthand_line_height() {
    let input = "/1";
    let ts = tokenize(input);
    let result = parse_font_shorthand_line_height(&ts, 0, ts.len());
    assert_eq!(result.map(|(l, _)| l).ok(), Some(CssLength::FontSize(number(1.0))));
}

#[test]
fn value_length() {
    let cases = [
        ("auto", CssLength::Auto),
        ("0", CssLength::Pixels(number(0.0))),
        ("0px", CssLength::Pixels(number(0.0))),
        ("616px", CssLength::Pixels(number(616.0))),
    ];
    for (input, length) in cases {
        assert_eq!(value_of(input, Property::Width), Ok(Value::Length(length)), "{input}");
    }
}

#[test]
fn value_white_space() {
    let cases = [
        ("normal", CssWhiteSpace::Normal),
        ("nowrap", CssWhiteSpace::Nowrap),
        ("pre", CssWhiteSpace::Pre),
        ("pre-wrap", CssWhiteSpace::PreWrap),
        ("pre-line", CssWhiteSpace::PreLine),
        ("break-spaces", CssWhiteSpace::BreakSpaces),
    ];
    for (input, white_space) in cases {
        assert_eq!(value_of(input, Property::WhiteSpace), Ok(Value::WhiteSpace(white_space)), "{input}");
    }
}

#[test]
fn lengths_in_every_unit() {
    assert_eq!(value_of("2em", Property::Width), Ok(Value::Length(CssLength::FontSize(number(2.0)))));
    assert_eq!(value_of("2rem", Property::Width), Ok(Value::Length(CssLength::FontSizeOfRootElement(number(2.0)))));
    assert_eq!(
        value_of("50vh", Property::Width),
        Ok(Value::Length(CssLength::UaDefaultViewportHeightPercentage(number(50.0))))
    );
    assert_eq!(
        value_of("50vw", Property::Width),
        Ok(Value::Length(CssLength::UaDefaultViewportWidthPercentage(number(50.0))))
    );
    assert_eq!(value_of("50%", Property::Width), Ok(Value::Length(CssLength::Percentage(number(0.5)))));
}

#[test]
fn unknown_length_unit_is_an_error() {
    let ts = tokenize("3zz");
    let result = retina_style_core::values::parse_length(&ts, 0, ts.len());
    assert_eq!(result, Err(ParseError::Custom(RetinaStyleParseError::LengthUnknownUnit("zz".to_string()))));
    let ts = tokenize("wide");
    let result = retina_style_core::values::parse_length(&ts, 0, ts.len());
    assert_eq!(result, Err(ParseError::Custom(RetinaStyleParseError::LengthUnknownIdentifier("wide".to_string()))));
    let ts = tokenize("");
    let result = retina_style_core::values::parse_length(&ts, 0, ts.len());
    assert_eq!(result, Err(ParseError::Custom(RetinaStyleParseError::UnexpectedEofBasicColorKeyword)));
}

#[test]
fn border_shorthands() {
    assert_eq!(
        value_of("1px solid red", Property::Border),
        Ok(Value::BorderLonghand(CssBorderLonghand {
            width: Some(CssLength::Pixels(number(1.0))),
            style: Some(CssLineStyle::Solid),
            color: Some(CssNamedColor::red()),
        }))
    );
    assert_eq!(
        value_of("dashed blue", Property::Border),
        Ok(Value::BorderLonghand(CssBorderLonghand {
            width: None,
            style: Some(CssLineStyle::Dashed),
            color: Some(CssNamedColor::blue()),
        }))
    );
    assert_eq!(
        value_of("2px dotted", Property::Border),
        Ok(Value::BorderLonghand(CssBorderLonghand {
            width: Some(CssLength::Pixels(number(2.0))),
            style: Some(CssLineStyle::Dotted),
            color: None,
        }))
    );
}

#[test]
fn component_lists() {
    assert_eq!(
        value_of("1px 2px 3px 4px", Property::BorderWidth),
        Ok(Value::ComponentList(ValueComponentList::FourLengths(
            CssLength::Pixels(number(1.0)),
            CssLength::Pixels(number(2.0)),
            CssLength::Pixels(number(3.0)),
            CssLength::Pixels(number(4.0)),
        )))
    );
    assert_eq!(
        value_of("red blue", Property::BorderColor),
        Ok(Value::ComponentList(ValueComponentList::TwoColors(CssNamedColor::red(), CssNamedColor::blue())))
    );
    let unknown = value_of("red 1px", Property::BorderColor);
    assert_eq!(
        unknown,
        Err(ParseError::Custom(RetinaStyleParseError::ComponentListUnknownKinds(vec![
            Value::Color(CssNamedColor::red()),
            Value::Length(CssLength::Pixels(number(1.0))),
        ])))
    );
}

#[test]
fn colors_of_every_notation() {
    assert_eq!(value_of("#ff0000", Property::Color), Ok(Value::Color(CssNamedColor::red())));
    assert_eq!(value_of("rgb(0, 0, 255)", Property::Color), Ok(Value::Color(CssNamedColor::blue())));
    assert_eq!(
        value_of("currentcolor", Property::Color),
        Err(ParseError::Custom(RetinaStyleParseError::ColorUnknownValue))
    );
}

#[test]
fn unknown_value_names_its_token() {
    assert_eq!(
        value_of("!", Property::Color),
        Err(ParseError::Custom(RetinaStyleParseError::UnknownValue(Some(CssToken::Delim('!')))))
    );
    assert_eq!(value_of("", Property::Color), Err(ParseError::Custom(RetinaStyleParseError::UnknownValue(None))));
}

#[test]
fn float_and_font_style_keywords_ignore_case() {
    assert_eq!(value_of("LEFT", Property::Float), Ok(Value::Float(CssFloatValue::Left)));
    assert_eq!(value_of("none", Property::Float), Ok(Value::Float(CssFloatValue::NoFloat)));
    assert_eq!(
        value_of("sideways", Property::Float),
        Err(ParseError::Custom(RetinaStyleParseError::FloatUnknownKeyword("sideways".to_string())))
    );
    assert_eq!(
        value_of("Italic", Property::FontStyle),
        Ok(Value::FontStyle(retina_style_core::style::CssFontStyle::Italic))
    );
}

#[test]
fn font_family_lists() {
    assert_eq!(
        value_of("\"Times New Roman\", Serif", Property::FontFamily),
        Ok(Value::FontFamily(vec![
            CssFontFamilyName::Name("Times New Roman".to_string()),
            CssFontFamilyName::Generic(CssGenericFontFamilyName::Serif),
        ]))
    );
    assert_eq!(
        value_of("a b", Property::FontFamily),
        Err(ParseError::Basic(BasicParseErrorKind::UnexpectedToken(CssToken::Ident("b".to_string()))))
    );
}

#[test]
fn declaration_parser_requires_the_whole_value() {
    let mut parser = DeclarationParser;
    assert_eq!(
        parser.parse_value("COLOR", "red"),
        Ok(Declaration::new(Property::Color, Value::Color(CssNamedColor::red())))
    );
    assert_eq!(
        parser.parse_value("no-such-property", "red"),
        Ok(Declaration::new(Property::Invalid, Value::Color(CssNamedColor::red())))
    );
    assert_eq!(
        parser.parse_value("float", "left right"),
        Err(ParseError::Basic(BasicParseErrorKind::UnexpectedToken(CssToken::Ident("right".to_string()))))
    );
}

#[test]
fn text_level_color_and_length() {
    assert_eq!(parse_value_color("yellow"), Some(CssNamedColor::yellow()));
    assert_eq!(parse_value_color("12px"), None);
    assert_eq!(parse_value_length("12px"), Some(CssLength::Pixels(number(12.0))));
    assert_eq!(parse_value_length("red"), None);
}

#[test]
fn property_names_ignore_case() {
    assert_eq!(Property::parse("Background-Color"), Some(Property::BackgroundColor));
    assert_eq!(Property::parse("WHITE-SPACE"), Some(Property::WhiteSpace));
    assert_eq!(Property::parse("margin"), None);
}
