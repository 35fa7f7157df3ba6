use std::cmp::Ordering;

use retina_style_core::dom::{Element, NodeKind};
use retina_style_core::error::{BasicParseErrorKind, ParseError, RetinaStyleParseError};
use retina_style_core::selector_match::{matches_attribute_selector, matches_selector, SelectorMatcher};
use retina_style_core::selectors::{parse_selector, parse_selector_list};
use retina_style_core::specificity::{CalculateSpecificity, SelectorSpecificity};
use retina_style_core::style::{
    AttributeSelector, AttributeSelectorCaseSensitivity as Case, AttributeSelectorKind as Kind, Selector, SelectorList,
    SimpleSelector,
};
use retina_style_core::syntax::is_exhausted;
use retina_style_core::tokenizer::{tokenize, CssToken};

fn attr(name: &str, kind: Kind) -> Selector {
    Selector::Simple(SimpleSelector::Attribute(AttributeSelector::new(name.to_string(), Case::Default, kind)))
}

#[test]
fn single_selector() {
    let cases = vec![
        ("*", Selector::Simple(SimpleSelector::Universal)),
        ("   *", Selector::Simple(SimpleSelector::Universal)),
        ("   *  ", Selector::Simple(SimpleSelector::Universal)),
        ("*  ", Selector::Simple(SimpleSelector::Universal)),
        ("h1", Selector::Simple(SimpleSelector::TypeSelector("h1".to_string()))),
        ("p", Selector::Simple(SimpleSelector::TypeSelector("p".to_string()))),
        ("style", Selector::Simple(SimpleSelector::TypeSelector("style".to_string()))),
        ("my-custom-element", Selector::Simple(SimpleSelector::TypeSelector("my-custom-element".to_string()))),
        ("#my-id", Selector::Simple(SimpleSelector::Id("my-id".to_string()))),
        (".class", Selector::Simple(SimpleSelector::Class("class".to_string()))),
        ("[attr]", attr("attr", Kind::RegardlessOfValue)),
        ("[attr=val]", attr("attr", Kind::Exact("val".to_string()))),
        ("[attr='my value']", attr("attr", Kind::Exact("my value".to_string()))),
        ("[attr=\"my value\"]", attr("attr", Kind::Exact("my value".to_string()))),
        ("[attr~=val]", attr("attr", Kind::OneOfWhitespaceSeparatedList("val".to_string()))),
        ("[attr~='my value']", attr("attr", Kind::OneOfWhitespaceSeparatedList("my value".to_string()))),
        ("[attr|=val]", attr("attr", Kind::ExactOrStartsWithAndHyphen("val".to_string()))),
        ("[attr|=\"my value\"]", attr("attr", Kind::ExactOrStartsWithAndHyphen("my value".to_string()))),
        ("[attr^=val]", attr("attr", Kind::BeginsWith("val".to_string()))),
        ("[attr^='my value']", attr("attr", Kind::BeginsWith("my value".to_string()))),
        ("[attr$=val]", attr("attr", Kind::EndsWith("val".to_string()))),
        ("[attr$=\"my value\"]", attr("attr", Kind::EndsWith("my value".to_string()))),
        ("[attr*=val]", attr("attr", Kind::Contains("val".to_string()))),
        ("[attr*='my value']", attr("attr", Kind::Contains("my value".to_string()))),
    ];
    for (input, expected) in cases {
        let ts = tokenize(input);
        let (selector, end) = parse_selector(&ts, 0, ts.len()).unwrap();
        assert_eq!(selector, expected, "{input}");
        assert!(is_exhausted(&ts, end, ts.len()), "{input}");
    }
}

#[test]
fn selector_list() {
    let h = |n: &str| Selector::Simple(SimpleSelector::TypeSelector(n.to_string()));
    let u = || Selector::Simple(SimpleSelector::Universal);
    assert_eq!(parse_selector_list("*"), Ok(SelectorList { items: vec![u()] }));
    assert_eq!(parse_selector_list("*, *"), Ok(SelectorList { items: vec![u(), u()] }));
    assert_eq!(parse_selector_list("h1"), Ok(SelectorList { items: vec![h("h1")] }));
    assert_eq!(parse_selector_list("h1, h2"), Ok(SelectorList { items: vec![h("h1"), h("h2")] }));
}

#[test]
fn selector_errors() {
    assert_eq!(
        parse_selector_list("h1 h2"),
        Err(ParseError::Basic(BasicParseErrorKind::UnexpectedToken(CssToken::Ident("h2".to_string()))))
    );
    assert_eq!(
        parse_selector_list(":hover"),
        Err(ParseError::Custom(RetinaStyleParseError::UnknownSelector(CssToken::Colon)))
    );
    assert_eq!(
        parse_selector_list("[1]"),
        Err(ParseError::Custom(RetinaStyleParseError::AttributeSelectorExpectedIdentifierAsAttributeName(
            CssToken::Number { has_sign: false, value: retina_style_core::style::CssNumber { bits: 1.0f32.to_bits() }, int_value: Some(1) }
        )))
    );
    assert_eq!(
        parse_selector_list("[a:b]"),
        Err(ParseError::Custom(RetinaStyleParseError::AttributeSelectorUnknownOperatorName(CssToken::Colon)))
    );
    assert_eq!(parse_selector_list(""), Err(ParseError::Basic(BasicParseErrorKind::EndOfInput)));
}

fn element_with(name: &str, value: &str) -> Element {
    let mut element = Element::new("p".to_string());
    element.attributes.push(name.to_string(), value.to_string());
    element
}

fn check_attribute(name: &str, value: &str, selector_name: &str, case: Case, kind: Kind, expected: bool) {
    let element = element_with(name, value);
    let selector = AttributeSelector::new(selector_name.to_string(), case, kind);
    assert_eq!(matches_attribute_selector(&selector, &element), expected, "{name}={value} {selector:?}");
}

#[test]
fn attribute_regardless_of_value() {
    check_attribute("who", "me", "who", Case::Identical, Kind::RegardlessOfValue, true);
    check_attribute("who", "me", "me", Case::Identical, Kind::RegardlessOfValue, false);
}

#[test]
fn attribute_exact() {
    check_attribute("who", "me", "who", Case::Identical, Kind::Exact("me".into()), true);
    check_attribute("who", "you", "who", Case::Identical, Kind::Exact("me".into()), false);
    check_attribute("who", "ME", "who", Case::Identical, Kind::Exact("ME".into()), true);
    check_attribute("who", "ME", "who", Case::AsciiCaseInsensitive, Kind::Exact("me".into()), true);
    check_attribute("who", "ME", "who", Case::AsciiCaseInsensitive, Kind::Exact("ME".into()), true);
}

#[test]
fn attribute_one_of_whitespace_separated_list() {
    for word in ["a", "b", "c", "d", "e"] {
        check_attribute("class", "a b c d e", "class", Case::Identical, Kind::OneOfWhitespaceSeparatedList(word.into()), true);
    }
    for word in ["f", "a b", "a b c d e"] {
        check_attribute("class", "a b c d e", "class", Case::Identical, Kind::OneOfWhitespaceSeparatedList(word.into()), false);
    }
    check_attribute("class", "a b c d e", "not-class", Case::Identical, Kind::OneOfWhitespaceSeparatedList("c".into()), false);
    for case in [Case::Default, Case::Identical, Case::AsciiCaseInsensitive] {
        check_attribute("class", "a b c d e", "class", case, Kind::OneOfWhitespaceSeparatedList("".into()), false);
    }
    check_attribute("class", "", "class", Case::AsciiCaseInsensitive, Kind::OneOfWhitespaceSeparatedList("".into()), false);
}

#[test]
fn attribute_exact_or_starts_with_hyphen() {
    check_attribute("data-user", "my-data", "data-user", Case::Identical, Kind::ExactOrStartsWithAndHyphen("my-data".into()), true);
    check_attribute("data-user", "my-data", "data-user", Case::AsciiCaseInsensitive, Kind::ExactOrStartsWithAndHyphen("my-DATA".into()), true);
    check_attribute("data-user", "my-data", "data-user", Case::Identical, Kind::ExactOrStartsWithAndHyphen("my".into()), true);
    check_attribute("data-user", "my-data", "data-user", Case::AsciiCaseInsensitive, Kind::ExactOrStartsWithAndHyphen("MY".into()), true);
}

#[test]
fn attribute_begins_with() {
    for case in [Case::Default, Case::Identical, Case::AsciiCaseInsensitive] {
        check_attribute("lang", "en-us", "lang", case, Kind::BeginsWith("".into()), false);
        check_attribute("lang", "en-us", "lang", case, Kind::BeginsWith("en-gb".into()), false);
        check_attribute("lang", "en-us", "lang", case, Kind::BeginsWith("us".into()), false);
        check_attribute("lang", "en-us", "lang", case, Kind::BeginsWith("en-us".into()), true);
        check_attribute("lang", "en-us", "lang", case, Kind::BeginsWith("en".into()), true);
        check_attribute("lang", "en-us", "lang", case, Kind::BeginsWith("e".into()), true);
    }
    for value in ["EN", "EN-US", "en-US", "EN-us"] {
        check_attribute("lang", "en-us", "lang", Case::AsciiCaseInsensitive, Kind::BeginsWith(value.into()), true);
    }
}

#[test]
fn attribute_ends_with() {
    for case in [Case::Default, Case::Identical, Case::AsciiCaseInsensitive] {
        check_attribute("lang", "en-us", "lang", case, Kind::EndsWith("".into()), false);
        check_attribute("lang", "en-us", "lang", case, Kind::EndsWith("en-gb".into()), false);
        check_attribute("lang", "en-us", "lang", case, Kind::EndsWith("en".into()), false);
        check_attribute("lang", "en-us", "lang", case, Kind::EndsWith("en-us".into()), true);
        check_attribute("lang", "en-us", "lang", case, Kind::EndsWith("us".into()), true);
        check_attribute("lang", "en-us", "lang", case, Kind::EndsWith("s".into()), true);
    }
    for value in ["US", "EN-US", "en-US", "EN-us"] {
        check_attribute("lang", "en-us", "lang", Case::AsciiCaseInsensitive, Kind::EndsWith(value.into()), true);
    }
}

#[test]
fn attribute_contains() {
    for case in [Case::Default, Case::Identical, Case::AsciiCaseInsensitive] {
        for value in ["", "a", "\0", "dolor"] {
            check_attribute("data-string", "Lorem ipsum!", "data-string", case, Kind::Contains(value.into()), false);
        }
        for value in ["Lorem", "ipsum", "Lorem ipsum!", "!", "orem ipsu"] {
            check_attribute("data-string", "Lorem ipsum!", "data-string", case, Kind::Contains(value.into()), true);
        }
    }
    for value in ["LOREM IPSUM!", "IPSUM", "IPSUM!", "lorem ipsum", "lorem ipsum!", "IpSum!"] {
        check_attribute("data-string", "Lorem ipsum!", "data-string", Case::AsciiCaseInsensitive, Kind::Contains(value.into()), true);
    }
}

#[test]
fn class_test() {
    let cases = [
        ("", "", false),
        ("", "active", false),
        ("active", "", false),
        ("black active bg-red", "", false),
        ("active", "active", true),
        ("active", "ACTIVE", false),
        ("active", "list-item", false),
        ("list-item active", "active", true),
        ("list-item active", "list-item active", false),
        ("list-item active", "active list-item", false),
        ("list-item active", "list-item", true),
    ];
    for (haystack, needle, expected) in cases {
        let node = NodeKind::Element(element_with("class", haystack));
        let selector = Selector::Simple(SimpleSelector::Class(needle.to_string()));
        assert_eq!(matches_selector(&selector, &node), expected, "{haystack:?} {needle:?}");
    }
}

#[test]
fn id_test() {
    let cases = [
        ("", "", false),
        ("my-form", "", false),
        ("", "my-form", false),
        ("my-form", "my-form", true),
        ("my-form", "my-other-form", false),
        ("my-other-form", "my-form", false),
    ];
    for (haystack, needle, expected) in cases {
        let node = NodeKind::Element(element_with("id", haystack));
        let selector = Selector::Simple(SimpleSelector::Id(needle.to_string()));
        assert_eq!(matches_selector(&selector, &node), expected, "{haystack:?} {needle:?}");
    }
}

#[test]
fn element_with_type() {
    let cases = [
        (NodeKind::Element(Element::new("style".to_string())), true),
        (NodeKind::Element(Element::new("br".to_string())), false),
        (NodeKind::Element(Element::new("p".to_string())), false),
        (NodeKind::Text(String::new()), false),
    ];
    for (node, expected) in cases {
        let selector = Selector::Simple(SimpleSelector::TypeSelector("style".to_string()));
        assert_eq!(selector.matches(&node), expected);
        let list = SelectorList { items: vec![selector] };
        assert_eq!(list.matches(&node), expected);
    }
}

fn id(name: &str) -> Selector {
    Selector::Simple(SimpleSelector::Id(name.to_string()))
}
fn class(name: &str) -> Selector {
    Selector::Simple(SimpleSelector::Class(name.to_string()))
}
fn attr_name(name: &str) -> Selector {
    Selector::Simple(SimpleSelector::Attribute(AttributeSelector::new(
        name.to_string(),
        Case::AsciiCaseInsensitive,
        Kind::RegardlessOfValue,
    )))
}
fn ty(name: &str) -> Selector {
    Selector::Simple(SimpleSelector::TypeSelector(name.to_string()))
}

#[test]
fn specificity() {
    assert_eq!(id("my-blog").calculate_specificity(), SelectorSpecificity::new(1, 0, 0));
    assert_eq!(class("my-post").calculate_specificity(), SelectorSpecificity::new(0, 1, 0));
    assert_eq!(attr_name("my-data").calculate_specificity(), SelectorSpecificity::new(0, 1, 0));
    assert_eq!(ty("article").calculate_specificity(), SelectorSpecificity::new(0, 0, 1));
}

#[test]
fn compare_specificity() {
    let cases = [
        (id("my-id"), Ordering::Greater, class("my-class")),
        (id("my-id"), Ordering::Equal, id("other-id")),
        (class("red"), Ordering::Equal, class("blue")),
        (class("red"), Ordering::Less, id("blue")),
        (attr_name("open"), Ordering::Less, id("navbar")),
        (attr_name("open"), Ordering::Equal, class("bg-red")),
        (attr_name("open"), Ordering::Equal, attr_name("closed")),
        (ty("h1"), Ordering::Less, class("bg-red")),
        (ty("h1"), Ordering::Less, id("container")),
        (id("container"), Ordering::Greater, attr_name("container")),
    ];
    for (this, ord, other) in cases {
        let a = this.calculate_specificity();
        let b = other.calculate_specificity();
        assert_eq!(a.compare(&b), ord, "{this:?} {other:?}");
        assert_eq!(a.cmp(&b), ord);
    }
}

#[test]
fn already_sorted_selectors() {
    let lists = vec![
        vec![attr_name("open"), class("bg-red")],
        vec![class("bg-red"), attr_name("closed")],
        vec![attr_name("method"), id("my-id")],
        vec![class("p-3"), id("my-id")],
        vec![ty("h1"), class("p-3"), id("my-id")],
    ];
    for selectors in lists {
        let specificities: Vec<_> = selectors.iter().map(|s| s.calculate_specificity()).collect();
        let mut sorted = specificities.clone();
        sorted.sort();
        assert_eq!(specificities, sorted);
    }
}
