use retina_style_core::cascade::Cascade;
use retina_style_core::collect::{CollectedStyles, StyleCollector};
use retina_style_core::dom::NodeKind;
use retina_style_core::property_map::PropertyMap;
use retina_style_core::rules::{parse_style_attribute, parse_stylesheet, CssParsable};
use retina_style_core::selector_match::SelectorMatcher;
use retina_style_core::style::{
    CascadeOrigin, CssColor, CssDisplay, CssDisplayInside, CssDisplayOutside, CssNamedColor, Declaration, Property,
    Rule, Selector, SelectorList, SimpleSelector, StyleRule, Stylesheet, Value,
};

fn universal_rule(origin: CascadeOrigin, declarations: Vec<Declaration>) -> Rule {
    Rule::Style(StyleRule {
        cascade_origin: origin,
        selector_list: SelectorList { items: vec![Selector::Simple(SimpleSelector::Universal)] },
        declarations,
    })
}

#[test]
fn basically_everything_red() {
    let input = "
            * {
                color: green; /* ignored */
                color: red
            }
        ";

    let stylesheet = Stylesheet::parse(CascadeOrigin::Author, input);

    let rule = universal_rule(
        CascadeOrigin::Author,
        vec![
            Declaration::new(Property::Color, Value::Color(CssNamedColor::green())),
            Declaration::new(Property::Color, Value::Color(CssNamedColor::red())),
        ],
    );

    assert_eq!(stylesheet.rules(), &[rule]);
}

fn check_single_declaration(input: &str, expected: CssColor) {
    let stylesheet: Stylesheet = Stylesheet::parse(CascadeOrigin::Author, input);

    let rule = universal_rule(CascadeOrigin::Author, vec![Declaration::new(Property::Color, Value::Color(expected))]);

    assert_eq!(stylesheet.rules(), &[rule]);
}

#[test]
fn qualified_rule_single_declaration() {
    check_single_declaration("* { color: red; }", CssNamedColor::red());
    check_single_declaration("* { color: red }", CssNamedColor::red());
    check_single_declaration("*{color:red}", CssNamedColor::red());
    check_single_declaration("*{color:RED}", CssNamedColor::red());
    check_single_declaration("*{color:Red}", CssNamedColor::red());
    check_single_declaration("*{color:rEd}", CssNamedColor::red());
}

#[test]
fn normal_importance() {
    let stylesheets = [
        Stylesheet::parse(
            CascadeOrigin::User,
            "
                * {
                    color: green;
                }
            ",
        ),
        Stylesheet::parse(
            CascadeOrigin::Author,
            "
                * {
                    color: blue;
                }
            ",
        ),
        Stylesheet::parse(
            CascadeOrigin::UserAgent,
            "
                * {
                    color: yellow;
                }
            ",
        ),
    ];

    let node = &NodeKind::Text(String::new());

    let collected_styles = StyleCollector::new(&stylesheets).collect(node);
    let cascaded_style = collected_styles.cascade(None, None);

    let expected = PropertyMap { color: Some(CssNamedColor::blue()), ..Default::default() };

    assert_eq!(cascaded_style, expected);
}

#[test]
fn inherit_test() {
    let stylesheets = [
        Stylesheet::parse(
            CascadeOrigin::User,
            "
                * {
                    color: green;
                    display: block;
                }
            ",
        ),
        Stylesheet::parse(
            CascadeOrigin::Author,
            "
                * {
                    color: blue;
                }
            ",
        ),
        Stylesheet::parse(
            CascadeOrigin::UserAgent,
            "
                * {
                    color: yellow;
                }
            ",
        ),
    ];

    let parent_node = NodeKind::Document;

    let parent_collected_styles = StyleCollector::new(&stylesheets).collect(&parent_node);
    let parent_cascaded_styles = parent_collected_styles.cascade(None, None);

    assert_eq!(
        parent_cascaded_styles,
        PropertyMap {
            color: Some(CssNamedColor::blue()),
            display: Some(CssDisplay::Normal {
                inside: CssDisplayInside::Flow,
                outside: CssDisplayOutside::Block,
                is_list_item: false
            }),
            ..Default::default()
        }
    );

    let node_collected_styles = CollectedStyles::new();
    let node_cascaded_style = node_collected_styles.cascade(None, Some(&parent_cascaded_styles));

    assert_eq!(
        node_cascaded_style,
        PropertyMap { color: Some(CssNamedColor::blue()), display: None, ..Default::default() }
    );
}

#[test]
fn stylesheet_single_rule_single_declaration_text_node() {
    let stylesheets = &[Stylesheet::parse(
        CascadeOrigin::UserAgent,
        "* {
                color: white;
            }",
    )];

    let node = &NodeKind::Text(String::new());

    let collected = StyleCollector::new(stylesheets).collect(node);
    assert_eq!(collected.applicable_rules.len(), 1);
    assert_eq!(collected.applicable_rules[0].rule, stylesheets[0].rules()[0].try_as_style().unwrap());
}

#[test]
fn text_node() {
    let node = &NodeKind::Text(String::new());

    let universal_selector = Selector::Simple(SimpleSelector::Universal);
    assert!(universal_selector.matches(node));

    let universal_selector_in_selector_list = SelectorList { items: vec![universal_selector] };
    assert!(universal_selector_in_selector_list.matches(node));
}

#[test]
fn style_attribute_takes_declarations_without_selectors() {
    let rule = parse_style_attribute("color: red; display: none").unwrap();
    match rule {
        Rule::Style(style) => {
            assert_eq!(style.cascade_origin, CascadeOrigin::Author);
            assert!(style.selector_list.items.is_empty());
            assert_eq!(style.declarations.len(), 2);
            assert_eq!(style.declarations[0], Declaration::new(Property::Color, Value::Color(CssNamedColor::red())));
        }
        _ => panic!("expected a style rule"),
    }
}

#[test]
fn empty_style_rules_are_left_out() {
    let stylesheet = parse_stylesheet(CascadeOrigin::Author, "p { } * { colour: red } h1 { color: blue }");
    assert_eq!(stylesheet.rules().len(), 2);
}

#[test]
fn invalid_declarations_are_passed_over() {
    let stylesheet = parse_stylesheet(CascadeOrigin::Author, "* { color: ; display: block; width: 10zz; height: 5px }");
    match &stylesheet.rules()[0] {
        Rule::Style(style) => {
            assert_eq!(style.declarations.len(), 2);
            assert_eq!(style.declarations[0].property, Property::Display);
            assert_eq!(style.declarations[1].property, Property::Height);
        }
        _ => panic!("expected a style rule"),
    }
}

fn check_style_rules(rules: &[Rule], origin: CascadeOrigin, count: &mut usize) {
    for rule in rules {
        match rule {
            Rule::Style(style) => {
                assert_eq!(style.cascade_origin, origin);
                assert!(!style.declarations.is_empty());
                *count += 1;
            }
            Rule::AtMedia(media) => check_style_rules(&media.stylesheet.rules, origin, count),
            Rule::AtFontFace(_) => {}
        }
    }
}

#[test]
fn parsed_style_rules_keep_origin_and_declarations() {
    let sheet = parse_stylesheet(
        CascadeOrigin::User,
        "a { } b { color: red } @media screen { c { } d { display: block } } e { nonsense: 1 }",
    );
    let mut count = 0;
    check_style_rules(&sheet.rules, CascadeOrigin::User, &mut count);
    assert_eq!(count, 2);
}
