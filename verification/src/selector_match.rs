//! Matching selectors against document nodes.

use vstd::prelude::*;

use crate::dom::{attr_lookup, bytes_of, element_id, has_class, str_eq, Element, NodeKind};
use crate::style::{
    AttributeSelector, AttributeSelectorCaseSensitivity, AttributeSelectorKind, Selector,
    SelectorList, SimpleSelector,
};
use crate::text::{
    contains_bytes, contains_word, eq_ignore_case, find_bytes, has_matching_word, lower_bytes,
    range_eq, splits_chars,
};

verus! {

/// Whether an attribute value matches the value a selector asks for, under
/// the selector's case sensitivity.
pub open spec fn value_matches(
    selector_value: Seq<u8>,
    actual_value: Seq<u8>,
    case_sensitivity: AttributeSelectorCaseSensitivity,
) -> bool {
    match case_sensitivity {
        AttributeSelectorCaseSensitivity::Identical => selector_value == actual_value,
        _ => eq_ignore_case(selector_value, actual_value),
    }
}

/// Whether the value of an attribute satisfies the condition of an
/// attribute selector ([Selectors 4 § 6.1, 6.2](https://www.w3.org/TR/selectors-4/#attribute-selectors)).
pub open spec fn attribute_kind_matches(
    kind: AttributeSelectorKind,
    cs: AttributeSelectorCaseSensitivity,
    a: Seq<u8>,
) -> bool {
    match kind {
        AttributeSelectorKind::RegardlessOfValue => true,
        AttributeSelectorKind::Exact(v) => value_matches(bytes_of(v@), a, cs),
        AttributeSelectorKind::OneOfWhitespaceSeparatedList(v) => has_matching_word(
            a,
            bytes_of(v@),
            !(cs is Identical),
        ),
        AttributeSelectorKind::ExactOrStartsWithAndHyphen(v) => {
            let n = bytes_of(v@).len() as int;
            &&& n <= a.len()
            &&& value_matches(bytes_of(v@), a.subrange(0, n), cs)
            &&& (a.len() == n || a[n] == 45u8)
        },
        AttributeSelectorKind::BeginsWith(v) => {
            let n = bytes_of(v@).len() as int;
            &&& 0 < n <= a.len()
            &&& value_matches(bytes_of(v@), a.subrange(0, n), cs)
        },
        AttributeSelectorKind::EndsWith(v) => {
            let n = bytes_of(v@).len() as int;
            &&& 0 < n <= a.len()
            &&& value_matches(bytes_of(v@), a.subrange(a.len() - n, a.len() as int), cs)
        },
        AttributeSelectorKind::Contains(v) => {
            let n = bytes_of(v@).len() as int;
            &&& 0 < n <= a.len()
            &&& if cs is Identical {
                contains_bytes(a, bytes_of(v@))
            } else {
                contains_bytes(lower_bytes(a), lower_bytes(bytes_of(v@)))
            }
        },
    }
}

/// The prefix and suffix conditions cut the attribute value at the length of
/// the selector's value; the matcher is defined where that cut falls between
/// two characters of the attribute value.
pub open spec fn attribute_kind_defined(kind: AttributeSelectorKind, a: Seq<u8>) -> bool {
    match kind {
        AttributeSelectorKind::ExactOrStartsWithAndHyphen(v) => {
            let n = bytes_of(v@).len() as int;
            n > a.len() || splits_chars(a, n)
        },
        AttributeSelectorKind::BeginsWith(v) => {
            let n = bytes_of(v@).len() as int;
            n == 0 || n > a.len() || splits_chars(a, n)
        },
        AttributeSelectorKind::EndsWith(v) => {
            let n = bytes_of(v@).len() as int;
            n == 0 || n > a.len() || splits_chars(a, a.len() - n)
        },
        _ => true,
    }
}

/// An element matches an attribute selector when it has the attribute and
/// the attribute's value satisfies the selector's condition.
pub open spec fn attribute_selector_matches(sel: AttributeSelector, e: Element) -> bool {
    match attr_lookup(e.attributes.items@, sel.attribute_name@) {
        Some(v) => attribute_kind_matches(sel.kind, sel.case_sensitivity, bytes_of(v)),
        None => false,
    }
}

pub open spec fn attribute_selector_defined(sel: AttributeSelector, e: Element) -> bool {
    match attr_lookup(e.attributes.items@, sel.attribute_name@) {
        Some(v) => attribute_kind_defined(sel.kind, bytes_of(v)),
        None => true,
    }
}

/// Whether a node matches a selector.
pub open spec fn selector_matches(selector: Selector, node: NodeKind) -> bool {
    match selector {
        Selector::Simple(SimpleSelector::Attribute(a)) => match node {
            NodeKind::Element(e) => attribute_selector_matches(a, e),
            _ => false,
        },
        Selector::Simple(SimpleSelector::Class(c)) => match node {
            NodeKind::Element(e) => has_class(e, bytes_of(c@)),
            _ => false,
        },
        Selector::Simple(SimpleSelector::Id(id)) => match node {
            NodeKind::Element(e) => element_id(e).len() > 0 && element_id(e) == id@,
            _ => false,
        },
        Selector::Simple(SimpleSelector::TypeSelector(t)) => match node {
            NodeKind::Element(e) => eq_ignore_case(bytes_of(e.local_name@), bytes_of(t@)),
            _ => false,
        },
        Selector::Simple(SimpleSelector::Universal) => true,
    }
}

/// Matching a selector against a node is defined: an attribute selector
/// never cuts the attribute value inside a character.
pub open spec fn selector_defined(selector: Selector, node: NodeKind) -> bool {
    match selector {
        Selector::Simple(SimpleSelector::Attribute(a)) => match node {
            NodeKind::Element(e) => attribute_selector_defined(a, e),
            _ => true,
        },
        _ => true,
    }
}

/// Whether some selector of the list matches the node.
pub open spec fn selector_list_matches(list: Seq<Selector>, node: NodeKind) -> bool {
    exists|i: int| 0 <= i < list.len() && selector_matches(#[trigger] list[i], node)
}

pub open spec fn selector_list_defined(list: Seq<Selector>, node: NodeKind) -> bool {
    forall|i: int| 0 <= i < list.len() ==> selector_defined(#[trigger] list[i], node)
}

/// Whether two strings are equal when ASCII case is ignored.
pub fn str_eq_ignore_ascii_case(a: &str, b: &str) -> (r: bool)
    ensures
        r == eq_ignore_case(bytes_of(a@), bytes_of(b@)),
{
    let x = a.as_bytes();
    let y = b.as_bytes();
    if x.len() != y.len() {
        proof {
            assert(lower_bytes(x@).len() != lower_bytes(y@).len());
        }
        return false;
    }
    let r = range_eq(x, 0, y, 0, x.len(), true);
    proof {
        assert(x@.subrange(0, x@.len() as int) =~= x@);
        assert(y@.subrange(0, y@.len() as int) =~= y@);
    }
    r
}

/// Compares a selector value with `actual[start..start + selector.len()]`.
fn value_matches_at(
    selector: &[u8],
    actual: &[u8],
    start: usize,
    case_sensitivity: AttributeSelectorCaseSensitivity,
) -> (r: bool)
    requires
        start + selector@.len() <= actual@.len(),
    ensures
        r == value_matches(
            selector@,
            actual@.subrange(start as int, start + selector@.len()),
            case_sensitivity,
        ),
{
    let ignore = match case_sensitivity {
        AttributeSelectorCaseSensitivity::Identical => false,
        _ => true,
    };
    let r = range_eq(selector, 0, actual, start, selector.len(), ignore);
    proof {
        assert(selector@.subrange(0, selector@.len() as int) =~= selector@);
    }
    r
}

pub fn matches_attribute_value(
    selector_value: &str,
    actual_value: &str,
    case_sensitivity: AttributeSelectorCaseSensitivity,
) -> (r: bool)
    ensures
        r == value_matches(bytes_of(selector_value@), bytes_of(actual_value@), case_sensitivity),
{
    let s = selector_value.as_bytes();
    let a = actual_value.as_bytes();
    if s.len() != a.len() {
        proof {
            assert(lower_bytes(s@).len() != lower_bytes(a@).len());
        }
        return false;
    }
    let r = value_matches_at(s, a, 0, case_sensitivity);
    proof {
        assert(a@.subrange(0, a@.len() as int) =~= a@);
    }
    r
}

/// The byte at `i`, which lies inside the slice.
fn byte_at(s: &[u8], i: usize) -> (r: u8)
    requires
        i < s@.len(),
    ensures
        r == s@[i as int],
{
    s[i]
}

pub fn matches_attribute_selector(attribute_selector: &AttributeSelector, element: &Element) -> (r: bool)
    requires
        attribute_selector_defined(*attribute_selector, *element),
    ensures
        r == attribute_selector_matches(*attribute_selector, *element),
{
    let actual_value = match element.attributes().find_by_str(attribute_selector.attribute_name()) {
        Some(v) => v,
        None => return false,
    };
    let a = actual_value.as_bytes();
    let cs = attribute_selector.case_sensitivity();
    match attribute_selector.kind() {
        AttributeSelectorKind::RegardlessOfValue => true,
        AttributeSelectorKind::Exact(selector_value) => {
            matches_attribute_value(selector_value.as_str(), actual_value, cs)
        },
        AttributeSelectorKind::OneOfWhitespaceSeparatedList(selector_value) => {
            let ignore = match cs {
                AttributeSelectorCaseSensitivity::Identical => false,
                _ => true,
            };
            contains_word(a, selector_value.as_str().as_bytes(), ignore)
        },
        AttributeSelectorKind::ExactOrStartsWithAndHyphen(selector_value) => {
            let s = selector_value.as_str().as_bytes();
            if a.len() < s.len() {
                return false;
            }
            if !value_matches_at(s, a, 0, cs) {
                return false;
            }
            if a.len() == s.len() {
                return true;
            }
            byte_at(a, s.len()) == 45u8
        },
        AttributeSelectorKind::BeginsWith(selector_value) => {
            let s = selector_value.as_str().as_bytes();
            if s.len() == 0 || a.len() < s.len() {
                return false;
            }
            value_matches_at(s, a, 0, cs)
        },
        AttributeSelectorKind::EndsWith(selector_value) => {
            let s = selector_value.as_str().as_bytes();
            if s.len() == 0 || a.len() < s.len() {
                return false;
            }
            value_matches_at(s, a, a.len() - s.len(), cs)
        },
        AttributeSelectorKind::Contains(selector_value) => {
            let s = selector_value.as_str().as_bytes();
            if s.len() == 0 || a.len() < s.len() {
                return false;
            }
            match cs {
                AttributeSelectorCaseSensitivity::Identical => find_bytes(a, s, false),
                _ => find_bytes(a, s, true),
            }
        },
    }
}

/// Checks whether or not the given node matches the selector.
pub fn matches_selector(selector: &Selector, node: &NodeKind) -> (r: bool)
    requires
        selector_defined(*selector, *node),
    ensures
        r == selector_matches(*selector, *node),
{
    match selector {
        Selector::Simple(SimpleSelector::Attribute(attribute_selector)) => {
            match node.as_dom_element() {
                Some(element) => matches_attribute_selector(attribute_selector, element),
                None => false,
            }
        },
        Selector::Simple(SimpleSelector::Class(class_to_find)) => {
            match node.as_dom_element() {
                Some(element) => match element.attributes().find_by_str("class") {
                    Some(classes) => contains_word(classes.as_bytes(), class_to_find.as_str().as_bytes(), false),
                    None => false,
                },
                None => false,
            }
        },
        Selector::Simple(SimpleSelector::Id(id)) => {
            match node.as_dom_element() {
                Some(element) => {
                    let element_id = element.id();
                    !element_id.is_empty() && str_eq(element_id, id.as_str())
                },
                None => false,
            }
        },
        Selector::Simple(SimpleSelector::TypeSelector(ty)) => {
            match node.tag_name() {
                Some(name) => str_eq_ignore_ascii_case(name, ty.as_str()),
                None => false,
            }
        },
        Selector::Simple(SimpleSelector::Universal) => true,
    }
}

/// Matching of a selector, or of a list of selectors, against a node.
pub trait SelectorMatcher {
    /// Matching is defined for the node.
    spec fn matching_defined(&self, node: NodeKind) -> bool;

    /// Whether the node matches.
    spec fn matches_node(&self, node: NodeKind) -> bool;

    /// Checks whether or not the given node matches the selector.
    fn matches(&self, node: &NodeKind) -> (r: bool)
        requires
            self.matching_defined(*node),
        ensures
            r == self.matches_node(*node),
    ;
}

impl SelectorMatcher for Selector {
    open spec fn matching_defined(&self, node: NodeKind) -> bool {
        selector_defined(*self, node)
    }

    open spec fn matches_node(&self, node: NodeKind) -> bool {
        selector_matches(*self, node)
    }

    fn matches(&self, node: &NodeKind) -> (r: bool) {
        matches_selector(self, node)
    }
}

impl SelectorMatcher for SelectorList {
    open spec fn matching_defined(&self, node: NodeKind) -> bool {
        selector_list_defined(self.items@, node)
    }

    open spec fn matches_node(&self, node: NodeKind) -> bool {
        selector_list_matches(self.items@, node)
    }

    fn matches(&self, node: &NodeKind) -> (r: bool) {
        let mut i: usize = 0;
        while i < self.items.len()
            invariant
                i <= self.items@.len(),
                selector_list_defined(self.items@, *node),
                forall|k: int| 0 <= k < i ==> !selector_matches(#[trigger] self.items@[k], *node),
            decreases self.items@.len() - i,
        {
            if matches_selector(&self.items[i], node) {
                return true;
            }
            i = i + 1;
        }
        false
    }
}

} // verus!
