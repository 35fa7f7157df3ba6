//! The parts of a document tree that style resolution reads: node kinds,
//! element names and attributes.

use vstd::prelude::*;
use vstd::utf8::encode_utf8;

use crate::text::{range_eq, has_matching_word};

verus! {

broadcast use vstd::utf8::group_utf8_lib;

/// The UTF-8 bytes of a string value.
pub open spec fn bytes_of(s: Seq<char>) -> Seq<u8> {
    encode_utf8(s)
}

/// Whether two strings are equal.
pub fn str_eq(a: &str, b: &str) -> (r: bool)
    ensures
        r == (a@ == b@),
{
    let x = a.as_bytes();
    let y = b.as_bytes();
    proof {
        vstd::utf8::encode_utf8_decode_utf8(a@);
        vstd::utf8::encode_utf8_decode_utf8(b@);
    }
    if x.len() != y.len() {
        return false;
    }
    let same = range_eq(x, 0, y, 0, x.len(), false);
    proof {
        assert(x@.subrange(0, x@.len() as int) =~= x@);
        assert(y@.subrange(0, y@.len() as int) =~= y@);
    }
    same
}

#[derive(Clone, Debug, PartialEq, Eq)]
pub struct Attribute {
    pub name: String,
    pub value: String,
}

/// The value of the first attribute at or after `i` named `name`.
pub open spec fn attr_lookup_from(items: Seq<Attribute>, name: Seq<char>, i: int) -> Option<Seq<char>>
    decreases items.len() - i,
{
    if i < 0 || i >= items.len() {
        None
    } else if items[i].name@ == name {
        Some(items[i].value@)
    } else {
        attr_lookup_from(items, name, i + 1)
    }
}

/// The value of the first attribute named `name`.
pub open spec fn attr_lookup(items: Seq<Attribute>, name: Seq<char>) -> Option<Seq<char>> {
    attr_lookup_from(items, name, 0)
}

#[derive(Clone, Debug, PartialEq, Eq)]
pub struct AttributeList {
    pub items: Vec<Attribute>,
}

impl AttributeList {
    pub fn new() -> (r: AttributeList)
        ensures
            r.items@.len() == 0,
    {
        AttributeList { items: Vec::new() }
    }

    /// Adds an attribute at the end of the list.
    pub fn push(&mut self, name: String, value: String)
        ensures
            final(self).items@ == old(self).items@.push(Attribute { name, value }),
    {
        self.items.push(Attribute { name, value });
    }

    /// The value of the first attribute with the given name.
    pub fn find_by_str(&self, name: &str) -> (r: Option<&str>)
        ensures
            match r {
                Some(v) => attr_lookup(self.items@, name@) == Some(v@),
                None => attr_lookup(self.items@, name@) is None,
            },
    {
        let mut i: usize = 0;
        while i < self.items.len()
            invariant
                i <= self.items@.len(),
                attr_lookup(self.items@, name@) == attr_lookup_from(self.items@, name@, i as int),
            decreases self.items@.len() - i,
        {
            let item = &self.items[i];
            if str_eq(item.name.as_str(), name) {
                return Some(item.value.as_str());
            }
            i = i + 1;
        }
        None
    }
}

#[derive(Clone, Debug, PartialEq, Eq)]
pub struct Element {
    /// The local part of the element's qualified name, such as `body`.
    pub local_name: String,
    pub attributes: AttributeList,
}

impl Element {
    pub fn new(local_name: String) -> (r: Element)
        ensures
            r.local_name == local_name,
            r.attributes.items@.len() == 0,
    {
        Element { local_name, attributes: AttributeList::new() }
    }

    pub fn attributes(&self) -> (r: &AttributeList)
        ensures
            *r == self.attributes,
    {
        &self.attributes
    }

    pub fn local_name(&self) -> (r: &str)
        ensures
            r@ == self.local_name@,
    {
        self.local_name.as_str()
    }

    /// The element's ID: the value of its `id` attribute, or empty.
    pub fn id(&self) -> (r: &str)
        ensures
            r@ == element_id(*self),
    {
        match self.attributes.find_by_str("id") {
            Some(v) => v,
            None => {
                proof {
                    reveal_strlit("");
                }
                ""
            },
        }
    }
}

/// The ID of an element: the value of its `id` attribute, or empty.
pub open spec fn element_id(e: Element) -> Seq<char> {
    match attr_lookup(e.attributes.items@, "id"@) {
        Some(v) => v,
        None => Seq::empty(),
    }
}

/// `class` is one of the whitespace-separated classes of the element.
pub open spec fn has_class(e: Element, class: Seq<u8>) -> bool {
    match attr_lookup(e.attributes.items@, "class"@) {
        Some(v) => has_matching_word(bytes_of(v), class, false),
        None => false,
    }
}

#[derive(Clone, Debug, PartialEq, Eq)]
pub enum NodeKind {
    Comment(String),
    Document,
    Element(Element),
    Text(String),
}

impl NodeKind {
    pub fn as_dom_element(&self) -> (r: Option<&Element>)
        ensures
            match self {
                NodeKind::Element(e) => r == Some(e),
                _ => r is None,
            },
    {
        match self {
            NodeKind::Element(e) => Some(e),
            _ => None,
        }
    }

    /// The tag name of an element node.
    pub fn tag_name(&self) -> (r: Option<&str>)
        ensures
            match self {
                NodeKind::Element(e) => r matches Some(t) && t@ == e.local_name@,
                _ => r is None,
            },
    {
        match self {
            NodeKind::Element(e) => Some(e.local_name.as_str()),
            _ => None,
        }
    }
}

} // verus!
