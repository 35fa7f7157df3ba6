//! Selector specificity and its ordering.

use vstd::prelude::*;
use core::cmp::Ordering;
use vstd::std_specs::cmp::PartialOrdSpecImpl;

use crate::style::{Selector, SimpleSelector};

verus! {

/// [CSS Selectors Level 4 § Specificity](https://drafts.csswg.org/selectors/#specificity-rules):
/// the number of ID selectors, of class, attribute and pseudo-class
/// selectors, and of type and pseudo-element selectors.
#[derive(Copy, Clone, Debug, PartialEq, Eq, Structural, Ord)]
pub struct SelectorSpecificity {
    pub id_selectors: usize,
    pub class_attribute_pseudo_class_selectors: usize,
    pub type_and_pseudo_element_selectors: usize,
}

/// Three-way comparison of two counts.
pub open spec fn count_order(a: usize, b: usize) -> Ordering {
    if a < b {
        Ordering::Less
    } else if a == b {
        Ordering::Equal
    } else {
        Ordering::Greater
    }
}

/// Specificities compare by their ID count first, then by their class count,
/// then by their type count.
pub open spec fn specificity_order(a: SelectorSpecificity, b: SelectorSpecificity) -> Ordering {
    if a.id_selectors != b.id_selectors {
        count_order(a.id_selectors, b.id_selectors)
    } else if a.class_attribute_pseudo_class_selectors != b.class_attribute_pseudo_class_selectors {
        count_order(a.class_attribute_pseudo_class_selectors, b.class_attribute_pseudo_class_selectors)
    } else {
        count_order(a.type_and_pseudo_element_selectors, b.type_and_pseudo_element_selectors)
    }
}

/// `a` is ordered at or before `b`.
pub open spec fn specificity_le(a: SelectorSpecificity, b: SelectorSpecificity) -> bool {
    specificity_order(a, b) != Ordering::Greater
}

impl SelectorSpecificity {
    pub fn new(a: usize, b: usize, c: usize) -> (r: SelectorSpecificity)
        ensures
            r.id_selectors == a,
            r.class_attribute_pseudo_class_selectors == b,
            r.type_and_pseudo_element_selectors == c,
    {
        SelectorSpecificity {
            id_selectors: a,
            class_attribute_pseudo_class_selectors: b,
            type_and_pseudo_element_selectors: c,
        }
    }

    /// The three-way comparison of two specificities.
    pub fn compare(&self, other: &SelectorSpecificity) -> (r: Ordering)
        ensures
            r == specificity_order(*self, *other),
    {
        if self.id_selectors != other.id_selectors {
            if self.id_selectors < other.id_selectors { Ordering::Less } else { Ordering::Greater }
        } else if self.class_attribute_pseudo_class_selectors
            != other.class_attribute_pseudo_class_selectors {
            if self.class_attribute_pseudo_class_selectors
                < other.class_attribute_pseudo_class_selectors {
                Ordering::Less
            } else {
                Ordering::Greater
            }
        } else if self.type_and_pseudo_element_selectors < other.type_and_pseudo_element_selectors {
            Ordering::Less
        } else if self.type_and_pseudo_element_selectors == other.type_and_pseudo_element_selectors {
            Ordering::Equal
        } else {
            Ordering::Greater
        }
    }

    /// Whether `self` is ordered at or before `other`.
    pub fn is_at_most(&self, other: &SelectorSpecificity) -> (r: bool)
        ensures
            r == specificity_le(*self, *other),
    {
        match self.compare(other) {
            Ordering::Greater => false,
            _ => true,
        }
    }
}

impl Default for SelectorSpecificity {
    fn default() -> (r: SelectorSpecificity)
        ensures
            r == SelectorSpecificity::spec_zero(),
    {
        SelectorSpecificity::new(0, 0, 0)
    }
}

impl SelectorSpecificity {
    /// The specificity of a selector that counts nothing.
    pub open spec fn spec_zero() -> SelectorSpecificity {
        SelectorSpecificity {
            id_selectors: 0,
            class_attribute_pseudo_class_selectors: 0,
            type_and_pseudo_element_selectors: 0,
        }
    }
}

impl PartialOrd for SelectorSpecificity {
    fn partial_cmp(&self, other: &SelectorSpecificity) -> (r: Option<Ordering>) {
        Some(self.compare(other))
    }
}

impl PartialOrdSpecImpl for SelectorSpecificity {
    open spec fn obeys_partial_cmp_spec() -> bool {
        true
    }

    open spec fn partial_cmp_spec(&self, other: &SelectorSpecificity) -> Option<Ordering> {
        Some(specificity_order(*self, *other))
    }
}

/// Two specificities compare as equal exactly when they are the same.
pub proof fn specificity_order_equal_iff_same(a: SelectorSpecificity, b: SelectorSpecificity)
    ensures
        (specificity_order(a, b) == Ordering::Equal) <==> a == b,
{
}

/// Swapping the operands reverses the comparison.
pub proof fn specificity_order_antisymmetric(a: SelectorSpecificity, b: SelectorSpecificity)
    ensures
        specificity_order(a, b) == Ordering::Less <==> specificity_order(b, a) == Ordering::Greater,
        specificity_order(a, b) == Ordering::Equal <==> specificity_order(b, a) == Ordering::Equal,
{
}

/// The ordering is transitive.
pub proof fn specificity_order_transitive(
    a: SelectorSpecificity,
    b: SelectorSpecificity,
    c: SelectorSpecificity,
)
    requires
        specificity_le(a, b),
        specificity_le(b, c),
    ensures
        specificity_le(a, c),
        specificity_order(a, b) == Ordering::Less || specificity_order(b, c) == Ordering::Less
            ==> specificity_order(a, c) == Ordering::Less,
{
}

/// Any two specificities are comparable.
pub proof fn specificity_order_total(a: SelectorSpecificity, b: SelectorSpecificity)
    ensures
        specificity_le(a, b) || specificity_le(b, a),
{
}

/// The specificity that one selector contributes.
pub open spec fn selector_specificity(selector: Selector) -> SelectorSpecificity {
    match selector {
        Selector::Simple(SimpleSelector::Attribute(..)) | Selector::Simple(
            SimpleSelector::Class(..),
        ) => SelectorSpecificity {
            id_selectors: 0,
            class_attribute_pseudo_class_selectors: 1,
            type_and_pseudo_element_selectors: 0,
        },
        Selector::Simple(SimpleSelector::Id(..)) => SelectorSpecificity {
            id_selectors: 1,
            class_attribute_pseudo_class_selectors: 0,
            type_and_pseudo_element_selectors: 0,
        },
        Selector::Simple(SimpleSelector::TypeSelector(..)) => SelectorSpecificity {
            id_selectors: 0,
            class_attribute_pseudo_class_selectors: 0,
            type_and_pseudo_element_selectors: 1,
        },
        Selector::Simple(SimpleSelector::Universal) => SelectorSpecificity::spec_zero(),
    }
}

/// A simple selector counts one of its own kind: an ID selector one ID, a
/// class or attribute selector one class, a type selector one type; the
/// universal selector counts nothing. So simple selectors rank
/// strictly by kind: `*` below any type selector, a type selector below any
/// class or attribute selector, and those below any ID selector
/// ([Selectors 4 § 17](https://drafts.csswg.org/selectors/#specificity-rules)).
/// So `*` is at most as specific as every simple selector.
pub proof fn simple_selectors_rank_by_kind(u: Selector, t: Selector, c: Selector, i: Selector, any: Selector)
    requires
        u == Selector::Simple(SimpleSelector::Universal),
        t matches Selector::Simple(SimpleSelector::TypeSelector(_)),
        c matches Selector::Simple(SimpleSelector::Class(_)) || c matches Selector::Simple(SimpleSelector::Attribute(_)),
        i matches Selector::Simple(SimpleSelector::Id(_)),
    ensures
        selector_specificity(u).id_selectors == 0,
        selector_specificity(u).class_attribute_pseudo_class_selectors == 0,
        selector_specificity(u).type_and_pseudo_element_selectors == 0,
        selector_specificity(t).id_selectors == 0,
        selector_specificity(t).class_attribute_pseudo_class_selectors == 0,
        selector_specificity(t).type_and_pseudo_element_selectors == 1,
        selector_specificity(c).id_selectors == 0,
        selector_specificity(c).class_attribute_pseudo_class_selectors == 1,
        selector_specificity(c).type_and_pseudo_element_selectors == 0,
        selector_specificity(i).id_selectors == 1,
        selector_specificity(i).class_attribute_pseudo_class_selectors == 0,
        selector_specificity(i).type_and_pseudo_element_selectors == 0,
        specificity_order(selector_specificity(u), selector_specificity(t)) == Ordering::Less,
        specificity_order(selector_specificity(t), selector_specificity(c)) == Ordering::Less,
        specificity_order(selector_specificity(c), selector_specificity(i)) == Ordering::Less,
        specificity_le(selector_specificity(u), selector_specificity(any)),
{
}

pub trait CalculateSpecificity {
    fn calculate_specificity(&self) -> SelectorSpecificity;
}

impl CalculateSpecificity for SimpleSelector {
    fn calculate_specificity(&self) -> (r: SelectorSpecificity)
        ensures
            r == selector_specificity(Selector::Simple(*self)),
    {
        match self {
            SimpleSelector::Attribute(..) | SimpleSelector::Class(..) => SelectorSpecificity::new(0, 1, 0),
            SimpleSelector::Id(..) => SelectorSpecificity::new(1, 0, 0),
            SimpleSelector::TypeSelector(..) => SelectorSpecificity::new(0, 0, 1),
            SimpleSelector::Universal => SelectorSpecificity::new(0, 0, 0),
        }
    }
}

impl CalculateSpecificity for Selector {
    fn calculate_specificity(&self) -> (r: SelectorSpecificity)
        ensures
            r == selector_specificity(*self),
    {
        match self {
            Selector::Simple(simple) => simple.calculate_specificity(),
        }
    }
}

} // verus!
