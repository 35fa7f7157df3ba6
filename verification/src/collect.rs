//! Collecting the style rules of a set of stylesheets that apply to a node.

use vstd::prelude::*;

use crate::dom::NodeKind;
use crate::selector_match::{matches_selector, selector_defined, selector_matches};
use crate::specificity::{
    selector_specificity, specificity_le, CalculateSpecificity, SelectorSpecificity,
};
use crate::style::{Rule, Selector, StyleRule, Stylesheet};

verus! {

/// A style rule that applies to a node, with the specificity with which it
/// applies.
#[derive(Copy, Clone, Debug, PartialEq, Eq)]
pub struct ApplicableRule<'a> {
    pub specificity: SelectorSpecificity,
    pub rule: &'a StyleRule,
}

/// The greatest specificity among the selectors of `list` that match `node`
/// ([Selectors 4 § 17](https://drafts.csswg.org/selectors/#specificity-rules)),
/// or the zero specificity when none matches.
pub open spec fn best_matching_specificity(list: Seq<Selector>, node: NodeKind) -> SelectorSpecificity
    decreases list.len(),
{
    if list.len() == 0 {
        SelectorSpecificity::spec_zero()
    } else {
        let best = best_matching_specificity(list.drop_last(), node);
        let s = selector_specificity(list.last());
        if selector_matches(list.last(), node) && !specificity_le(s, best) {
            s
        } else {
            best
        }
    }
}

/// The rules among `rules` that apply to `node`, in stylesheet order.
pub open spec fn rules_applicable<'a>(rules: Seq<Rule>, node: NodeKind) -> Seq<ApplicableRule<'a>>
    decreases rules.len(),
{
    if rules.len() == 0 {
        Seq::empty()
    } else {
        let before = rules_applicable(rules.drop_last(), node);
        match rules.last() {
            Rule::Style(r) => if exists|i: int|
                0 <= i < r.selector_list.items@.len() && selector_matches(
                    #[trigger] r.selector_list.items@[i],
                    node,
                ) {
                before.push(ApplicableRule {
                    specificity: best_matching_specificity(r.selector_list.items@, node),
                    rule: &r,
                })
            } else {
                before
            },
            _ => before,
        }
    }
}

/// The applicable rules of a sequence of stylesheets, in order.
pub open spec fn sheets_applicable<'a>(sheets: Seq<Stylesheet>, node: NodeKind) -> Seq<ApplicableRule<'a>>
    decreases sheets.len(),
{
    if sheets.len() == 0 {
        Seq::empty()
    } else {
        sheets_applicable(sheets.drop_last(), node) + rules_applicable(sheets.last().rules@, node)
    }
}

/// Matching every selector of a style rule against `node` is defined.
pub open spec fn rule_defined(rule: Rule, node: NodeKind) -> bool {
    match rule {
        Rule::Style(r) => forall|j: int|
            0 <= j < r.selector_list.items@.len() ==> selector_defined(
                #[trigger] r.selector_list.items@[j],
                node,
            ),
        _ => true,
    }
}

pub open spec fn rules_defined(rules: Seq<Rule>, node: NodeKind) -> bool {
    forall|i: int| 0 <= i < rules.len() ==> rule_defined(#[trigger] rules[i], node)
}

pub open spec fn sheets_defined(sheets: Seq<Stylesheet>, node: NodeKind) -> bool {
    forall|k: int| 0 <= k < sheets.len() ==> rules_defined(#[trigger] sheets[k].rules@, node)
}

#[derive(Clone, Debug, PartialEq, Eq)]
pub struct CollectedStyles<'a> {
    pub applicable_rules: Vec<ApplicableRule<'a>>,
}

impl<'a> CollectedStyles<'a> {
    pub fn new() -> (r: CollectedStyles<'a>)
        ensures
            r.applicable_rules@.len() == 0,
    {
        CollectedStyles { applicable_rules: Vec::new() }
    }

    /// Get the rules that are applicable to this node.
    pub fn applicable_rules(&self) -> (r: &[ApplicableRule<'a>])
        ensures
            r@ == self.applicable_rules@,
    {
        self.applicable_rules.as_slice()
    }
}

pub struct StyleCollector<'a> {
    pub stylesheets: &'a [Stylesheet],
}

/// The greatest specificity of a matching selector, and whether any matched.
fn match_selector_list(list: &Vec<Selector>, node: &NodeKind) -> (r: (bool, SelectorSpecificity))
    requires
        forall|j: int| 0 <= j < list@.len() ==> selector_defined(#[trigger] list@[j], *node),
    ensures
        r.0 == exists|i: int| 0 <= i < list@.len() && selector_matches(#[trigger] list@[i], *node),
        r.1 == best_matching_specificity(list@, *node),
{
    let mut any = false;
    let mut best = SelectorSpecificity::new(0, 0, 0);
    let mut i: usize = 0;
    while i < list.len()
        invariant
            i <= list@.len(),
            forall|j: int| 0 <= j < list@.len() ==> selector_defined(#[trigger] list@[j], *node),
            any == exists|k: int| 0 <= k < i && selector_matches(#[trigger] list@[k], *node),
            best == best_matching_specificity(list@.take(i as int), *node),
        decreases list@.len() - i,
    {
        let selector = &list[i];
        let matched = matches_selector(selector, node);
        let s = selector.calculate_specificity();
        proof {
            assert(list@.take(i + 1).drop_last() =~= list@.take(i as int));
            assert(list@.take(i + 1).last() == list@[i as int]);
        }
        if matched {
            any = true;
            if !s.is_at_most(&best) {
                best = s;
            }
        }
        i = i + 1;
    }
    proof {
        assert(list@.take(list@.len() as int) =~= list@);
    }
    (any, best)
}

impl<'a> StyleCollector<'a> {
    pub fn new(stylesheets: &'a [Stylesheet]) -> (r: StyleCollector<'a>)
        ensures
            r.stylesheets@ == stylesheets@,
    {
        StyleCollector { stylesheets }
    }

    /// The style rules of the stylesheets whose selector list matches the
    /// node, in the order of the stylesheets and of their rules.
    pub fn collect(&self, node: &NodeKind) -> (r: CollectedStyles<'a>)
        requires
            sheets_defined(self.stylesheets@, *node),
        ensures
            r.applicable_rules@ == sheets_applicable(self.stylesheets@, *node),
    {
        let mut collected = CollectedStyles::new();
        let sheets = self.stylesheets;
        let mut s: usize = 0;
        while s < sheets.len()
            invariant
                s <= sheets@.len(),
                sheets@ == self.stylesheets@,
                sheets_defined(sheets@, *node),
                collected.applicable_rules@ == sheets_applicable(sheets@.take(s as int), *node),
            decreases sheets@.len() - s,
        {
            let rules = sheets[s].rules();
            let ghost before = collected.applicable_rules@;
            proof {
                assert(rules_defined(sheets@[s as int].rules@, *node));
            }
            let mut k: usize = 0;
            while k < rules.len()
                invariant
                    k <= rules@.len(),
                    rules@ == sheets@[s as int].rules@,
                    rules_defined(rules@, *node),
                    collected.applicable_rules@ == before + rules_applicable(rules@.take(k as int), *node),
                decreases rules@.len() - k,
            {
                proof {
                    assert(rules@.take(k + 1).drop_last() =~= rules@.take(k as int));
                    assert(rules@.take(k + 1).last() == rules@[k as int]);
                }
                match &rules[k] {
                    Rule::Style(rule) => {
                        proof {
                            assert(rule_defined(rules@[k as int], *node));
                        }
                        let (any, best) = match_selector_list(&rule.selector_list.items, node);
                        if any {
                            collected.applicable_rules.push(ApplicableRule { specificity: best, rule });
                            proof {
                                assert(collected.applicable_rules@ =~= before + rules_applicable(
                                    rules@.take(k + 1),
                                    *node,
                                ));
                            }
                        }
                    },
                    _ => {},
                }
                k = k + 1;
            }
            proof {
                assert(rules@.take(rules@.len() as int) =~= rules@);
                assert(sheets@.take(s + 1).drop_last() =~= sheets@.take(s as int));
                assert(sheets@.take(s + 1).last() == sheets@[s as int]);
            }
            s = s + 1;
        }
        proof {
            assert(sheets@.take(sheets@.len() as int) =~= sheets@);
        }
        collected
    }
}

} // verus!
