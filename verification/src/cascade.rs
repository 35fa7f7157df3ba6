//! The cascade: from the rules that apply to a node, and the values of its
//! parent, to the node's property map.

use vstd::prelude::*;

use crate::collect::{ApplicableRule, CollectedStyles};
use crate::dom::{attr_lookup, AttributeList, Element, NodeKind};
use crate::property_map::{applied, PropertyMap};
use crate::specificity::specificity_le;
use crate::property_map::{applied_view, applied_view_agrees};
use crate::rules::{decl_views, declarations_from, parse_style_attribute};
use crate::style::{CascadeOrigin, CssColor, CssLength, CssNumber, Declaration, Property, Rule, ValueView};
use crate::tokenizer::tokens_of;
use crate::util::{legacy_color, CssAttributeStrExtensions};
use crate::dom::bytes_of;
use crate::lengths::{f32_bits_of, f32_bits_of_u32, parse_pixel_length, pixel_length};

verus! {

/// The map after applying `declarations` in order.
pub open spec fn apply_declarations(m: PropertyMap, declarations: Seq<Declaration>) -> PropertyMap
    decreases declarations.len(),
{
    if declarations.len() == 0 {
        m
    } else {
        let d = declarations.last();
        applied(apply_declarations(m, declarations.drop_last()), d.property, d.value).0
    }
}

/// The map after applying, in order, the declarations of those `rules` that
/// come from `origin`.
pub open spec fn apply_rules_of_origin(m: PropertyMap, rules: Seq<ApplicableRule>, origin: CascadeOrigin) -> PropertyMap
    decreases rules.len(),
{
    if rules.len() == 0 {
        m
    } else {
        let before = apply_rules_of_origin(m, rules.drop_last(), origin);
        let r = rules.last();
        if r.rule.cascade_origin == origin {
            apply_declarations(before, r.rule.declarations@)
        } else {
            before
        }
    }
}

/// `x` inserted into the sorted `s` after every rule that is at most as
/// specific as `x`.
pub open spec fn insert_by_specificity<'a>(s: Seq<ApplicableRule<'a>>, x: ApplicableRule<'a>) -> Seq<ApplicableRule<'a>>
    decreases s.len(),
{
    if s.len() == 0 {
        seq![x]
    } else if specificity_le(s.last().specificity, x.specificity) {
        s.push(x)
    } else {
        insert_by_specificity(s.drop_last(), x).push(s.last())
    }
}

/// The rules stably sorted by ascending specificity.
pub open spec fn sort_by_specificity<'a>(s: Seq<ApplicableRule<'a>>) -> Seq<ApplicableRule<'a>>
    decreases s.len(),
{
    if s.len() == 0 {
        s
    } else {
        insert_by_specificity(sort_by_specificity(s.drop_last()), s.last())
    }
}

/// The normal declarations of one origin applied in order of ascending
/// specificity, rules of equal specificity in the order they were
/// collected.
pub open spec fn cascade_origin(m: PropertyMap, rules: Seq<ApplicableRule>, origin: CascadeOrigin) -> PropertyMap {
    apply_rules_of_origin(m, sort_by_specificity(rules), origin)
}

/// Where the target has no value, it takes the source's.
pub open spec fn inherit_value<T>(target: Option<T>, source: Option<T>) -> Option<T> {
    if target is None { source } else { target }
}

/// The inherited properties of `parent` filled into `m` where `m` has no
/// value.
pub open spec fn inherited(m: PropertyMap, parent: PropertyMap) -> PropertyMap {
    PropertyMap {
        color: inherit_value(m.color, parent.color),
        font_size: inherit_value(m.font_size, parent.font_size),
        white_space: inherit_value(m.white_space, parent.white_space),
        ..m
    }
}

/// The margin that a `body` element takes from its attribute `a`, or,
/// where it has no `a`, from its attribute `b`: the pixel length that the
/// value maps to, and 8px where it maps to none or neither attribute is
/// there.
pub open spec fn body_margin(attributes: Seq<crate::dom::Attribute>, a: Seq<char>, b: Seq<char>) -> CssLength {
    let pixels = match attr_lookup(attributes, a) {
        Some(v) => pixel_length(bytes_of(v)),
        None => match attr_lookup(attributes, b) {
            Some(v) => pixel_length(bytes_of(v)),
            None => None,
        },
    };
    match pixels {
        Some(p) => CssLength::Pixels(CssNumber { bits: f32_bits_of(p as nat) as u32 }),
        None => CssLength::Pixels(CssNumber { bits: 0x4100_0000 }),
    }
}

/// The presentational hints of a `body` element
/// ([HTML § 15.3.3](https://html.spec.whatwg.org/multipage/rendering.html#the-page)):
/// the colours of its `bgcolor` and `text` attributes, read as legacy colour
/// values, and its four margins, from `marginheight` or `topmargin`,
/// `marginwidth` or `rightmargin`, `marginheight` or `bottommargin`, and
/// `marginwidth` or `leftmargin`.
pub open spec fn body_hints(m: PropertyMap, attributes: Seq<crate::dom::Attribute>) -> PropertyMap {
    let background = match attr_lookup(attributes, "bgcolor"@) {
        Some(v) => legacy_color(v),
        None => None,
    };
    let text = match attr_lookup(attributes, "text"@) {
        Some(v) => legacy_color(v),
        None => None,
    };
    let m1 = match background {
        Some(c) => PropertyMap { background_color: Some(c), ..m },
        None => m,
    };
    let m2 = match text {
        Some(c) => PropertyMap { color: Some(c), ..m1 },
        None => m1,
    };
    PropertyMap {
        margin_top: Some(body_margin(attributes, "marginheight"@, "topmargin"@)),
        margin_right: Some(body_margin(attributes, "marginwidth"@, "rightmargin"@)),
        margin_bottom: Some(body_margin(attributes, "marginheight"@, "bottommargin"@)),
        margin_left: Some(body_margin(attributes, "marginwidth"@, "leftmargin"@)),
        ..m2
    }
}

/// The presentational hints of an element.
pub open spec fn presentational_hints(m: PropertyMap, e: Element) -> PropertyMap {
    if e.local_name@ == "body"@ {
        body_hints(m, e.attributes.items@)
    } else {
        m
    }
}

/// The map after applying, in order, declarations as the contracts see them.
pub open spec fn apply_declaration_views(m: PropertyMap, declarations: Seq<(Property, ValueView)>) -> PropertyMap
    decreases declarations.len(),
{
    if declarations.len() == 0 {
        m
    } else {
        let d = declarations.last();
        applied_view(apply_declaration_views(m, declarations.drop_last()), d.0, d.1).0
    }
}

/// Applying declarations has the effect that their views say.
pub proof fn apply_declarations_by_views(m: PropertyMap, declarations: Seq<Declaration>)
    ensures
        apply_declarations(m, declarations) == apply_declaration_views(m, decl_views(declarations)),
    decreases declarations.len(),
{
    if declarations.len() > 0 {
        apply_declarations_by_views(m, declarations.drop_last());
        assert(decl_views(declarations).drop_last() =~= decl_views(declarations.drop_last()));
        let d = declarations.last();
        applied_view_agrees(apply_declarations(m, declarations.drop_last()), d.property, d.value);
    }
}

/// The text of the `style` attribute of an element node.
pub open spec fn style_attribute_text(node: Option<NodeKind>) -> Option<Seq<char>> {
    match node {
        Some(NodeKind::Element(e)) => attr_lookup(e.attributes.items@, "style"@),
        _ => None,
    }
}

/// The declarations of the `style` attribute of a node.
pub open spec fn style_attribute_declarations(node: Option<NodeKind>) -> Seq<(Property, ValueView)> {
    match style_attribute_text(node) {
        Some(text) => declarations_from(text, tokens_of(text), 0, tokens_of(text).len() as usize, Seq::empty()),
        None => Seq::empty(),
    }
}

/// The cascaded values of a node before its `style` attribute
/// ([CSS Cascading 4 § 6.1](https://drafts.csswg.org/css-cascade-4/#cascade-origin)):
/// the inherited properties of the parent, overridden by the normal
/// declarations of the user agent, then of the user, then by the
/// presentational hints of the node, then by the author's declarations.
pub open spec fn cascaded_from_stylesheets(
    rules: Seq<ApplicableRule>,
    node: Option<NodeKind>,
    parent: Option<PropertyMap>,
) -> PropertyMap {
    let m0 = match parent {
        Some(p) => inherited(PropertyMap::empty(), p),
        None => PropertyMap::empty(),
    };
    let m1 = cascade_origin(m0, rules, CascadeOrigin::UserAgent);
    let m2 = cascade_origin(m1, rules, CascadeOrigin::User);
    let m3 = match node {
        Some(NodeKind::Element(e)) => presentational_hints(m2, e),
        _ => m2,
    };
    cascade_origin(m3, rules, CascadeOrigin::Author)
}

/// The cascaded values of a node: those of the stylesheets, overridden last
/// by the declarations of the node's `style` attribute.
pub open spec fn cascaded(rules: Seq<ApplicableRule>, node: Option<NodeKind>, parent: Option<PropertyMap>) -> PropertyMap {
    apply_declaration_views(cascaded_from_stylesheets(rules, node, parent), style_attribute_declarations(node))
}

/// Where `target` is empty, it takes the value of `source`.
pub fn inherit_property<T: Copy>(target: &mut Option<T>, source: &Option<T>)
    ensures
        *final(target) == inherit_value(*old(target), *source),
{
    if target.is_none() {
        *target = *source;
    }
}

/// Fills the inherited properties of `parent` into `property_map` where it
/// has no value.
pub fn inherit_properties(property_map: &mut PropertyMap, parent: &PropertyMap)
    ensures
        *final(property_map) == inherited(*old(property_map), *parent),
{
    inherit_property(&mut property_map.color, &parent.color);
    inherit_property(&mut property_map.font_size, &parent.font_size);
    inherit_property(&mut property_map.white_space, &parent.white_space);
}

/// Applies declarations in order.
pub fn apply_declaration_list(property_map: &mut PropertyMap, declarations: &[Declaration])
    ensures
        *final(property_map) == apply_declarations(*old(property_map), declarations@),
{
    let mut i: usize = 0;
    while i < declarations.len()
        invariant
            i <= declarations@.len(),
            *property_map == apply_declarations(*old(property_map), declarations@.take(i as int)),
        decreases declarations@.len() - i,
    {
        let declaration = &declarations[i];
        proof {
            assert(declarations@.take(i + 1).drop_last() =~= declarations@.take(i as int));
            assert(declarations@.take(i + 1).last() == declarations@[i as int]);
        }
        property_map.apply_property(declaration.property(), declaration.value());
        i = i + 1;
    }
    proof {
        assert(declarations@.take(declarations@.len() as int) =~= declarations@);
    }
}

proof fn lemma_insert_at<'a>(s: Seq<ApplicableRule<'a>>, x: ApplicableRule<'a>, j: int)
    requires
        0 <= j <= s.len(),
        j == 0 || specificity_le(s[j - 1].specificity, x.specificity),
        forall|k: int| j <= k < s.len() ==> !specificity_le(#[trigger] s[k].specificity, x.specificity),
    ensures
        insert_by_specificity(s, x) == s.insert(j, x),
    decreases s.len(),
{
    if s.len() == 0 {
        assert(s.insert(j, x) =~= seq![x]);
    } else if j == s.len() {
        assert(s.insert(j, x) =~= s.push(x));
    } else {
        assert(!specificity_le(s.last().specificity, x.specificity));
        lemma_insert_at(s.drop_last(), x, j);
        assert(s.insert(j, x) =~= s.drop_last().insert(j, x).push(s.last()));
    }
}

/// Every rule of the sequence is at most as specific as every rule after it.
pub open spec fn ascending(s: Seq<ApplicableRule>) -> bool {
    forall|a: int, b: int| 0 <= a < b < s.len() ==> specificity_le(#[trigger] s[a].specificity, #[trigger] s[b].specificity)
}

proof fn lemma_insert_keeps_order<'a>(t: Seq<ApplicableRule<'a>>, x: ApplicableRule<'a>)
    requires
        ascending(t),
    ensures
        ascending(insert_by_specificity(t, x)),
        insert_by_specificity(t, x).to_multiset() == t.to_multiset().insert(x),
    decreases t.len(),
{
    broadcast use vstd::seq_lib::group_to_multiset_ensures;

    if t.len() == 0 {
        assert(seq![x] =~= Seq::<ApplicableRule<'a>>::empty().push(x));
    } else if specificity_le(t.last().specificity, x.specificity) {
        assert forall|a: int, b: int| 0 <= a < b < t.push(x).len() implies specificity_le(
            #[trigger] t.push(x)[a].specificity,
            #[trigger] t.push(x)[b].specificity,
        ) by {
            if b == t.len() {
                if a < t.len() - 1 {
                    crate::specificity::specificity_order_transitive(t[a].specificity, t.last().specificity, x.specificity);
                }
            }
        }
    } else {
        let u = t.drop_last();
        let y = t.last();
        assert(ascending(u));
        lemma_insert_keeps_order(u, x);
        let v = insert_by_specificity(u, x);
        crate::specificity::specificity_order_total(y.specificity, x.specificity);
        assert forall|k: int| 0 <= k < v.len() implies specificity_le(#[trigger] v[k].specificity, y.specificity) by {
            assert(v.to_multiset().count(v[k]) > 0);
            assert(u.to_multiset().insert(x).count(v[k]) > 0);
            if v[k] != x {
                assert(u.to_multiset().count(v[k]) > 0);
                assert(u.contains(v[k]));
                let idx = choose|idx: int| 0 <= idx < u.len() && u[idx] == v[k];
                assert(t[idx] == u[idx]);
            }
        }
        assert forall|a: int, b: int| 0 <= a < b < v.push(y).len() implies specificity_le(
            #[trigger] v.push(y)[a].specificity,
            #[trigger] v.push(y)[b].specificity,
        ) by {
            if b == v.len() {
                assert(v.push(y)[a] == v[a]);
            } else {
                assert(v.push(y)[a] == v[a]);
                assert(v.push(y)[b] == v[b]);
            }
        }
        assert(u.push(y) =~= t);
    }
}

/// Sorting rules by specificity puts them in ascending order of
/// specificity, and keeps every rule, each as often as it occurred.
pub proof fn sort_by_specificity_ascends_and_permutes<'a>(s: Seq<ApplicableRule<'a>>)
    ensures
        ascending(sort_by_specificity(s)),
        sort_by_specificity(s).to_multiset() == s.to_multiset(),
    decreases s.len(),
{
    broadcast use vstd::seq_lib::group_to_multiset_ensures;

    if s.len() > 0 {
        sort_by_specificity_ascends_and_permutes(s.drop_last());
        lemma_insert_keeps_order(sort_by_specificity(s.drop_last()), s.last());
        assert(s.drop_last().push(s.last()) =~= s);
    }
}

/// The rules of `s` whose specificity is `k`, in their order in `s`.
pub open spec fn of_specificity<'a>(s: Seq<ApplicableRule<'a>>, k: crate::specificity::SelectorSpecificity) -> Seq<
    ApplicableRule<'a>,
>
    decreases s.len(),
{
    if s.len() == 0 {
        s
    } else {
        let r = of_specificity(s.drop_last(), k);
        if s.last().specificity == k {
            r.push(s.last())
        } else {
            r
        }
    }
}

proof fn lemma_insert_of_specificity<'a>(
    t: Seq<ApplicableRule<'a>>,
    x: ApplicableRule<'a>,
    k: crate::specificity::SelectorSpecificity,
)
    ensures
        of_specificity(insert_by_specificity(t, x), k) == (if x.specificity == k {
            of_specificity(t, k).push(x)
        } else {
            of_specificity(t, k)
        }),
    decreases t.len(),
{
    if t.len() == 0 {
        assert(seq![x].drop_last() =~= t);
    } else if specificity_le(t.last().specificity, x.specificity) {
        assert(t.push(x).drop_last() =~= t);
    } else {
        let u = t.drop_last();
        let y = t.last();
        lemma_insert_of_specificity(u, x, k);
        crate::specificity::specificity_order_total(y.specificity, y.specificity);
        assert(insert_by_specificity(u, x).push(y).drop_last() =~= insert_by_specificity(u, x));
        if x.specificity == k {
            assert(y.specificity != k);
        }
    }
}

/// Sorting by specificity is stable: the rules of any one specificity keep
/// the order in which they were collected.
pub proof fn sort_by_specificity_is_stable<'a>(
    s: Seq<ApplicableRule<'a>>,
    k: crate::specificity::SelectorSpecificity,
)
    ensures
        of_specificity(sort_by_specificity(s), k) == of_specificity(s, k),
    decreases s.len(),
{
    if s.len() > 0 {
        sort_by_specificity_is_stable(s.drop_last(), k);
        lemma_insert_of_specificity(sort_by_specificity(s.drop_last()), s.last(), k);
    }
}

/// A node that no rule applies to, and that is no element (so it has no
/// `style` attribute and no presentational hints), takes its parent's
/// inherited properties (colour, font size and `white-space`) and nothing
/// else.
pub proof fn cascade_without_rules_only_inherits(parent: PropertyMap, node: Option<NodeKind>)
    requires
        !(node matches Some(NodeKind::Element(_))),
    ensures
        cascaded(Seq::empty(), node, Some(parent)) == inherited(PropertyMap::empty(), parent),
{
    let m0 = inherited(PropertyMap::empty(), parent);
    assert(sort_by_specificity(Seq::<ApplicableRule>::empty()) =~= Seq::<ApplicableRule>::empty());
    assert(cascade_origin(m0, Seq::empty(), CascadeOrigin::UserAgent) == m0);
    assert(style_attribute_declarations(node) =~= Seq::<(Property, ValueView)>::empty());
}

/// The declarations of the `style` attribute are applied after every
/// declaration of the stylesheets, so they override them.
pub proof fn style_attribute_applies_last(rules: Seq<ApplicableRule>, node: Option<NodeKind>, parent: Option<PropertyMap>)
    ensures
        cascaded(rules, node, parent) == apply_declaration_views(
            cascaded_from_stylesheets(rules, node, parent),
            style_attribute_declarations(node),
        ),
{
}

/// Some rule of `rules` declares `p`.
pub open spec fn rules_declare(rules: Seq<ApplicableRule>, p: Property) -> bool {
    exists|k: int, j: int|
        0 <= k < rules.len() && 0 <= j < rules[k].rule.declarations@.len()
            && (#[trigger] rules[k].rule.declarations@[j]).property == p
}

/// Some declaration of `ds` is of `p`.
pub open spec fn views_declare(ds: Seq<(Property, ValueView)>, p: Property) -> bool {
    exists|j: int| 0 <= j < ds.len() && (#[trigger] ds[j]).0 == p
}

/// `b` holds the same value as `a` in the field of `p`, for the inherited
/// properties `color`, `font-size` and `white-space`.
pub open spec fn keeps_inherited(a: PropertyMap, b: PropertyMap, p: Property) -> bool {
    &&& p == Property::Color ==> b.color == a.color
    &&& p == Property::FontSize ==> b.font_size == a.font_size
    &&& p == Property::WhiteSpace ==> b.white_space == a.white_space
}

proof fn declarations_keep_field(m: PropertyMap, ds: Seq<Declaration>, p: Property)
    requires
        forall|j: int| 0 <= j < ds.len() ==> (#[trigger] ds[j]).property != p,
    ensures
        keeps_inherited(m, apply_declarations(m, ds), p),
    decreases ds.len(),
{
    if ds.len() > 0 {
        assert forall|j: int| 0 <= j < ds.drop_last().len() implies (#[trigger] ds.drop_last()[j]).property != p by {
            assert(ds.drop_last()[j] == ds[j]);
        }
        declarations_keep_field(m, ds.drop_last(), p);
        assert(ds.last().property != p);
    }
}

proof fn declaration_views_keep_field(m: PropertyMap, ds: Seq<(Property, ValueView)>, p: Property)
    requires
        !views_declare(ds, p),
    ensures
        keeps_inherited(m, apply_declaration_views(m, ds), p),
    decreases ds.len(),
{
    if ds.len() > 0 {
        assert(!views_declare(ds.drop_last(), p)) by {
            if views_declare(ds.drop_last(), p) {
                let j = choose|j: int| 0 <= j < ds.drop_last().len() && (#[trigger] ds.drop_last()[j]).0 == p;
                assert(ds[j] == ds.drop_last()[j]);
            }
        }
        declaration_views_keep_field(m, ds.drop_last(), p);
        assert(ds[ds.len() - 1].0 != p);
    }
}

proof fn rules_of_origin_keep_field(m: PropertyMap, rules: Seq<ApplicableRule>, origin: CascadeOrigin, p: Property)
    requires
        !rules_declare(rules, p),
    ensures
        keeps_inherited(m, apply_rules_of_origin(m, rules, origin), p),
    decreases rules.len(),
{
    if rules.len() > 0 {
        let rest = rules.drop_last();
        assert(!rules_declare(rest, p)) by {
            if rules_declare(rest, p) {
                let (k, j) = choose|k: int, j: int|
                    0 <= k < rest.len() && 0 <= j < rest[k].rule.declarations@.len()
                        && (#[trigger] rest[k].rule.declarations@[j]).property == p;
                assert(rules[k] == rest[k]);
            }
        }
        rules_of_origin_keep_field(m, rest, origin, p);
        let r = rules.last();
        let ds = r.rule.declarations@;
        assert forall|j: int| 0 <= j < ds.len() implies (#[trigger] ds[j]).property != p by {
            if ds[j].property == p {
                assert(rules[rules.len() - 1].rule.declarations@[j].property == p);
            }
        }
        declarations_keep_field(apply_rules_of_origin(m, rest, origin), ds, p);
    }
}

proof fn sorting_keeps_undeclared<'a>(rules: Seq<ApplicableRule<'a>>, p: Property)
    requires
        !rules_declare(rules, p),
    ensures
        !rules_declare(sort_by_specificity(rules), p),
{
    broadcast use vstd::seq_lib::group_to_multiset_ensures;

    sort_by_specificity_ascends_and_permutes(rules);
    let sorted = sort_by_specificity(rules);
    if rules_declare(sorted, p) {
        let (k, j) = choose|k: int, j: int|
            0 <= k < sorted.len() && 0 <= j < sorted[k].rule.declarations@.len()
                && (#[trigger] sorted[k].rule.declarations@[j]).property == p;
        assert(sorted.to_multiset().count(sorted[k]) > 0);
        assert(rules.to_multiset().count(sorted[k]) > 0);
        assert(rules.contains(sorted[k]));
        let idx = choose|idx: int| 0 <= idx < rules.len() && rules[idx] == sorted[k];
        assert(rules[idx].rule.declarations@[j].property == p);
    }
}

/// `color`, `font-size` and `white-space` are inherited: where neither the
/// rules that apply to a node nor its `style` attribute declare the
/// property (and, for `color`, the node is no `body`, whose `text`
/// attribute may give one), the node has its parent's value of it, and
/// none without a parent. (So a paragraph in a `div` with
/// `font-size: 20px` and no rule of its own has a font size of 20px.)
pub proof fn undeclared_inherited_properties_come_from_the_parent(
    rules: Seq<ApplicableRule>,
    node: Option<NodeKind>,
    parent: Option<PropertyMap>,
    p: Property,
)
    requires
        p == Property::Color || p == Property::FontSize || p == Property::WhiteSpace,
        p == Property::Color ==> !(node matches Some(NodeKind::Element(e)) && e.local_name@ == "body"@),
        !rules_declare(rules, p),
        !views_declare(style_attribute_declarations(node), p),
    ensures
        p == Property::Color ==> cascaded(rules, node, parent).color == (match parent {
            Some(q) => q.color,
            None => None,
        }),
        p == Property::FontSize ==> cascaded(rules, node, parent).font_size == (match parent {
            Some(q) => q.font_size,
            None => None,
        }),
        p == Property::WhiteSpace ==> cascaded(rules, node, parent).white_space == (match parent {
            Some(q) => q.white_space,
            None => None,
        }),
{
    let m0 = match parent {
        Some(q) => inherited(PropertyMap::empty(), q),
        None => PropertyMap::empty(),
    };
    sorting_keeps_undeclared(rules, p);
    let sorted = sort_by_specificity(rules);
    rules_of_origin_keep_field(m0, sorted, CascadeOrigin::UserAgent, p);
    let m1 = cascade_origin(m0, rules, CascadeOrigin::UserAgent);
    rules_of_origin_keep_field(m1, sorted, CascadeOrigin::User, p);
    let m2 = cascade_origin(m1, rules, CascadeOrigin::User);
    let m3 = match node {
        Some(NodeKind::Element(e)) => presentational_hints(m2, e),
        _ => m2,
    };
    assert(keeps_inherited(m2, m3, p));
    rules_of_origin_keep_field(m3, sorted, CascadeOrigin::Author, p);
    let m4 = cascade_origin(m3, rules, CascadeOrigin::Author);
    declaration_views_keep_field(m4, style_attribute_declarations(node), p);
}

/// The rules stably sorted by ascending specificity.
pub fn sorted_by_specificity<'a>(rules: &[ApplicableRule<'a>]) -> (r: Vec<ApplicableRule<'a>>)
    ensures
        r@ == sort_by_specificity(rules@),
{
    let mut sorted: Vec<ApplicableRule<'a>> = Vec::new();
    let mut i: usize = 0;
    while i < rules.len()
        invariant
            i <= rules@.len(),
            sorted@ == sort_by_specificity(rules@.take(i as int)),
        decreases rules@.len() - i,
    {
        let x = rules[i];
        let mut j: usize = sorted.len();
        while j > 0 && !sorted[j - 1].specificity.is_at_most(&x.specificity)
            invariant
                j <= sorted@.len(),
                forall|k: int| j <= k < sorted@.len() ==> !specificity_le(#[trigger] sorted@[k].specificity, x.specificity),
            decreases j,
        {
            j = j - 1;
        }
        proof {
            lemma_insert_at(sorted@, x, j as int);
            assert(rules@.take(i + 1).drop_last() =~= rules@.take(i as int));
            assert(rules@.take(i + 1).last() == x);
        }
        sorted.insert(j, x);
        i = i + 1;
    }
    proof {
        assert(rules@.take(rules@.len() as int) =~= rules@);
    }
    sorted
}

/// Applies the normal declarations of the rules from `origin`, in order of
/// ascending specificity.
pub fn cascade_normal_declarations_for_origin(
    property_map: &mut PropertyMap,
    applicable_rules: &[ApplicableRule],
    origin: CascadeOrigin,
)
    ensures
        *final(property_map) == cascade_origin(*old(property_map), applicable_rules@, origin),
{
    let rules = sorted_by_specificity(applicable_rules);
    let mut i: usize = 0;
    while i < rules.len()
        invariant
            i <= rules@.len(),
            rules@ == sort_by_specificity(applicable_rules@),
            *property_map == apply_rules_of_origin(*old(property_map), rules@.take(i as int), origin),
        decreases rules@.len() - i,
    {
        let rule = rules[i];
        proof {
            assert(rules@.take(i + 1).drop_last() =~= rules@.take(i as int));
            assert(rules@.take(i + 1).last() == rule);
        }
        if rule.rule.cascade_origin == origin {
            apply_declaration_list(property_map, rule.rule.declarations.as_slice());
        }
        i = i + 1;
    }
    proof {
        assert(rules@.take(rules@.len() as int) =~= rules@);
    }
}

/// <https://html.spec.whatwg.org/multipage/rendering.html#the-page>
fn cascade_styles_from_presentational_hints_body(property_map: &mut PropertyMap, attributes: &AttributeList)
    ensures
        *final(property_map) == body_hints(*old(property_map), attributes.items@),
{
    let background = match attributes.find_by_str("bgcolor") {
        Some(v) => v.parse_legacy_color_value(),
        None => None,
    };
    if let Some(background_color) = background {
        property_map.background_color = Some(background_color);
    }
    let text = match attributes.find_by_str("text") {
        Some(v) => v.parse_legacy_color_value(),
        None => None,
    };
    if let Some(text_color) = text {
        property_map.color = Some(text_color);
    }
    property_map.margin_top = Some(cascade_styles_from_presentational_hints_body_margin(
        attributes,
        "marginheight",
        "topmargin",
    ));
    property_map.margin_right = Some(cascade_styles_from_presentational_hints_body_margin(
        attributes,
        "marginwidth",
        "rightmargin",
    ));
    property_map.margin_bottom = Some(cascade_styles_from_presentational_hints_body_margin(
        attributes,
        "marginheight",
        "bottommargin",
    ));
    property_map.margin_left = Some(cascade_styles_from_presentational_hints_body_margin(
        attributes,
        "marginwidth",
        "leftmargin",
    ));
}

/// The margin that a `body` element takes from the attribute `attr_a`, or
/// where it has none, from `attr_b`.
fn cascade_styles_from_presentational_hints_body_margin(attributes: &AttributeList, attr_a: &str, attr_b: &str) -> (r:
    CssLength)
    ensures
        r == body_margin(attributes.items@, attr_a@, attr_b@),
{
    let pixels = match attributes.find_by_str(attr_a) {
        Some(v) => parse_pixel_length(v),
        None => match attributes.find_by_str(attr_b) {
            Some(v) => parse_pixel_length(v),
            None => None,
        },
    };
    match pixels {
        Some(p) => CssLength::Pixels(CssNumber { bits: f32_bits_of_u32(p) }),
        None => CssLength::Pixels(CssNumber { bits: 0x4100_0000 }),
    }
}

fn cascade_styles_from_presentational_hints(property_map: &mut PropertyMap, element: &Element)
    ensures
        *final(property_map) == presentational_hints(*old(property_map), *element),
{
    if crate::dom::str_eq(element.local_name(), "body") {
        cascade_styles_from_presentational_hints_body(property_map, element.attributes());
    }
}

/// Cascading the applicable rules of a node into its property map.
pub trait Cascade {
    spec fn rules(&self) -> Seq<ApplicableRule>;

    /// The property map of `node`, whose parent has the property map
    /// `parent`.
    fn cascade(&self, node: Option<&NodeKind>, parent: Option<&PropertyMap>) -> (r: PropertyMap)
        ensures
            r == cascaded(
                self.rules(),
                match node { Some(n) => Some(*n), None => None },
                match parent { Some(p) => Some(*p), None => None },
            ),
    ;
}

/// Applies the declarations of the `style` attribute of a node.
fn cascade_styles_from_attribute(property_map: &mut PropertyMap, node: &NodeKind)
    ensures
        *final(property_map) == apply_declaration_views(*old(property_map), style_attribute_declarations(Some(*node))),
{
    let element = match node.as_dom_element() {
        Some(e) => e,
        None => {
            proof {
                assert(style_attribute_declarations(Some(*node)) =~= Seq::<(Property, ValueView)>::empty());
            }
            return;
        },
    };
    let text = match element.attributes().find_by_str("style") {
        Some(t) => t,
        None => {
            proof {
                assert(style_attribute_declarations(Some(*node)) =~= Seq::<(Property, ValueView)>::empty());
            }
            return;
        },
    };
    if let Ok(Rule::Style(style_rule)) = parse_style_attribute(text) {
        proof {
            apply_declarations_by_views(*property_map, style_rule.declarations@);
        }
        apply_declaration_list(property_map, style_rule.declarations.as_slice());
    }
}

impl<'a> Cascade for CollectedStyles<'a> {
    open spec fn rules(&self) -> Seq<ApplicableRule> {
        self.applicable_rules@
    }

    fn cascade(&self, node: Option<&NodeKind>, parent: Option<&PropertyMap>) -> (r: PropertyMap) {
        let mut property_map = PropertyMap::new();
        if let Some(parent) = parent {
            inherit_properties(&mut property_map, parent);
        }

        // Declarations from origins earlier in this list win over
        // declarations from later origins.
        // 8. Normal user-agent declarations
        cascade_normal_declarations_for_origin(&mut property_map, self.applicable_rules(), CascadeOrigin::UserAgent);

        // 7. Normal user declarations
        cascade_normal_declarations_for_origin(&mut property_map, self.applicable_rules(), CascadeOrigin::User);

        // 6. Normal author declarations
        if let Some(node) = node {
            if let Some(element) = node.as_dom_element() {
                cascade_styles_from_presentational_hints(&mut property_map, element);
            }
        }
        cascade_normal_declarations_for_origin(&mut property_map, self.applicable_rules(), CascadeOrigin::Author);
        match node {
            Some(node) => cascade_styles_from_attribute(&mut property_map, node),
            None => {
                proof {
                    assert(style_attribute_declarations(None) =~= Seq::<(Property, ValueView)>::empty());
                }
            },
        }
        property_map
    }
}

} // verus!
