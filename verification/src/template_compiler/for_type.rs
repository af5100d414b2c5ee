//! Compiling a node tree for one item type: type conditions take the
//! branch for that type.

use vstd::prelude::*;
use crate::legacy::{ConditionBlock, CslnNode, ElseIfBranch, ItemType};
use crate::passes::common::{first_index, lemma_first_index};
use crate::template::{
    empty_rendering, NumberVariable, Rendering, SimpleVariable, TemplateComponent, TemplateVariable, TitleType,
};
use crate::template_compiler::copy::copy_component;
use crate::template_compiler::nodes::node_component;
use crate::template_compiler::{same_variable, TemplateCompiler};
use crate::template_view::{lemma_tcs_view, lemma_tcs_view_add, no_rendering, tc_view, tcs_view, RenderingV, TCV};

verus! {

/// Whether a condition tests item types in one of its branches.
pub open spec fn has_type_condition(c: ConditionBlock) -> bool {
    c.if_item_type@.len() > 0 || exists|k: int|
        0 <= k < c.else_if_branches@.len() && (#[trigger] c.else_if_branches@[k]).if_item_type@.len() > 0
}

/// The first else-if branch that tests `t`, or -1.
pub open spec fn branch_for_type(bs: Seq<ElseIfBranch>, k: int, t: ItemType) -> int
    decreases bs.len() - k,
{
    if k < 0 || k >= bs.len() {
        -1
    } else if bs[k].if_item_type@.contains(t) {
        k
    } else {
        branch_for_type(bs, k + 1, t)
    }
}

pub proof fn lemma_branch_for_type(bs: Seq<ElseIfBranch>, k: int, t: ItemType)
    ensures
        branch_for_type(bs, k, t) == -1 || (0 <= k <= branch_for_type(bs, k, t) < bs.len()
            && bs[branch_for_type(bs, k, t)].if_item_type@.contains(t)),
    decreases bs.len() - k,
{
    if 0 <= k < bs.len() && !bs[k].if_item_type@.contains(t) {
        lemma_branch_for_type(bs, k + 1, t);
    }
}

/// `acc` with each of `es` added that renders no variable already there.
pub open spec fn add_missing(acc: Seq<TCV>, es: Seq<TCV>) -> Seq<TCV>
    decreases es.len(),
{
    if es.len() == 0 {
        acc
    } else {
        let a = add_missing(acc, es.drop_last());
        if exists|j: int| 0 <= j < a.len() && same_variable(#[trigger] a[j], es.last()) {
            a
        } else {
            a.push(es.last())
        }
    }
}

/// The components of the first `k` nodes compiled for the type `t`: a
/// node that compiles on its own gives its component, a group its
/// children's; a condition that tests types takes the branch for `t`
/// (the then-branch, else the first else-if branch for it, else the
/// else-branch); another condition takes its then-branch, then those
/// components of its else-branch that render no variable already there.
#[verifier::opaque]
pub open spec fn for_type_prefix(nodes: Seq<CslnNode>, k: int, t: ItemType) -> Seq<TCV>
    decreases nodes, k,
{
    if k <= 0 || k > nodes.len() {
        Seq::empty()
    } else {
        let acc = for_type_prefix(nodes, k - 1, t);
        let n = nodes[k - 1];
        if node_component(n) is Some {
            acc.push(node_component(n)->Some_0)
        } else if n is Group {
            proof {
                assert(decreases_to!(nodes => nodes[k - 1]));
                assert(decreases_to!(nodes[k - 1] => n->Group_0));
                assert(decreases_to!(n->Group_0 => n->Group_0.children));
                assert(decreases_to!(n->Group_0.children => n->Group_0.children@));
            }
            acc + for_type_prefix(n->Group_0.children@, n->Group_0.children@.len() as int, t)
        } else if n is Condition {
            proof {
                assert(decreases_to!(nodes => nodes[k - 1]));
            }
            condition_for_type(acc, n->Condition_0, t)
        } else {
            acc
        }
    }
}

/// What a condition adds to `acc` (see `for_type_prefix`).
pub open spec fn condition_for_type(acc: Seq<TCV>, c: ConditionBlock, t: ItemType) -> Seq<TCV>
    decreases c, 0int,
{
    proof {
        assert(decreases_to!(c => c.then_branch));
        assert(decreases_to!(c.then_branch => c.then_branch@));
    }
    let then_part = for_type_prefix(c.then_branch@, c.then_branch@.len() as int, t);
    let else_part = match c.else_branch {
        Some(e) => {
            proof {
                assert(decreases_to!(c => c.else_branch));
                assert(decreases_to!(c.else_branch => e));
                assert(decreases_to!(e => e@));
            }
            Some(for_type_prefix(e@, e@.len() as int, t))
        },
        None => None,
    };
    if has_type_condition(c) {
        if c.if_item_type@.contains(t) {
            acc + then_part
        } else {
            let bs = c.else_if_branches@;
            let k = branch_for_type(bs, 0, t);
            if k >= 0 {
                proof {
                    lemma_branch_for_type(bs, 0, t);
                    assert(decreases_to!(c => c.else_if_branches));
                    assert(decreases_to!(c.else_if_branches => c.else_if_branches@));
                    assert(decreases_to!(c.else_if_branches@ => bs[k]));
                    assert(decreases_to!(bs[k] => bs[k].children));
                    assert(decreases_to!(bs[k].children => bs[k].children@));
                }
                acc + for_type_prefix(bs[k].children@, bs[k].children@.len() as int, t)
            } else {
                match else_part {
                    Some(x) => acc + x,
                    None => acc,
                }
            }
        }
    } else {
        match else_part {
            Some(x) => add_missing(acc + then_part, x),
            None => acc + then_part,
        }
    }
}

proof fn lemma_for_type_step(nodes: Seq<CslnNode>, k: int, t: ItemType)
    requires
        0 < k <= nodes.len(),
    ensures
        for_type_prefix(nodes, k, t) == ({
            let acc = for_type_prefix(nodes, k - 1, t);
            let n = nodes[k - 1];
            if node_component(n) is Some {
                acc.push(node_component(n)->Some_0)
            } else if n is Group {
                acc + for_type_prefix(n->Group_0.children@, n->Group_0.children@.len() as int, t)
            } else if n is Condition {
                condition_for_type(acc, n->Condition_0, t)
            } else {
                acc
            }
        }),
{
    reveal(for_type_prefix);
}

proof fn lemma_for_type_empty(nodes: Seq<CslnNode>, t: ItemType)
    ensures
        for_type_prefix(nodes, 0, t) == Seq::<TCV>::empty(),
{
    reveal(for_type_prefix);
}

proof fn lemma_condition_for_type(acc: Seq<TCV>, c: ConditionBlock, t: ItemType)
    ensures
        condition_for_type(acc, c, t) == ({
            let then_part = for_type_prefix(c.then_branch@, c.then_branch@.len() as int, t);
            let else_part = match c.else_branch {
                Some(e) => Some(for_type_prefix(e@, e@.len() as int, t)),
                None => None,
            };
            if has_type_condition(c) {
                if c.if_item_type@.contains(t) {
                    acc + then_part
                } else {
                    let bs = c.else_if_branches@;
                    let k = branch_for_type(bs, 0, t);
                    if k >= 0 {
                        acc + for_type_prefix(bs[k].children@, bs[k].children@.len() as int, t)
                    } else {
                        match else_part {
                            Some(x) => acc + x,
                            None => acc,
                        }
                    }
                }
            } else {
                match else_part {
                    Some(x) => add_missing(acc + then_part, x),
                    None => acc + then_part,
                }
            }
        }),
{
    reveal(for_type_prefix);
}

fn contains_type(types: &Vec<ItemType>, t: ItemType) -> (r: bool)
    ensures
        r == types@.contains(t),
{
    let mut i: usize = 0;
    while i < types.len()
        invariant
            i <= types@.len(),
            forall|j: int| 0 <= j < i ==> types@[j] != t,
        decreases types@.len() - i,
    {
        if types[i] == t {
            proof {
                assert(types@[i as int] == t);
            }
            return true;
        }
        i = i + 1;
    }
    false
}

impl TemplateCompiler {
    fn type_condition(&self, c: &ConditionBlock) -> (r: bool)
        ensures
            r == has_type_condition(*c),
    {
        if c.if_item_type.len() > 0 {
            return true;
        }
        let mut k: usize = 0;
        while k < c.else_if_branches.len()
            invariant
                k <= c.else_if_branches@.len(),
                c.if_item_type@.len() == 0,
                forall|j: int| 0 <= j < k ==> (#[trigger] c.else_if_branches@[j]).if_item_type@.len() == 0,
            decreases c.else_if_branches@.len() - k,
        {
            if c.else_if_branches[k].if_item_type.len() > 0 {
                proof {
                    assert(c.else_if_branches@[k as int].if_item_type@.len() > 0);
                }
                return true;
            }
            k = k + 1;
        }
        false
    }

    /// Appends to `acc` each of `es` that renders no variable already
    /// there (`add_missing`).
    fn add_missing_components(&self, acc: &mut Vec<TemplateComponent>, es: Vec<TemplateComponent>)
        ensures
            tcs_view(final(acc)@) == add_missing(tcs_view(old(acc)@), tcs_view(es@)),
    {
        let ghost start = tcs_view(acc@);
        let ghost ev = tcs_view(es@);
        proof {
            lemma_tcs_view(es@);
            assert(ev.subrange(0, 0) =~= Seq::<TCV>::empty());
        }
        let mut i: usize = 0;
        while i < es.len()
            invariant
                i <= es@.len(),
                ev == tcs_view(es@),
                ev.len() == es@.len(),
                forall|k: int| 0 <= k < es@.len() ==> #[trigger] ev[k] == tc_view(es@[k]),
                tcs_view(acc@) == add_missing(start, ev.subrange(0, i as int)),
            decreases es@.len() - i,
        {
            let ghost a = tcs_view(acc@);
            proof {
                lemma_tcs_view(acc@);
                let u = ev.subrange(0, i + 1);
                assert(u.drop_last() =~= ev.subrange(0, i as int));
                assert(u.last() == ev[i as int]);
            }
            let mut found = false;
            let mut j: usize = 0;
            while j < acc.len()
                invariant
                    j <= acc@.len(),
                    a == tcs_view(acc@),
                    a.len() == acc@.len(),
                    forall|k: int| 0 <= k < acc@.len() ==> #[trigger] a[k] == tc_view(acc@[k]),
                    i < es@.len(),
                    ev[i as int] == tc_view(es@[i as int]),
                    found == exists|k: int| 0 <= k < j && same_variable(#[trigger] a[k], ev[i as int]),
                decreases acc@.len() - j,
            {
                let s = self.same_variable(&acc[j], &es[i]);
                proof {
                    assert(s == same_variable(a[j as int], ev[i as int]));
                }
                found = found || s;
                j = j + 1;
            }
            if !found {
                let ghost before = acc@;
                acc.push(copy_component(&es[i]));
                proof {
                    assert(acc@.drop_last() =~= before);
                    lemma_tcs_view(acc@);
                    assert(tcs_view(acc@) =~= a.push(ev[i as int]));
                }
            }
            i = i + 1;
        }
        proof {
            assert(ev.subrange(0, es@.len() as int) =~= ev);
        }
    }

    fn append_components(&self, acc: &mut Vec<TemplateComponent>, part: Vec<TemplateComponent>)
        ensures
            tcs_view(final(acc)@) == tcs_view(old(acc)@) + tcs_view(part@),
    {
        let ghost a = acc@;
        let ghost p = part@;
        let mut part = part;
        acc.append(&mut part);
        proof {
            lemma_tcs_view_add(a, p);
        }
    }

    /// Compiles nodes for the item type `target_type` (`for_type_prefix`).
    pub fn compile_for_type(&self, nodes: &[CslnNode], target_type: &ItemType) -> (r: Vec<TemplateComponent>)
        ensures
            tcs_view(r@) == for_type_prefix(nodes@, nodes@.len() as int, *target_type),
        decreases nodes@, 1nat,
    {
        let mut components: Vec<TemplateComponent> = Vec::new();
        let mut i: usize = 0;
        proof {
            lemma_for_type_empty(nodes@, *target_type);
            lemma_tcs_view(components@);
        }
        while i < nodes.len()
            invariant
                i <= nodes@.len(),
                tcs_view(components@) == for_type_prefix(nodes@, i as int, *target_type),
            decreases nodes@.len() - i,
        {
            proof {
                lemma_for_type_step(nodes@, i + 1, *target_type);
            }
            let node = &nodes[i];
            match self.compile_node(node) {
                Some(c) => {
                    let ghost before = components@;
                    components.push(c);
                    proof {
                        assert(components@.drop_last() =~= before);
                        lemma_tcs_view_add(before, seq![c]);
                        assert(components@ =~= before + seq![c]);
                        lemma_tcs_view(seq![c]);
                        assert(tcs_view(seq![c]) =~= seq![tc_view(c)]);
                        assert(tcs_view(components@) =~= tcs_view(before).push(tc_view(c)));
                    }
                },
                None => match node {
                    CslnNode::Group(g) => {
                        proof {
                            assert(decreases_to!(nodes@ => nodes@[i as int]));
                            assert(decreases_to!(nodes@[i as int] => *g));
                            assert(decreases_to!(*g => g.children));
                            assert(decreases_to!(g.children => g.children@));
                        }
                        let part = self.compile_for_type(g.children.as_slice(), target_type);
                        self.append_components(&mut components, part);
                    },
                    CslnNode::Condition(c) => {
                        proof {
                            assert(decreases_to!(nodes@ => nodes@[i as int]));
                            assert(decreases_to!(nodes@[i as int] => *c));
                        }
                        self.condition_for_type_exec(&mut components, c, target_type);
                    },
                    _ => {},
                },
            }
            i = i + 1;
        }
        components
    }

    fn condition_for_type_exec(&self, acc: &mut Vec<TemplateComponent>, c: &ConditionBlock, target_type: &ItemType)
        ensures
            tcs_view(final(acc)@) == condition_for_type(tcs_view(old(acc)@), *c, *target_type),
        decreases c, 2nat,
    {
        let t = *target_type;
        proof {
            lemma_condition_for_type(tcs_view(acc@), *c, t);
            assert(decreases_to!(c => c.then_branch));
            assert(decreases_to!(c.then_branch => c.then_branch@));
        }
        let ghost bs = c.else_if_branches@;
        if self.type_condition(c) {
            if contains_type(&c.if_item_type, t) {
                let part = self.compile_for_type(c.then_branch.as_slice(), target_type);
                self.append_components(acc, part);
                return;
            }
            let mut k: usize = 0;
            proof {
                lemma_branch_for_type(bs, 0, t);
            }
            let ghost start = tcs_view(acc@);
            while k < c.else_if_branches.len()
                invariant
                    k <= bs.len(),
                    bs == c.else_if_branches@,
                    t == *target_type,
                    start == tcs_view(acc@),
                    acc@ == old(acc)@,
                    branch_for_type(bs, 0, t) == branch_for_type(bs, k as int, t),
                    branch_for_type(bs, 0, t) == -1 || 0 <= branch_for_type(bs, 0, t) < bs.len(),
                    branch_for_type(bs, 0, t) >= 0 ==> condition_for_type(start, *c, t) == start + for_type_prefix(
                        bs[branch_for_type(bs, 0, t)].children@,
                        bs[branch_for_type(bs, 0, t)].children@.len() as int,
                        t,
                    ),
                decreases bs.len() - k,
            {
                let b = &c.else_if_branches[k];
                if contains_type(&b.if_item_type, t) {
                    proof {
                        assert(bs[k as int] == *b);
                        assert(branch_for_type(bs, k as int, t) == k as int);
                        assert(decreases_to!(c => c.else_if_branches));
                        assert(decreases_to!(c.else_if_branches => c.else_if_branches@));
                        assert(decreases_to!(c.else_if_branches@ => c.else_if_branches@[k as int]));
                        assert(decreases_to!(c.else_if_branches@[k as int] => c.else_if_branches@[k as int].children));
                        assert(decreases_to!(c.else_if_branches@[k as int].children => c.else_if_branches@[k as int].children@));
                    }
                    let part = self.compile_for_type(b.children.as_slice(), target_type);
                    self.append_components(acc, part);
                    return;
                }
                k = k + 1;
            }
            match &c.else_branch {
                Some(e) => {
                    proof {
                        assert(decreases_to!(c => c.else_branch));
                        assert(decreases_to!(c.else_branch => c.else_branch->Some_0));
                        assert(decreases_to!(c.else_branch->Some_0 => c.else_branch->Some_0@));
                    }
                    let part = self.compile_for_type(e.as_slice(), target_type);
                    self.append_components(acc, part);
                },
                None => {},
            }
        } else {
            let part = self.compile_for_type(c.then_branch.as_slice(), target_type);
            self.append_components(acc, part);
            match &c.else_branch {
                Some(e) => {
                    proof {
                        assert(decreases_to!(c => c.else_branch));
                        assert(decreases_to!(c.else_branch => c.else_branch->Some_0));
                        assert(decreases_to!(c.else_branch->Some_0 => c.else_branch->Some_0@));
                    }
                    let else_part = self.compile_for_type(e.as_slice(), target_type);
                    self.add_missing_components(acc, else_part);
                },
                None => {},
            }
        }
    }
}

/// A legal-case component: volume, pages and issue are hidden.
pub open spec fn legal_suppressed(c: TCV) -> TCV {
    match c {
        TCV::Number(n, r, o) => if n.number == NumberVariable::Volume || n.number == NumberVariable::Pages
            || n.number == NumberVariable::Issue {
            TCV::Number(n, RenderingV { suppress: Some(true), ..r }, o)
        } else {
            c
        },
        _ => c,
    }
}

/// The authority variable with nothing else set.
pub open spec fn authority_component() -> TCV {
    TCV::Variable(
        TemplateVariable {
            variable: SimpleVariable::Authority,
            show_label: None,
            strip_label_periods: None,
            rendering: empty_rendering(),
            links: None,
            overrides: None,
        },
        no_rendering(),
        None,
    )
}

/// Whether a component is the authority variable.
pub open spec fn is_authority(c: TCV) -> bool {
    c matches TCV::Variable(v, _, _) && v.variable == SimpleVariable::Authority
}

/// Whether a component is the primary title.
pub open spec fn is_primary_title(c: TCV) -> bool {
    c matches TCV::Title(x, _, _) && x.title == TitleType::Primary
}

/// A legal-case template: volume, pages and issue hidden, and the authority
/// put after the primary title (at the end without one) where it is
/// missing.
pub open spec fn legal_case_template(s: Seq<TCV>) -> Seq<TCV> {
    let t = s.map_values(|c: TCV| legal_suppressed(c));
    if exists|i: int| 0 <= i < t.len() && is_authority(#[trigger] t[i]) {
        t
    } else {
        let p = first_index(t, |c: TCV| is_primary_title(c));
        t.insert(if p >= 0 { p + 1 } else { t.len() as int }, authority_component())
    }
}

impl TemplateCompiler {
    /// Completes a legal-case template (`legal_case_template`).
    pub fn postprocess_legal_case_template(&self, template: &mut Vec<TemplateComponent>)
        ensures
            tcs_view(final(template)@) == legal_case_template(tcs_view(old(template)@)),
    {
        let ghost s = tcs_view(template@);
        let ghost t = s.map_values(|c: TCV| legal_suppressed(c));
        proof {
            lemma_tcs_view(template@);
        }
        let mut rest: Vec<TemplateComponent> = Vec::new();
        std::mem::swap(template, &mut rest);
        let ghost all = rest@;
        let mut out: Vec<TemplateComponent> = Vec::new();
        proof {
            assert(all.subrange(0, all.len() as int) =~= all);
        }
        while rest.len() > 0
            invariant
                out@.len() + rest@.len() == all.len(),
                rest@ == all.subrange(out@.len() as int, all.len() as int),
                s == tcs_view(all),
                s.len() == all.len(),
                forall|k: int| 0 <= k < all.len() ==> #[trigger] s[k] == tc_view(all[k]),
                t == s.map_values(|c: TCV| legal_suppressed(c)),
                forall|k: int| 0 <= k < out@.len() ==> #[trigger] tc_view(out@[k]) == t[k],
            decreases rest@.len(),
        {
            let ghost k: int = out@.len() as int;
            let c = rest.remove(0);
            proof {
                assert(c == all[k]);
                assert(rest@ =~= all.subrange(k + 1, all.len() as int));
            }
            let c = match c {
                TemplateComponent::Number(n) => {
                    let mut n = n;
                    if n.number == NumberVariable::Volume || n.number == NumberVariable::Pages || n.number
                        == NumberVariable::Issue {
                        n.rendering.suppress = Some(true);
                    }
                    TemplateComponent::Number(n)
                },
                other => other,
            };
            out.push(c);
        }
        proof {
            lemma_tcs_view(out@);
            assert(tcs_view(out@) =~= t);
        }
        let mut has_authority = false;
        let mut i: usize = 0;
        while i < out.len()
            invariant
                i <= out@.len(),
                tcs_view(out@) == t,
                t.len() == out@.len(),
                forall|k: int| 0 <= k < out@.len() ==> #[trigger] t[k] == tc_view(out@[k]),
                has_authority == exists|k: int| 0 <= k < i && is_authority(#[trigger] t[k]),
            decreases out@.len() - i,
        {
            let a = match &out[i] {
                TemplateComponent::Variable(v) => v.variable == SimpleVariable::Authority,
                _ => false,
            };
            proof {
                assert(a == is_authority(t[i as int]));
            }
            has_authority = has_authority || a;
            i = i + 1;
        }
        if !has_authority {
            let ghost p = first_index(t, |c: TCV| is_primary_title(c));
            proof {
                lemma_first_index(t, |c: TCV| is_primary_title(c));
            }
            let mut pos: usize = out.len();
            let mut j: usize = 0;
            while j < out.len()
                invariant_except_break
                    pos == out@.len(),
                invariant
                    j <= out@.len(),
                    tcs_view(out@) == t,
                    t.len() == out@.len(),
                    forall|k: int| 0 <= k < out@.len() ==> #[trigger] t[k] == tc_view(out@[k]),
                    p == first_index(t, |c: TCV| is_primary_title(c)),
                    forall|k: int| 0 <= k < j ==> !is_primary_title(#[trigger] t[k]),
                    -1 <= p < t.len(),
                    p >= 0 ==> is_primary_title(t[p]) && forall|k: int| 0 <= k < p ==> !is_primary_title(#[trigger] t[k]),
                    p == -1 ==> forall|k: int| 0 <= k < t.len() ==> !is_primary_title(#[trigger] t[k]),
                ensures
                    p >= 0 ==> pos == p + 1,
                    p < 0 ==> pos == out@.len(),
                decreases out@.len() - j,
            {
                let hit = match &out[j] {
                    TemplateComponent::Title(x) => x.title == TitleType::Primary,
                    _ => false,
                };
                proof {
                    assert(hit == is_primary_title(t[j as int]));
                }
                if hit {
                    pos = j + 1;
                    break;
                }
                j = j + 1;
            }
            let ghost before = out@;
            out.insert(
                pos,
                TemplateComponent::Variable(
                    TemplateVariable {
                        variable: SimpleVariable::Authority,
                        show_label: None,
                        strip_label_periods: None,
                        rendering: Rendering::default(),
                        links: None,
                        overrides: None,
                    },
                ),
            );
            proof {
                lemma_tcs_view(out@);
                assert(tcs_view(out@) =~= t.insert(pos as int, authority_component()));
            }
        }
        *template = out;
    }
}

} // verus!
