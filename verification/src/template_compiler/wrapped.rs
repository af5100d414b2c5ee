//! The older compilation path over a node tree: each component is merged
//! into the template as soon as it is compiled (`upgraded`), with the
//! item types of the branches it was found in.

use vstd::prelude::*;
use crate::legacy::{ConditionBlock, CslnNode, ElseIfBranch, GroupBlock, ItemType};
use crate::template::{TemplateComponent, TemplateList};
use crate::template_compiler::bibliography::push_types;
use crate::template_compiler::collect::{
    date_wrapped, effective_wrap, is_structural_delimiter, own_wrap, prefixed, structural_delimiter, text_merges,
    wrap_view, WrapTriple, WrapV,
};
use crate::template_compiler::copy::copy_component;
use crate::template_compiler::nodes::{converted_rendering, node_component};
use crate::template_compiler::upgrade::{upgraded, upgraded_all};
use crate::template_compiler::TemplateCompiler;
use crate::template_view::{lemma_tcs_view, tc_view, tcs_view, ListV, TCV};
use crate::vecs::copy_vec;

verus! {

/// The template `acc` after the nodes of `nodes` from position `i` on,
/// under the wrap `w`, found for `types`:
/// - a text node followed by a node that compiles on its own puts its text
///   in front of that component's prefix, and both nodes are consumed;
/// - a node that compiles on its own is merged in (`upgraded`);
/// - a group's children are compiled on their own; two or three of them
///   under a structural delimiter and no wrap of the group's own are
///   merged in as one list, otherwise one by one;
/// - a condition's then-branch and else-if branches are compiled for
///   `types` and the types each tests, its else-branch for `types`, and
///   their components merged in for those types, in order;
/// - dates take an inherited wrap.
#[verifier::opaque]
pub open spec fn wrapped(nodes: Seq<CslnNode>, i: int, w: WrapV, types: Seq<ItemType>, acc: Seq<TCV>) -> Seq<TCV>
    decreases nodes, nodes.len() - i,
{
    if i < 0 || i >= nodes.len() {
        acc
    } else {
        let n = nodes[i];
        if n is Text && i + 1 < nodes.len() && node_component(nodes[i + 1]) is Some {
            wrapped(
                nodes,
                i + 2,
                w,
                types,
                upgraded(acc, date_wrapped(prefixed(node_component(nodes[i + 1])->Some_0, n->Text_value@), w), types),
            )
        } else if node_component(n) is Some {
            wrapped(nodes, i + 1, w, types, upgraded(acc, date_wrapped(node_component(n)->Some_0, w), types))
        } else if n is Group {
            proof {
                assert(decreases_to!(nodes => nodes[i]));
            }
            wrapped(nodes, i + 1, w, types, group_upgraded(n->Group_0, w, types, acc))
        } else if n is Condition {
            proof {
                assert(decreases_to!(nodes => nodes[i]));
            }
            wrapped(nodes, i + 1, w, types, condition_upgraded(n->Condition_0, w, types, acc))
        } else {
            wrapped(nodes, i + 1, w, types, acc)
        }
    }
}

/// What the node at `i` does to `acc` (see `wrapped`).
pub open spec fn wrap_step(nodes: Seq<CslnNode>, i: int, w: WrapV, types: Seq<ItemType>, acc: Seq<TCV>) -> Seq<TCV> {
    let n = nodes[i];
    if text_merges(nodes, i) {
        upgraded(acc, date_wrapped(prefixed(node_component(nodes[i + 1])->Some_0, n->Text_value@), w), types)
    } else if node_component(n) is Some {
        upgraded(acc, date_wrapped(node_component(n)->Some_0, w), types)
    } else if n is Group {
        group_upgraded(n->Group_0, w, types, acc)
    } else if n is Condition {
        condition_upgraded(n->Condition_0, w, types, acc)
    } else {
        acc
    }
}

/// The components a group gives on its own (see `wrapped`).
pub open spec fn group_components(g: GroupBlock, w: WrapV, types: Seq<ItemType>) -> Seq<TCV>
    decreases g, 0int,
{
    proof {
        assert(decreases_to!(g => g.children));
        assert(decreases_to!(g.children => g.children@));
    }
    wrapped(g.children@, 0, effective_wrap(g, w), types, Seq::empty())
}

/// What a group gives, from its own components `gc`: one list of them when
/// there are two or three, the delimiter is structural and the group has
/// no wrap of its own; `gc` otherwise.
pub open spec fn group_parts(g: GroupBlock, gc: Seq<TCV>) -> Seq<TCV> {
    if is_structural_delimiter(g.delimiter) && 2 <= gc.len() <= 3 && own_wrap(g).0 is None {
        seq![
            TCV::List(
                ListV {
                    items: gc,
                    delimiter: Some(structural_delimiter(g.delimiter->Some_0@)),
                    rendering: converted_rendering(g.formatting),
                    overrides: None,
                },
            ),
        ]
    } else {
        gc
    }
}

/// `acc` after a group (see `wrapped`).
pub open spec fn group_upgraded(g: GroupBlock, w: WrapV, types: Seq<ItemType>, acc: Seq<TCV>) -> Seq<TCV>
    decreases g, 1int,
{
    upgraded_all(acc, group_parts(g, group_components(g, w, types)), types)
}

/// `acc` after a condition (see `wrapped`).
pub open spec fn condition_upgraded(c: ConditionBlock, w: WrapV, types: Seq<ItemType>, acc: Seq<TCV>) -> Seq<TCV>
    decreases c, 0int,
{
    proof {
        assert(decreases_to!(c => c.then_branch));
        assert(decreases_to!(c.then_branch => c.then_branch@));
        assert(decreases_to!(c => c.else_if_branches));
        assert(decreases_to!(c.else_if_branches => c.else_if_branches@));
    }
    let then_types = types + c.if_item_type@;
    let a1 = upgraded_all(acc, wrapped(c.then_branch@, 0, w, then_types, Seq::empty()), then_types);
    let a2 = branches_upgraded(c.else_if_branches@, 0, w, types, a1);
    match c.else_branch {
        Some(e) => {
            proof {
                assert(decreases_to!(c => c.else_branch));
                assert(decreases_to!(c.else_branch => e));
                assert(decreases_to!(e => e@));
            }
            upgraded_all(a2, wrapped(e@, 0, w, types, Seq::empty()), types)
        },
        None => a2,
    }
}

/// `acc` after the else-if branches from position `k` on, each for
/// `types` and the types it tests.
pub open spec fn branches_upgraded(bs: Seq<ElseIfBranch>, k: int, w: WrapV, types: Seq<ItemType>, acc: Seq<TCV>) -> Seq<TCV>
    decreases bs, bs.len() - k,
{
    if k < 0 || k >= bs.len() {
        acc
    } else {
        proof {
            assert(decreases_to!(bs => bs[k]));
            assert(decreases_to!(bs[k] => bs[k].children));
            assert(decreases_to!(bs[k].children => bs[k].children@));
        }
        let bt = types + bs[k].if_item_type@;
        branches_upgraded(bs, k + 1, w, types, upgraded_all(acc, wrapped(bs[k].children@, 0, w, bt, Seq::empty()), bt))
    }
}

/// One step of `wrapped`.
pub proof fn lemma_wrapped_step(nodes: Seq<CslnNode>, i: int, w: WrapV, types: Seq<ItemType>, acc: Seq<TCV>)
    requires
        0 <= i < nodes.len(),
    ensures
        wrapped(nodes, i, w, types, acc) == wrapped(
            nodes,
            if text_merges(nodes, i) {
                i + 2
            } else {
                i + 1
            },
            w,
            types,
            wrap_step(nodes, i, w, types, acc),
        ),
{
    reveal(wrapped);
}

/// Past the end, `wrapped` leaves `acc` as it is.
pub proof fn lemma_wrapped_end(nodes: Seq<CslnNode>, i: int, w: WrapV, types: Seq<ItemType>, acc: Seq<TCV>)
    requires
        i >= nodes.len(),
    ensures
        wrapped(nodes, i, w, types, acc) == acc,
{
    reveal(wrapped);
}

/// `group_upgraded` unfolded.
pub proof fn lemma_group_upgraded(g: GroupBlock, w: WrapV, types: Seq<ItemType>, acc: Seq<TCV>)
    ensures
        group_upgraded(g, w, types, acc) == upgraded_all(
            acc,
            group_parts(g, wrapped(g.children@, 0, effective_wrap(g, w), types, Seq::empty())),
            types,
        ),
{
    reveal(wrapped);
}

/// `condition_upgraded` unfolded.
pub proof fn lemma_condition_upgraded(c: ConditionBlock, w: WrapV, types: Seq<ItemType>, acc: Seq<TCV>)
    ensures
        condition_upgraded(c, w, types, acc) == {
            let then_types = types + c.if_item_type@;
            let a1 = upgraded_all(acc, wrapped(c.then_branch@, 0, w, then_types, Seq::empty()), then_types);
            let a2 = branches_upgraded(c.else_if_branches@, 0, w, types, a1);
            if c.else_branch is Some {
                upgraded_all(a2, wrapped(c.else_branch->Some_0@, 0, w, types, Seq::empty()), types)
            } else {
                a2
            }
        },
{
    reveal(wrapped);
}

/// One step of `branches_upgraded`.
pub proof fn lemma_branches_upgraded(bs: Seq<ElseIfBranch>, k: int, w: WrapV, types: Seq<ItemType>, acc: Seq<TCV>)
    ensures
        0 <= k < bs.len() ==> branches_upgraded(bs, k, w, types, acc) == branches_upgraded(
            bs,
            k + 1,
            w,
            types,
            upgraded_all(
                acc,
                wrapped(bs[k].children@, 0, w, types + bs[k].if_item_type@, Seq::empty()),
                types + bs[k].if_item_type@,
            ),
        ),
        k >= bs.len() ==> branches_upgraded(bs, k, w, types, acc) == acc,
{
    reveal(wrapped);
}

impl TemplateCompiler {
    /// Merges each of `more` into `components` in order, for
    /// `current_types` (`upgraded_all`).
    fn add_or_upgrade_all(
        &self,
        components: &mut Vec<TemplateComponent>,
        more: &Vec<TemplateComponent>,
        current_types: &Vec<ItemType>,
    )
        ensures
            tcs_view(final(components)@) == upgraded_all(tcs_view(old(components)@), tcs_view(more@), current_types@),
    {
        let ghost m = tcs_view(more@);
        proof {
            lemma_tcs_view(more@);
            assert(m.subrange(0, 0) =~= Seq::<TCV>::empty());
        }
        let mut k: usize = 0;
        while k < more.len()
            invariant
                k <= more@.len(),
                m == tcs_view(more@),
                m.len() == more@.len(),
                forall|j: int| 0 <= j < more@.len() ==> #[trigger] m[j] == tc_view(more@[j]),
                tcs_view(components@) == upgraded_all(tcs_view(old(components)@), m.subrange(0, k as int), current_types@),
            decreases more@.len() - k,
        {
            proof {
                let u = m.subrange(0, k + 1);
                assert(u.drop_last() =~= m.subrange(0, k as int));
                assert(u.last() == m[k as int]);
            }
            let c = copy_component(&more[k]);
            self.add_or_upgrade_component(components, c, current_types);
            k = k + 1;
        }
        proof {
            assert(m.subrange(0, more@.len() as int) =~= m);
        }
    }

    /// Compiles `nodes` the older way, merging each component into the
    /// template as it is compiled (`wrapped`).
    pub fn compile_with_wrap(
        &self,
        nodes: &[CslnNode],
        inherited_wrap: &WrapTriple,
        current_types: &Vec<ItemType>,
    ) -> (r: Vec<TemplateComponent>)
        ensures
            tcs_view(r@) == wrapped(nodes@, 0, wrap_view(*inherited_wrap), current_types@, Seq::empty()),
        decreases nodes@, 1nat,
    {
        let ghost w = wrap_view(*inherited_wrap);
        let ghost target = wrapped(nodes@, 0, w, current_types@, Seq::empty());
        let mut components: Vec<TemplateComponent> = Vec::new();
        proof {
            assert(tcs_view(components@) =~= Seq::<TCV>::empty());
        }
        let mut i: usize = 0;
        while i < nodes.len()
            invariant
                i <= nodes@.len(),
                w == wrap_view(*inherited_wrap),
                wrapped(nodes@, i as int, w, current_types@, tcs_view(components@)) == target,
            decreases nodes@.len() - i,
        {
            proof {
                lemma_wrapped_step(nodes@, i as int, w, current_types@, tcs_view(components@));
            }
            let next_i = self.wrap_node(nodes, i, inherited_wrap, current_types, &mut components);
            i = next_i;
        }
        proof {
            lemma_wrapped_end(nodes@, i as int, w, current_types@, tcs_view(components@));
        }
        components
    }

    /// Merges in what the node at `i` gives (`wrap_step`) and returns where
    /// to go on.
    fn wrap_node(
        &self,
        nodes: &[CslnNode],
        i: usize,
        inherited_wrap: &WrapTriple,
        current_types: &Vec<ItemType>,
        components: &mut Vec<TemplateComponent>,
    ) -> (r: usize)
        requires
            i < nodes@.len(),
        ensures
            r == (if text_merges(nodes@, i as int) {
                i + 2
            } else {
                i + 1
            }),
            tcs_view(final(components)@) == wrap_step(
                nodes@,
                i as int,
                wrap_view(*inherited_wrap),
                current_types@,
                tcs_view(old(components)@),
            ),
        decreases nodes@, 0nat,
    {
        let node = &nodes[i];
        if i + 1 < nodes.len() {
            if let CslnNode::Text { value } = node {
                let next = self.compile_node(&nodes[i + 1]);
                if let Some(mut comp) = next {
                    self.put_text_in_front(&mut comp, value);
                    self.wrap_if_date(&mut comp, inherited_wrap);
                    self.add_or_upgrade_component(components, comp, current_types);
                    return i + 2;
                }
            }
        }
        match self.compile_node(node) {
            Some(mut comp) => {
                self.wrap_if_date(&mut comp, inherited_wrap);
                self.add_or_upgrade_component(components, comp, current_types);
            },
            None => {
                match node {
                    CslnNode::Group(g) => {
                        proof {
                            assert(decreases_to!(nodes@ => nodes@[i as int]));
                        }
                        self.wrap_group(g, inherited_wrap, current_types, components);
                    },
                    CslnNode::Condition(c) => {
                        proof {
                            assert(decreases_to!(nodes@ => nodes@[i as int]));
                        }
                        self.wrap_condition(c, inherited_wrap, current_types, components);
                    },
                    _ => {},
                }
            },
        }
        i + 1
    }

    /// Merges in a group (`group_upgraded`).
    fn wrap_group(
        &self,
        g: &GroupBlock,
        inherited_wrap: &WrapTriple,
        current_types: &Vec<ItemType>,
        components: &mut Vec<TemplateComponent>,
    )
        ensures
            tcs_view(final(components)@) == group_upgraded(
                *g,
                wrap_view(*inherited_wrap),
                current_types@,
                tcs_view(old(components)@),
            ),
        decreases g, 2nat,
    {
        let gw = Self::infer_wrap_from_affixes(&g.formatting.prefix, &g.formatting.suffix);
        let effective = if gw.0.is_some() {
            self.copy_wrap(&gw)
        } else {
            self.copy_wrap(inherited_wrap)
        };
        proof {
            assert(decreases_to!(g => g.children));
            assert(decreases_to!(g.children => g.children@));
            assert(wrap_view(effective) == effective_wrap(*g, wrap_view(*inherited_wrap)));
        }
        let group_components = self.compile_with_wrap(g.children.as_slice(), &effective, current_types);
        let ghost gc = tcs_view(group_components@);
        proof {
            lemma_group_upgraded(*g, wrap_view(*inherited_wrap), current_types@, tcs_view(components@));
            lemma_tcs_view(group_components@);
        }
        let should_be_list = self.is_structural(&g.delimiter) && group_components.len() >= 2
            && group_components.len() <= 3 && gw.0.is_none();
        if should_be_list && group_components.len() > 0 {
            let delimiter = match &g.delimiter {
                Some(d) => Some(self.structural_punctuation(d)),
                None => None,
            };
            let list = TemplateComponent::List(
                TemplateList {
                    items: group_components,
                    delimiter,
                    rendering: self.convert_formatting(&g.formatting),
                    overrides: None,
                },
            );
            let ghost lv = tc_view(list);
            proof {
                assert(group_parts(*g, gc) == seq![lv]);
                assert(upgraded_all(tcs_view(components@), seq![lv], current_types@) == upgraded(
                    upgraded_all(tcs_view(components@), Seq::<TCV>::empty(), current_types@),
                    lv,
                    current_types@,
                )) by {
                    assert(seq![lv].drop_last() =~= Seq::<TCV>::empty());
                }
            }
            self.add_or_upgrade_component(components, list, current_types);
        } else {
            proof {
                assert(group_parts(*g, gc) == gc);
            }
            self.add_or_upgrade_all(components, &group_components, current_types);
        }
    }

    /// `current_types` followed by `more`.
    fn types_with(&self, current_types: &Vec<ItemType>, more: &Vec<ItemType>) -> (r: Vec<ItemType>)
        ensures
            r@ == current_types@ + more@,
    {
        let mut r = copy_vec(current_types);
        push_types(&mut r, more);
        r
    }

    /// Merges in a condition (`condition_upgraded`).
    fn wrap_condition(
        &self,
        c: &ConditionBlock,
        inherited_wrap: &WrapTriple,
        current_types: &Vec<ItemType>,
        components: &mut Vec<TemplateComponent>,
    )
        ensures
            tcs_view(final(components)@) == condition_upgraded(
                *c,
                wrap_view(*inherited_wrap),
                current_types@,
                tcs_view(old(components)@),
            ),
        decreases c, 2nat,
    {
        let ghost w = wrap_view(*inherited_wrap);
        let ghost start = tcs_view(components@);
        let then_types = self.types_with(current_types, &c.if_item_type);
        proof {
            assert(decreases_to!(c => c.then_branch));
            assert(decreases_to!(c.then_branch => c.then_branch@));
        }
        let then_components = self.compile_with_wrap(c.then_branch.as_slice(), inherited_wrap, &then_types);
        self.add_or_upgrade_all(components, &then_components, &then_types);
        let ghost a1 = tcs_view(components@);
        let ghost bs = c.else_if_branches@;
        let mut k: usize = 0;
        while k < c.else_if_branches.len()
            invariant
                k <= bs.len(),
                bs == c.else_if_branches@,
                w == wrap_view(*inherited_wrap),
                branches_upgraded(bs, k as int, w, current_types@, tcs_view(components@)) == branches_upgraded(
                    bs,
                    0,
                    w,
                    current_types@,
                    a1,
                ),
            decreases bs.len() - k,
        {
            let b = &c.else_if_branches[k];
            let else_if_types = self.types_with(current_types, &b.if_item_type);
            proof {
                assert(decreases_to!(c => c.else_if_branches));
                assert(decreases_to!(c.else_if_branches => c.else_if_branches@));
                assert(decreases_to!(c.else_if_branches@ => c.else_if_branches@[k as int]));
                assert(decreases_to!(c.else_if_branches@[k as int] => c.else_if_branches@[k as int].children));
                assert(decreases_to!(c.else_if_branches@[k as int].children => c.else_if_branches@[k as int].children@));
                lemma_branches_upgraded(bs, k as int, w, current_types@, tcs_view(components@));
            }
            let branch_components = self.compile_with_wrap(b.children.as_slice(), inherited_wrap, &else_if_types);
            self.add_or_upgrade_all(components, &branch_components, &else_if_types);
            k = k + 1;
        }
        let ghost a2 = tcs_view(components@);
        proof {
            lemma_branches_upgraded(bs, k as int, w, current_types@, a2);
            assert(a2 == branches_upgraded(bs, 0, w, current_types@, a1));
            lemma_condition_upgraded(*c, w, current_types@, start);
        }
        match &c.else_branch {
            Some(e) => {
                proof {
                    assert(decreases_to!(c => c.else_branch));
                    assert(decreases_to!(c.else_branch => c.else_branch->Some_0));
                    assert(decreases_to!(c.else_branch->Some_0 => c.else_branch->Some_0@));
                }
                let else_components = self.compile_with_wrap(e.as_slice(), inherited_wrap, current_types);
                self.add_or_upgrade_all(components, &else_components, current_types);
            },
            None => {},
        }
    }
}

} // verus!
