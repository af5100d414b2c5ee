//! Compression of CSL node trees: a condition whose then- and else-branch
//! each render the same single variable becomes that variable with per-type
//! formatting overrides.

use vstd::prelude::*;
use crate::legacy::{
    branches_view, node_view, nodes_view, variable_view, ConditionBlock, ConditionV, CslnNode,
    ElseIfBranch, ElseIfV, FontStyle, FormattingOptions, GroupBlock, GroupBlockV, ItemType, NodeV,
    VariableBlock, VariableBlockV,
};

verus! {

/// Index of the first entry of `s` with key `k`, or -1.
pub open spec fn key_index<K, V>(s: Seq<(K, V)>, k: K) -> int
    decreases s.len(),
{
    if s.len() == 0 {
        -1
    } else {
        let j = key_index(s.drop_last(), k);
        if j >= 0 {
            j
        } else if s.last().0 == k {
            s.len() - 1
        } else {
            -1
        }
    }
}

/// `s` with the value of key `k` set to `v` (the first entry with that key
/// replaced, or a new entry at the end).
pub open spec fn assoc_insert<K, V>(s: Seq<(K, V)>, k: K, v: V) -> Seq<(K, V)> {
    let j = key_index(s, k);
    if j >= 0 {
        s.update(j, (k, v))
    } else {
        s.push((k, v))
    }
}

/// `s` with the value of every key of `keys` set to `v`, in order.
pub open spec fn assoc_insert_all<K, V>(s: Seq<(K, V)>, keys: Seq<K>, v: V) -> Seq<(K, V)>
    decreases keys.len(),
{
    if keys.len() == 0 {
        s
    } else {
        assoc_insert(assoc_insert_all(s, keys.drop_last(), v), keys.last(), v)
    }
}

pub proof fn lemma_key_index<K, V>(s: Seq<(K, V)>, k: K)
    ensures
        -1 <= key_index(s, k) < s.len(),
        key_index(s, k) >= 0 ==> s[key_index(s, k)].0 == k,
        key_index(s, k) >= 0 ==> forall|i: int| 0 <= i < key_index(s, k) ==> s[i].0 != k,
        key_index(s, k) == -1 ==> forall|i: int| 0 <= i < s.len() ==> s[i].0 != k,
    decreases s.len(),
{
    if s.len() > 0 {
        lemma_key_index(s.drop_last(), k);
        assert forall|i: int| 0 <= i < s.len() - 1 implies s.drop_last()[i] == s[i] by {}
    }
}

/// Sets the value of key `k` to `v` in an association list.
pub fn assoc_set<V>(s: &mut Vec<(ItemType, V)>, k: ItemType, v: V)
    ensures
        final(s)@ == assoc_insert(old(s)@, k, v),
{
    proof {
        lemma_key_index(s@, k);
    }
    let mut i: usize = 0;
    while i < s.len()
        invariant
            s@ == old(s)@,
            i <= s@.len(),
            forall|j: int| 0 <= j < i ==> s@[j].0 != k,
            -1 <= key_index(s@, k) < s@.len(),
            key_index(s@, k) >= 0 ==> s@[key_index(s@, k)].0 == k,
            key_index(s@, k) >= 0 ==> forall|j: int| 0 <= j < key_index(s@, k) ==> s@[j].0 != k,
            key_index(s@, k) == -1 ==> forall|j: int| 0 <= j < s@.len() ==> s@[j].0 != k,
        decreases s@.len() - i,
    {
        if s[i].0 == k {
            assert(key_index(s@, k) == i);
            s.set(i, (k, v));
            return;
        }
        i = i + 1;
    }
    s.push((k, v));
}

/// The override formatting for the then-branch: its own formatting, with
/// quotes switched off and the font style set to normal where the
/// else-branch sets them and it does not.
pub open spec fn override_formatting(then_fmt: FormattingOptions, else_fmt: FormattingOptions) -> FormattingOptions {
    FormattingOptions {
        quotes: if else_fmt.quotes == Some(true) && then_fmt.quotes is None {
            Some(false)
        } else {
            then_fmt.quotes
        },
        font_style: if else_fmt.font_style is Some && then_fmt.font_style is None {
            Some(FontStyle::Normal)
        } else {
            then_fmt.font_style
        },
        ..then_fmt
    }
}

/// The merge of a two-way condition on item types: when each branch is one
/// node, both render the same variable, the else-branch's variable with the
/// then-branch's formatting as an override for each tested type.
pub open spec fn merged_branches(
    if_types: Seq<ItemType>,
    then_nodes: Seq<NodeV>,
    else_nodes: Option<Seq<NodeV>>,
) -> Option<NodeV> {
    if then_nodes.len() != 1 || else_nodes is None || else_nodes.unwrap().len() != 1 {
        None
    } else {
        match (then_nodes[0], else_nodes.unwrap()[0]) {
            (NodeV::Variable(v1), NodeV::Variable(v2)) => if v1.variable == v2.variable {
                Some(
                    NodeV::Variable(
                        VariableBlockV {
                            overrides: assoc_insert_all(
                                v2.overrides,
                                if_types,
                                override_formatting(v1.formatting, v2.formatting),
                            ),
                            ..v2
                        },
                    ),
                )
            } else {
                None
            },
            _ => None,
        }
    }
}

/// A node with every condition below it compressed, children first.
pub open spec fn compressed_node(n: NodeV) -> NodeV
    decreases n, 2nat,
{
    match n {
        NodeV::Group(g) => NodeV::Group(
            GroupBlockV { children: compressed_nodes(n->Group_0.children), ..g },
        ),
        NodeV::Condition(c) => {
            let t = compressed_nodes(n->Condition_0.then_branch);
            let ei = compressed_branches(n->Condition_0.else_if_branches);
            let e = match n->Condition_0.else_branch {
                Some(x) => Some(compressed_nodes(x)),
                None => None,
            };
            let m = merged_branches(c.if_item_type, t, e);
            if ei.len() == 0 && m is Some {
                m.unwrap()
            } else {
                NodeV::Condition(
                    ConditionV {
                        if_item_type: c.if_item_type,
                        if_variables: c.if_variables,
                        then_branch: t,
                        else_if_branches: ei,
                        else_branch: e,
                    },
                )
            }
        },
        _ => n,
    }
}

/// A sequence of nodes, each compressed.
pub open spec fn compressed_nodes(s: Seq<NodeV>) -> Seq<NodeV>
    decreases s, 0nat,
{
    if s.len() == 0 {
        Seq::empty()
    } else {
        compressed_nodes(s.drop_last()).push(compressed_node(s.last()))
    }
}

/// A sequence of else-if branches, the children of each compressed.
pub open spec fn compressed_branches(s: Seq<ElseIfV>) -> Seq<ElseIfV>
    decreases s, 1nat,
{
    if s.len() == 0 {
        Seq::empty()
    } else {
        compressed_branches(s.drop_last()).push(
            ElseIfV { children: compressed_nodes(s.last().children), ..s.last() },
        )
    }
}

/// Compresses CSL node trees.
pub struct Compressor;

proof fn lemma_nodes_view_index(s: Seq<CslnNode>, k: int)
    requires
        0 <= k < s.len(),
    ensures
        nodes_view(s).len() == s.len(),
        nodes_view(s)[k] == node_view(s[k]),
    decreases s.len(),
{
    if k < s.len() - 1 {
        lemma_nodes_view_index(s.drop_last(), k);
    } else {
        lemma_nodes_view_len(s.drop_last());
    }
}

proof fn lemma_nodes_view_len(s: Seq<CslnNode>)
    ensures
        nodes_view(s).len() == s.len(),
    decreases s.len(),
{
    if s.len() > 0 {
        lemma_nodes_view_len(s.drop_last());
    }
}

impl Compressor {
    /// Compresses every node of `nodes`, in order: groups and branches are
    /// compressed below, and a condition without else-if branches whose two
    /// branches each render the same single variable becomes that variable.
    pub fn compress_nodes(&self, nodes: Vec<CslnNode>) -> (r: Vec<CslnNode>)
        ensures
            nodes_view(r@) == compressed_nodes(nodes_view(nodes@)),
        decreases nodes@, 0nat,
    {
        let ghost s = nodes@;
        let mut nodes = nodes;
        match nodes.pop() {
            None => {
                assert(s =~= Seq::<CslnNode>::empty());
                Vec::new()
            },
            Some(last) => {
                proof {
                    assert(nodes@ =~= s.subrange(0, s.len() - 1));
                    assert(decreases_to!(s => nodes@));
                    assert(decreases_to!(s => s[s.len() - 1]));
                }
                let mut out = self.compress_nodes(nodes);
                let c = self.compress_node(last);
                let ghost before = out@;
                out.push(c);
                proof {
                    assert(out@.drop_last() =~= before);
                    assert(s.drop_last() =~= nodes@);
                    let sv = nodes_view(s);
                    assert(sv.drop_last() =~= nodes_view(nodes@));
                }
                out
            },
        }
    }

    fn compress_branches(&self, branches: Vec<ElseIfBranch>) -> (r: Vec<ElseIfBranch>)
        ensures
            branches_view(r@) == compressed_branches(branches_view(branches@)),
        decreases branches@, 1nat,
    {
        let ghost s = branches@;
        let mut branches = branches;
        match branches.pop() {
            None => {
                assert(s =~= Seq::<ElseIfBranch>::empty());
                Vec::new()
            },
            Some(b) => {
                proof {
                    assert(branches@ =~= s.subrange(0, s.len() - 1));
                    assert(decreases_to!(s => branches@));
                    assert(decreases_to!(s => s[s.len() - 1]));
                    assert(decreases_to!(b => b.children));
                    assert(decreases_to!(b.children => b.children@));
                }
                let mut out = self.compress_branches(branches);
                let ElseIfBranch { if_item_type, if_variables, children } = b;
                let children = self.compress_nodes(children);
                let ghost before = out@;
                out.push(ElseIfBranch { if_item_type, if_variables, children });
                proof {
                    assert(out@.drop_last() =~= before);
                    assert(s.drop_last() =~= branches@);
                    let sv = branches_view(s);
                    assert(sv.drop_last() =~= branches_view(branches@));
                }
                out
            },
        }
    }

    fn compress_node(&self, node: CslnNode) -> (r: CslnNode)
        ensures
            node_view(r) == compressed_node(node_view(node)),
        decreases node, 2nat,
    {
        match node {
            CslnNode::Group(group) => {
                proof {
                    assert(decreases_to!(node => group));
                    assert(decreases_to!(group => group.children));
                    assert(decreases_to!(group.children => group.children@));
                }
                let GroupBlock { children, delimiter, formatting, source_order } = group;
                let children = self.compress_nodes(children);
                CslnNode::Group(GroupBlock { children, delimiter, formatting, source_order })
            },
            CslnNode::Condition(cond) => {
                proof {
                    assert(decreases_to!(node => cond));
                    assert(decreases_to!(cond => cond.then_branch));
                    assert(decreases_to!(cond.then_branch => cond.then_branch@));
                    assert(decreases_to!(cond => cond.else_if_branches));
                    assert(decreases_to!(cond.else_if_branches => cond.else_if_branches@));
                    assert(decreases_to!(cond => cond.else_branch));
                }
                let ghost cv = node_view(node);
                let ConditionBlock {
                    if_item_type,
                    if_variables,
                    then_branch,
                    else_if_branches,
                    else_branch,
                } = cond;
                let then_c = self.compress_nodes(then_branch);
                let ei_c = self.compress_branches(else_if_branches);
                let else_c = match else_branch {
                    Some(e) => {
                        proof {
                            assert(decreases_to!(cond.else_branch => e));
                            assert(decreases_to!(e => e@));
                        }
                        Some(self.compress_nodes(e))
                    },
                    None => None,
                };
                proof {
                    lemma_nodes_view_len(then_c@);
                    lemma_branches_view_len(ei_c@);
                    if then_c@.len() > 0 {
                        lemma_nodes_view_index(then_c@, 0);
                    }
                    if else_c is Some {
                        lemma_nodes_view_len(else_c.unwrap()@);
                        if else_c.unwrap()@.len() > 0 {
                            lemma_nodes_view_index(else_c.unwrap()@, 0);
                        }
                    }
                }
                if ei_c.len() == 0 && self.can_merge(&then_c, &else_c) {
                    proof {
                        lemma_nodes_view_index(then_c@, 0);
                        lemma_nodes_view_index(else_c.unwrap()@, 0);
                    }
                    let mut e = else_c.unwrap();
                    let last = e.pop();
                    match (&then_c[0], last) {
                        (CslnNode::Variable(v1), Some(CslnNode::Variable(v2))) => {
                            CslnNode::Variable(self.merge(&if_item_type, v1, v2))
                        },
                        _ => {
                            proof {
                                assert(false);
                            }
                            CslnNode::Text { value: String::new() }
                        },
                    }
                } else {
                    CslnNode::Condition(
                        ConditionBlock {
                            if_item_type,
                            if_variables,
                            then_branch: then_c,
                            else_if_branches: ei_c,
                            else_branch: else_c,
                        },
                    )
                }
            },
            _ => node,
        }
    }

    /// Whether a then- and an else-branch each hold one variable node, of
    /// the same variable.
    fn can_merge(&self, then_nodes: &Vec<CslnNode>, else_nodes: &Option<Vec<CslnNode>>) -> (r: bool)
        ensures
            r == (then_nodes@.len() == 1 && else_nodes is Some && else_nodes.unwrap()@.len() == 1
                && then_nodes@[0] is Variable && else_nodes.unwrap()@[0] is Variable
                && then_nodes@[0]->Variable_0.variable == else_nodes.unwrap()@[0]->Variable_0.variable),
    {
        if then_nodes.len() != 1 {
            return false;
        }
        match else_nodes {
            None => false,
            Some(e) => {
                if e.len() != 1 {
                    return false;
                }
                match (&then_nodes[0], &e[0]) {
                    (CslnNode::Variable(v1), CslnNode::Variable(v2)) => v1.variable == v2.variable,
                    _ => false,
                }
            },
        }
    }

    /// The else-branch's variable `v2` with the formatting of the
    /// then-branch's variable `v1` as an override for each of `if_types`.
    fn merge(&self, if_types: &Vec<ItemType>, v1: &VariableBlock, v2: VariableBlock) -> (r: VariableBlock)
        ensures
            variable_view(r) == (VariableBlockV {
                overrides: assoc_insert_all(
                    variable_view(v2).overrides,
                    if_types@,
                    override_formatting(v1.formatting, v2.formatting),
                ),
                ..variable_view(v2)
            }),
    {
        let ghost v2_0 = v2;
        let mut merged = v2;
        let mut fmt = v1.formatting.copy();
        if merged.formatting.quotes == Some(true) && fmt.quotes.is_none() {
            fmt.quotes = Some(false);
        }
        if merged.formatting.font_style.is_some() && fmt.font_style.is_none() {
            fmt.font_style = Some(FontStyle::Normal);
        }
        let ghost f = fmt;
        assert(f == override_formatting(v1.formatting, v2_0.formatting));
        let mut i: usize = 0;
        while i < if_types.len()
            invariant
                i <= if_types@.len(),
                merged.variable == v2_0.variable,
                merged.label == v2_0.label,
                merged.formatting == v2_0.formatting,
                merged.source_order == v2_0.source_order,
                merged.overrides@ == assoc_insert_all(v2_0.overrides@, if_types@.subrange(0, i as int), f),
                fmt == f,
            decreases if_types@.len() - i,
        {
            let t = if_types[i];
            assoc_set(&mut merged.overrides, t, fmt.copy());
            proof {
                let s = if_types@.subrange(0, i + 1);
                assert(s.drop_last() =~= if_types@.subrange(0, i as int));
            }
            i = i + 1;
        }
        proof {
            assert(if_types@.subrange(0, if_types@.len() as int) =~= if_types@);
        }
        merged
    }
}

proof fn lemma_branches_view_len(s: Seq<ElseIfBranch>)
    ensures
        branches_view(s).len() == s.len(),
    decreases s.len(),
{
    if s.len() > 0 {
        lemma_branches_view_len(s.drop_last());
    }
}

/// Compressing keeps the number of nodes: each node becomes one node, the
/// compression of the node at its position.
pub proof fn law_compress_keeps_count(s: Seq<NodeV>)
    ensures
        compressed_nodes(s).len() == s.len(),
        forall|i: int| 0 <= i < s.len() ==> #[trigger] compressed_nodes(s)[i] == compressed_node(s[i]),
    decreases s.len(),
{
    if s.len() > 0 {
        law_compress_keeps_count(s.drop_last());
        assert forall|i: int| 0 <= i < s.len() implies #[trigger] compressed_nodes(s)[i] == compressed_node(s[i]) by {
            if i < s.len() - 1 {
                assert(s.drop_last()[i] == s[i]);
            }
        }
    }
}

/// Compressing a node keeps its kind, except that a condition may become
/// a variable: text, variable, date, names and term nodes are left as they
/// are, and a group keeps all but its children, which are compressed.
pub proof fn law_compressed_node_shape(n: NodeV)
    ensures
        !(n is Group) && !(n is Condition) ==> compressed_node(n) == n,
        n is Group ==> compressed_node(n) == NodeV::Group(
            GroupBlockV { children: compressed_nodes(n->Group_0.children), ..n->Group_0 },
        ),
        n is Condition ==> compressed_node(n) is Condition || compressed_node(n) is Variable,
{
}

} // verus!
