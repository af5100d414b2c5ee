//! The simpler compilation used for citations: one branch of each
//! condition, no merging, then author and date first.

use vstd::prelude::*;
use crate::legacy::{ConditionBlock, CslnNode, ElseIfBranch, ItemType};
use crate::template::{ContributorRole, DateVariable, TemplateComponent};
use crate::template_compiler::copy::copy_component;
use crate::template_compiler::merge::{
    lemma_stable_sorted, lemma_stable_sorted_ordered, positions, stable_sort_indices, stable_sorted,
};
use crate::template_compiler::nodes::node_component;
use crate::template_compiler::TemplateCompiler;
use crate::template_view::{lemma_tcs_view, lemma_tcs_view_add, tc_view, tcs_view, TCV};

verus! {

/// Item types whose branches a citation passes over where it can.
pub open spec fn is_uncommon_type(t: ItemType) -> bool {
    t == ItemType::PersonalCommunication || t == ItemType::Interview || t == ItemType::LegalCase
        || t == ItemType::Legislation || t == ItemType::Bill || t == ItemType::Treaty
}

/// Whether some of `types` is uncommon.
pub open spec fn has_uncommon(types: Seq<ItemType>) -> bool {
    exists|j: int| 0 <= j < types.len() && is_uncommon_type(#[trigger] types[j])
}

/// Whether a branch for `types` covers a common type: it tests no type,
/// or some type it tests is not uncommon.
pub open spec fn has_common(types: Seq<ItemType>) -> bool {
    types.len() == 0 || exists|j: int| 0 <= j < types.len() && !is_uncommon_type(#[trigger] types[j])
}

/// The first else-if branch from `k` on that covers a common type, or -1.
pub open spec fn common_index(bs: Seq<ElseIfBranch>, k: int) -> int
    decreases bs.len() - k,
{
    if k < 0 || k >= bs.len() {
        -1
    } else if has_common(bs[k].if_item_type@) {
        k
    } else {
        common_index(bs, k + 1)
    }
}

pub proof fn lemma_common_index(bs: Seq<ElseIfBranch>, k: int)
    ensures
        common_index(bs, k) == -1 || (0 <= k <= common_index(bs, k) < bs.len()),
    decreases bs.len() - k,
{
    if 0 <= k < bs.len() && !has_common(bs[k].if_item_type@) {
        lemma_common_index(bs, k + 1);
    }
}

/// The components of `nodes` from `i` on, compiled for a citation:
/// a node that compiles on its own gives its component, a group its
/// children's, a condition those of one branch (`simple_condition`).
#[verifier::opaque]
pub open spec fn simple_compiled(nodes: Seq<CslnNode>, i: int) -> Seq<TCV>
    decreases nodes, nodes.len() - i,
{
    if i < 0 || i >= nodes.len() {
        Seq::empty()
    } else {
        let n = nodes[i];
        let head = if node_component(n) is Some {
            seq![node_component(n)->Some_0]
        } else if n is Group {
            proof {
                assert(decreases_to!(nodes => nodes[i]));
                assert(decreases_to!(nodes[i] => n->Group_0));
                assert(decreases_to!(n->Group_0 => n->Group_0.children));
                assert(decreases_to!(n->Group_0.children => n->Group_0.children@));
            }
            simple_compiled(n->Group_0.children@, 0)
        } else if n is Condition {
            proof {
                assert(decreases_to!(nodes => nodes[i]));
            }
            simple_condition(n->Condition_0)
        } else {
            Seq::empty()
        };
        head + simple_compiled(nodes, i + 1)
    }
}

/// The branch of a condition a citation takes: for a condition on an
/// uncommon type, the first else-if branch covering a common type, else
/// the else-branch, else the then-branch; otherwise the then-branch when
/// it gives anything, else the first else-if branch that does, else the
/// else-branch.
pub open spec fn simple_condition(c: ConditionBlock) -> Seq<TCV>
    decreases c, 0int,
{
    proof {
        assert(decreases_to!(c => c.then_branch));
        assert(decreases_to!(c.then_branch => c.then_branch@));
        assert(decreases_to!(c => c.else_if_branches));
        assert(decreases_to!(c.else_if_branches => c.else_if_branches@));
    }
    let bs = c.else_if_branches@;
    let else_part = match c.else_branch {
        Some(e) => {
            proof {
                assert(decreases_to!(c => c.else_branch));
                assert(decreases_to!(c.else_branch => e));
                assert(decreases_to!(e => e@));
            }
            Some(simple_compiled(e@, 0))
        },
        None => None,
    };
    if c.if_item_type@.len() > 0 && has_uncommon(c.if_item_type@) {
        let k = common_index(bs, 0);
        if k >= 0 {
            proof {
                lemma_common_index(bs, 0);
                assert(decreases_to!(c.else_if_branches@ => bs[k]));
                assert(decreases_to!(bs[k] => bs[k].children));
                assert(decreases_to!(bs[k].children => bs[k].children@));
            }
            simple_compiled(bs[k].children@, 0)
        } else {
            match else_part {
                Some(x) => x,
                None => simple_compiled(c.then_branch@, 0),
            }
        }
    } else {
        let t = simple_compiled(c.then_branch@, 0);
        if t.len() > 0 {
            t
        } else {
            match nonempty_branch(bs, 0) {
                Some(x) => x,
                None => match else_part {
                    Some(x) => x,
                    None => Seq::empty(),
                },
            }
        }
    }
}

/// The components of the first else-if branch from `k` on that gives any.
pub open spec fn nonempty_branch(bs: Seq<ElseIfBranch>, k: int) -> Option<Seq<TCV>>
    decreases bs, bs.len() - k,
{
    if k < 0 || k >= bs.len() {
        None
    } else {
        proof {
            assert(decreases_to!(bs => bs[k]));
            assert(decreases_to!(bs[k] => bs[k].children));
            assert(decreases_to!(bs[k].children => bs[k].children@));
        }
        let r = simple_compiled(bs[k].children@, 0);
        if r.len() > 0 {
            Some(r)
        } else {
            nonempty_branch(bs, k + 1)
        }
    }
}

/// What the node at `i` gives (see `simple_compiled`).
pub open spec fn simple_head(nodes: Seq<CslnNode>, i: int) -> Seq<TCV> {
    let n = nodes[i];
    if node_component(n) is Some {
        seq![node_component(n)->Some_0]
    } else if n is Group {
        simple_compiled(n->Group_0.children@, 0)
    } else if n is Condition {
        simple_condition(n->Condition_0)
    } else {
        Seq::empty()
    }
}

proof fn lemma_simple_step(nodes: Seq<CslnNode>, i: int)
    requires
        0 <= i < nodes.len(),
    ensures
        simple_compiled(nodes, i) == simple_head(nodes, i) + simple_compiled(nodes, i + 1),
{
    reveal(simple_compiled);
}

proof fn lemma_simple_end(nodes: Seq<CslnNode>, i: int)
    requires
        i >= nodes.len(),
    ensures
        simple_compiled(nodes, i) == Seq::<TCV>::empty(),
{
    reveal(simple_compiled);
}

proof fn lemma_simple_condition(c: ConditionBlock)
    ensures
        simple_condition(c) == ({
            let bs = c.else_if_branches@;
            let else_part = match c.else_branch {
                Some(e) => Some(simple_compiled(e@, 0)),
                None => None,
            };
            if c.if_item_type@.len() > 0 && has_uncommon(c.if_item_type@) {
                let k = common_index(bs, 0);
                if k >= 0 {
                    simple_compiled(bs[k].children@, 0)
                } else {
                    match else_part {
                        Some(x) => x,
                        None => simple_compiled(c.then_branch@, 0),
                    }
                }
            } else {
                let t = simple_compiled(c.then_branch@, 0);
                if t.len() > 0 {
                    t
                } else {
                    match nonempty_branch(bs, 0) {
                        Some(x) => x,
                        None => match else_part {
                            Some(x) => x,
                            None => Seq::empty(),
                        },
                    }
                }
            }
        }),
{
    reveal(simple_compiled);
}

proof fn lemma_nonempty_branch(bs: Seq<ElseIfBranch>, k: int)
    ensures
        nonempty_branch(bs, k) == (if k < 0 || k >= bs.len() {
            None
        } else if simple_compiled(bs[k].children@, 0).len() > 0 {
            Some(simple_compiled(bs[k].children@, 0))
        } else {
            nonempty_branch(bs, k + 1)
        }),
{
    reveal(simple_compiled);
}

/// The citation rank of a component: the author first, then other
/// contributors, the issued date, other dates, titles, the rest.
pub open spec fn citation_rank(c: TCV) -> usize {
    match c {
        TCV::Contributor(x, _, _) => if x.contributor == ContributorRole::Author {
            0
        } else {
            1
        },
        TCV::Date(d, _, _, _) => if d.date == DateVariable::Issued {
            2
        } else {
            3
        },
        TCV::Title(..) => 4,
        _ => 5,
    }
}

/// Components sorted by citation rank, equal ranks in their order.
pub open spec fn sorted_for_citation(s: Seq<TCV>) -> Seq<TCV> {
    let ranks = s.map_values(|c: TCV| citation_rank(c));
    stable_sorted(positions(s.len()), |i: usize| ranks[i as int]).map_values(|i: usize| s[i as int])
}

/// Whether a component is the author.
pub open spec fn is_author_component(c: TCV) -> bool {
    c is Contributor && c->Contributor_0.contributor == ContributorRole::Author
}

/// Whether a component is the issued date.
pub open spec fn is_issued_component(c: TCV) -> bool {
    c is Date && c->Date_0.date == DateVariable::Issued
}

/// Whether components are in citation order: author first, then the other
/// contributors, the issued date, the other dates, the titles and the rest.
/// Whatever comes before an author is an author, before a contributor a
/// contributor, before the issued date a contributor or the issued date,
/// before a date a contributor or a date, before a title a contributor, a
/// date or a title.
pub open spec fn in_citation_order(r: Seq<TCV>) -> bool {
    forall|i: int, j: int|
        #![trigger r[i], r[j]]
        0 <= i < j < r.len() ==> {
            let a = r[i];
            let b = r[j];
            &&& is_author_component(b) ==> is_author_component(a)
            &&& b is Contributor ==> a is Contributor
            &&& is_issued_component(b) ==> a is Contributor || is_issued_component(a)
            &&& b is Date ==> a is Contributor || a is Date
            &&& b is Title ==> a is Contributor || a is Date || a is Title
        }
}

/// Sorting for a citation puts the components in citation order, and they
/// are those given, each once.
pub proof fn law_citation_order(s: Seq<TCV>)
    requires
        s.len() <= usize::MAX,
    ensures
        sorted_for_citation(s).len() == s.len(),
        forall|x: TCV| sorted_for_citation(s).contains(x) <==> s.contains(x),
        in_citation_order(sorted_for_citation(s)),
{
    let ranks = s.map_values(|c: TCV| citation_rank(c));
    let key = |i: usize| ranks[i as int];
    let ps = positions(s.len());
    let order = stable_sorted(ps, key);
    lemma_stable_sorted(ps, key);
    lemma_stable_sorted_ordered(ps, key);
    let r = sorted_for_citation(s);
    assert(r == order.map_values(|i: usize| s[i as int]));
    assert forall|m: int| 0 <= m < order.len() implies (#[trigger] order[m]) < s.len() by {
        assert(order.contains(order[m]));
        assert(ps.contains(order[m]));
        let q = choose|q: int| 0 <= q < ps.len() && ps[q] == order[m];
        assert(ps[q] == q as usize);
    }
    assert forall|m: int| 0 <= m < r.len() implies citation_rank(#[trigger] r[m]) == key(order[m]) by {
        assert(r[m] == s[order[m] as int]);
    }
    assert forall|i: int, j: int| #![trigger r[i], r[j]] 0 <= i < j < s.len() implies {
        let a = r[i];
        let b = r[j];
        &&& is_author_component(b) ==> is_author_component(a)
        &&& b is Contributor ==> a is Contributor
        &&& is_issued_component(b) ==> a is Contributor || is_issued_component(a)
        &&& b is Date ==> a is Contributor || a is Date
        &&& b is Title ==> a is Contributor || a is Date || a is Title
    } by {
        assert(key(order[i]) <= key(order[j]));
        assert(citation_rank(r[i]) <= citation_rank(r[j]));
    }
    assert forall|x: TCV| r.contains(x) <==> s.contains(x) by {
        if r.contains(x) {
            let m = choose|m: int| 0 <= m < r.len() && r[m] == x;
            assert(s[order[m] as int] == x);
        }
        if s.contains(x) {
            let q = choose|q: int| 0 <= q < s.len() && s[q] == x;
            assert(ps[q] == q as usize);
            assert(ps.contains(q as usize));
            assert(order.contains(q as usize));
            let m = choose|m: int| 0 <= m < order.len() && order[m] == q as usize;
            assert(r[m] == x);
        }
    }
}

fn is_uncommon(t: ItemType) -> (r: bool)
    ensures
        r == is_uncommon_type(t),
{
    match t {
        ItemType::PersonalCommunication | ItemType::Interview | ItemType::LegalCase | ItemType::Legislation
        | ItemType::Bill | ItemType::Treaty => true,
        _ => false,
    }
}

fn any_uncommon(types: &Vec<ItemType>) -> (r: bool)
    ensures
        r == has_uncommon(types@),
{
    let mut i: usize = 0;
    while i < types.len()
        invariant
            i <= types@.len(),
            forall|j: int| 0 <= j < i ==> !is_uncommon_type(#[trigger] types@[j]),
        decreases types@.len() - i,
    {
        if is_uncommon(types[i]) {
            return true;
        }
        i = i + 1;
    }
    false
}

fn covers_common(types: &Vec<ItemType>) -> (r: bool)
    ensures
        r == has_common(types@),
{
    if types.len() == 0 {
        return true;
    }
    let mut i: usize = 0;
    while i < types.len()
        invariant
            i <= types@.len(),
            types@.len() > 0,
            forall|j: int| 0 <= j < i ==> is_uncommon_type(#[trigger] types@[j]),
        decreases types@.len() - i,
    {
        if !is_uncommon(types[i]) {
            return true;
        }
        i = i + 1;
    }
    false
}

impl TemplateCompiler {
    /// Compiles nodes for a citation (`simple_compiled`).
    pub fn compile_simple(&self, nodes: &[CslnNode]) -> (r: Vec<TemplateComponent>)
        ensures
            tcs_view(r@) == simple_compiled(nodes@, 0),
        decreases nodes@, 1nat,
    {
        let mut out: Vec<TemplateComponent> = Vec::new();
        let mut i: usize = 0;
        proof {
            lemma_tcs_view(out@);
        }
        while i < nodes.len()
            invariant
                i <= nodes@.len(),
                tcs_view(out@) + simple_compiled(nodes@, i as int) == simple_compiled(nodes@, 0),
            decreases nodes@.len() - i,
        {
            proof {
                lemma_simple_step(nodes@, i as int);
            }
            let ghost before = tcs_view(out@);
            let ghost before_seq = out@;
            let mut part = self.compile_simple_node(nodes, i);
            let ghost part_seq = part@;
            let ghost pv = tcs_view(part@);
            out.append(&mut part);
            proof {
                lemma_tcs_view_add(before_seq, part_seq);
                assert(out@ == before_seq + part_seq);
                assert(before + (pv + simple_compiled(nodes@, i + 1)) =~= (before + pv) + simple_compiled(nodes@, i + 1));
            }
            i = i + 1;
        }
        proof {
            lemma_simple_end(nodes@, i as int);
            assert(tcs_view(out@) + Seq::<TCV>::empty() =~= tcs_view(out@));
        }
        out
    }

    fn compile_simple_node(&self, nodes: &[CslnNode], i: usize) -> (r: Vec<TemplateComponent>)
        requires
            i < nodes@.len(),
        ensures
            tcs_view(r@) == simple_head(nodes@, i as int),
        decreases nodes@, 0nat,
    {
        let node = &nodes[i];
        match self.compile_node(node) {
            Some(c) => {
                let mut v: Vec<TemplateComponent> = Vec::new();
                v.push(c);
                proof {
                    lemma_tcs_view(v@);
                    assert(tcs_view(v@) =~= seq![tc_view(c)]);
                }
                v
            },
            None => match node {
                CslnNode::Group(g) => {
                    proof {
                        assert(decreases_to!(nodes@ => nodes@[i as int]));
                        assert(decreases_to!(nodes@[i as int] => *g));
                        assert(decreases_to!(*g => g.children));
                        assert(decreases_to!(g.children => g.children@));
                    }
                    self.compile_simple(g.children.as_slice())
                },
                CslnNode::Condition(c) => {
                    proof {
                        assert(decreases_to!(nodes@ => nodes@[i as int]));
                        assert(decreases_to!(nodes@[i as int] => *c));
                    }
                    self.compile_simple_condition(c)
                },
                _ => {
                    let v: Vec<TemplateComponent> = Vec::new();
                    proof {
                        lemma_tcs_view(v@);
                        assert(tcs_view(v@) =~= Seq::<TCV>::empty());
                    }
                    v
                },
            },
        }
    }

    fn compile_simple_condition(&self, c: &ConditionBlock) -> (r: Vec<TemplateComponent>)
        ensures
            tcs_view(r@) == simple_condition(*c),
        decreases c, 2nat,
    {
        proof {
            lemma_simple_condition(*c);
            assert(decreases_to!(c => c.then_branch));
            assert(decreases_to!(c.then_branch => c.then_branch@));
        }
        let ghost bs = c.else_if_branches@;
        if c.if_item_type.len() > 0 && any_uncommon(&c.if_item_type) {
            let mut k: usize = 0;
            proof {
                lemma_common_index(bs, 0);
            }
            while k < c.else_if_branches.len()
                invariant
                    k <= bs.len(),
                    bs == c.else_if_branches@,
                    common_index(bs, 0) == common_index(bs, k as int),
                    common_index(bs, 0) == -1 || 0 <= common_index(bs, 0) < bs.len(),
                    common_index(bs, 0) >= 0 ==> simple_condition(*c) == simple_compiled(
                        bs[common_index(bs, 0)].children@,
                        0,
                    ),
                decreases bs.len() - k,
            {
                let b = &c.else_if_branches[k];
                if covers_common(&b.if_item_type) {
                    proof {
                        assert(bs[k as int] == *b);
                        assert(common_index(bs, k as int) == k as int);
                        assert(decreases_to!(c => c.else_if_branches));
                        assert(decreases_to!(c.else_if_branches => c.else_if_branches@));
                        assert(decreases_to!(c.else_if_branches@ => c.else_if_branches@[k as int]));
                        assert(decreases_to!(c.else_if_branches@[k as int] => c.else_if_branches@[k as int].children));
                        assert(decreases_to!(c.else_if_branches@[k as int].children => c.else_if_branches@[k as int].children@));
                    }
                    return self.compile_simple(b.children.as_slice());
                }
                k = k + 1;
            }
            match &c.else_branch {
                Some(e) => {
                    proof {
                        assert(decreases_to!(c => c.else_branch));
                        assert(decreases_to!(c.else_branch => c.else_branch->Some_0));
                        assert(decreases_to!(c.else_branch->Some_0 => c.else_branch->Some_0@));
                    }
                    self.compile_simple(e.as_slice())
                },
                None => self.compile_simple(c.then_branch.as_slice()),
            }
        } else {
            let then_c = self.compile_simple(c.then_branch.as_slice());
            if then_c.len() > 0 {
                proof {
                    lemma_tcs_view(then_c@);
                }
                return then_c;
            }
            proof {
                lemma_tcs_view(then_c@);
            }
            let mut k: usize = 0;
            proof {
                lemma_nonempty_branch(bs, 0);
            }
            while k < c.else_if_branches.len()
                invariant
                    k <= bs.len(),
                    bs == c.else_if_branches@,
                    nonempty_branch(bs, 0) == nonempty_branch(bs, k as int),
                    nonempty_branch(bs, 0) is Some ==> simple_condition(*c) == nonempty_branch(bs, 0)->Some_0,
                decreases bs.len() - k,
            {
                proof {
                    lemma_nonempty_branch(bs, k as int);
                    assert(decreases_to!(c => c.else_if_branches));
                    assert(decreases_to!(c.else_if_branches => c.else_if_branches@));
                    assert(decreases_to!(c.else_if_branches@ => c.else_if_branches@[k as int]));
                    assert(decreases_to!(c.else_if_branches@[k as int] => c.else_if_branches@[k as int].children));
                    assert(decreases_to!(c.else_if_branches@[k as int].children => c.else_if_branches@[k as int].children@));
                }
                let b = &c.else_if_branches[k];
                let part = self.compile_simple(b.children.as_slice());
                if part.len() > 0 {
                    proof {
                        lemma_tcs_view(part@);
                        assert(bs[k as int] == *b);
                        assert(nonempty_branch(bs, k as int) == Some(tcs_view(part@)));
                    }
                    return part;
                }
                proof {
                    lemma_tcs_view(part@);
                }
                k = k + 1;
            }
            proof {
                lemma_nonempty_branch(bs, k as int);
            }
            match &c.else_branch {
                Some(e) => {
                    proof {
                        assert(decreases_to!(c => c.else_branch));
                        assert(decreases_to!(c.else_branch => c.else_branch->Some_0));
                        assert(decreases_to!(c.else_branch->Some_0 => c.else_branch->Some_0@));
                    }
                    self.compile_simple(e.as_slice())
                },
                None => {
                    let v: Vec<TemplateComponent> = Vec::new();
                    proof {
                        lemma_tcs_view(v@);
                        assert(tcs_view(v@) =~= Seq::<TCV>::empty());
                    }
                    v
                },
            }
        }
    }

    /// The citation rank of a component (`citation_rank`).
    fn citation_rank_of(&self, c: &TemplateComponent) -> (r: usize)
        ensures
            r == citation_rank(tc_view(*c)),
    {
        match c {
            TemplateComponent::Contributor(x) => if x.contributor == ContributorRole::Author {
                0
            } else {
                1
            },
            TemplateComponent::Date(d) => if d.date == DateVariable::Issued {
                2
            } else {
                3
            },
            TemplateComponent::Title(_) => 4,
            _ => 5,
        }
    }

    /// Sorts components for a citation: author, other contributors, issued
    /// date, other dates, titles, the rest, keeping the order within each
    /// (`sorted_for_citation`).
    pub fn sort_citation_components(&self, components: &mut Vec<TemplateComponent>)
        ensures
            tcs_view(final(components)@) == sorted_for_citation(tcs_view(old(components)@)),
    {
        let ghost s = tcs_view(components@);
        proof {
            lemma_tcs_view(components@);
        }
        let n = components.len();
        let mut ranks: Vec<usize> = Vec::new();
        let mut idx: Vec<usize> = Vec::new();
        let mut i: usize = 0;
        while i < n
            invariant
                i <= n,
                n == components@.len(),
                s == tcs_view(components@),
                s.len() == n,
                forall|k: int| 0 <= k < n ==> #[trigger] s[k] == tc_view(components@[k]),
                ranks@ == s.map_values(|c: TCV| citation_rank(c)).subrange(0, i as int),
                idx@ == positions(s.len()).subrange(0, i as int),
            decreases n - i,
        {
            let r = self.citation_rank_of(&components[i]);
            ranks.push(r);
            idx.push(i);
            proof {
                assert(ranks@ =~= s.map_values(|c: TCV| citation_rank(c)).subrange(0, i + 1));
                assert(idx@ =~= positions(s.len()).subrange(0, i + 1));
            }
            i = i + 1;
        }
        proof {
            assert(ranks@ =~= s.map_values(|c: TCV| citation_rank(c)));
            assert(idx@ =~= positions(s.len()));
        }
        let order = stable_sort_indices(&idx, &ranks);
        proof {
            lemma_stable_sorted(idx@, |e: usize| ranks@[e as int]);
            assert forall|j: int| 0 <= j < order@.len() implies order@[j] < n by {
                assert(order@.contains(order@[j]));
                assert(idx@.contains(order@[j]));
            }
        }
        let mut out: Vec<TemplateComponent> = Vec::new();
        let mut k: usize = 0;
        while k < order.len()
            invariant
                k <= order@.len(),
                n == components@.len(),
                s == tcs_view(components@),
                forall|k: int| 0 <= k < n ==> #[trigger] s[k] == tc_view(components@[k]),
                forall|j: int| 0 <= j < order@.len() ==> order@[j] < n,
                out@.len() == k,
                forall|j: int| 0 <= j < k ==> tc_view(#[trigger] out@[j]) == s[order@[j] as int],
            decreases order@.len() - k,
        {
            out.push(copy_component(&components[order[k]]));
            k = k + 1;
        }
        proof {
            lemma_tcs_view(out@);
            assert(tcs_view(out@) =~= sorted_for_citation(s));
        }
        *components = out;
    }

    /// Compiles nodes for a citation and sorts them author and date first.
    pub fn compile_citation(&self, nodes: &[CslnNode]) -> (r: Vec<TemplateComponent>)
        ensures
            tcs_view(r@) == sorted_for_citation(simple_compiled(nodes@, 0)),
            in_citation_order(tcs_view(r@)),
    {
        let mut components = self.compile_simple(nodes);
        let n = components.len();
        proof {
            lemma_tcs_view(components@);
            assert(n == components@.len());
            law_citation_order(tcs_view(components@));
        }
        self.sort_citation_components(&mut components);
        components
    }
}

} // verus!
