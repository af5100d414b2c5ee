//! The bibliography template with its type-specific templates: the default
//! template cleaned by the deduplication passes, and a template of its own
//! for each of a few outlier types whose branches give a different one.

use vstd::prelude::*;
use crate::legacy::{CslnNode, ElseIfBranch, ItemType};
use crate::passes::deduplicate::{dedup_all, deduplicate_dates_in_lists, deduplicate_numbers_in_lists, DedupKind};
use crate::template::{TemplateComponent, TypeSelector};
use crate::template_compiler::duplicates::fixed_all;
use crate::template_compiler::for_type::{for_type_prefix, legal_case_template};
use crate::template_compiler::nodes::item_type_name;
use crate::template_compiler::same::{components_eq, same_tcvs};
use crate::template_compiler::{compiled, TemplateCompiler};
use crate::template_view::{selector_view, tcs_view, SelV, TCV};

verus! {

/// The item types that the conditions among `nodes` test, depth first: a
/// condition's own types and those of its else-if branches, then those
/// found in its then-branch, else-if branches and else-branch.
pub open spec fn branch_types(nodes: Seq<CslnNode>) -> Seq<ItemType>
    decreases nodes, 2nat,
{
    if nodes.len() == 0 {
        Seq::empty()
    } else {
        branch_types(nodes.drop_last()) + node_types(nodes.last())
    }
}

/// The item types one node contributes (see `branch_types`).
pub open spec fn node_types(n: CslnNode) -> Seq<ItemType>
    decreases n, 1nat,
{
    match n {
        CslnNode::Group(g) => branch_types(n->Group_0.children@),
        CslnNode::Condition(c) => {
            let c = n->Condition_0;
            c.if_item_type@ + test_types(c.else_if_branches@) + branch_types(c.then_branch@) + child_types(
                c.else_if_branches@,
            ) + match c.else_branch {
                Some(e) => branch_types(c.else_branch->Some_0@),
                None => Seq::empty(),
            }
        },
        _ => Seq::empty(),
    }
}

/// The types the else-if branches test, in order.
pub open spec fn test_types(bs: Seq<ElseIfBranch>) -> Seq<ItemType>
    decreases bs.len(),
{
    if bs.len() == 0 {
        Seq::empty()
    } else {
        test_types(bs.drop_last()) + bs.last().if_item_type@
    }
}

/// The types found in the children of else-if branches, in order.
pub open spec fn child_types(bs: Seq<ElseIfBranch>) -> Seq<ItemType>
    decreases bs, 0nat,
{
    if bs.len() == 0 {
        Seq::empty()
    } else {
        child_types(bs.drop_last()) + branch_types(bs.last().children@)
    }
}

/// The members of `ts` that satisfy `p`, in order.
pub open spec fn types_where(ts: Seq<ItemType>, p: spec_fn(ItemType) -> bool) -> Seq<ItemType>
    decreases ts.len(),
{
    if ts.len() == 0 {
        Seq::empty()
    } else {
        types_where(ts.drop_last(), p) + if p(ts.last()) {
            seq![ts.last()]
        } else {
            Seq::empty()
        }
    }
}

/// Every item type, in the order of its name.
pub open spec fn types_by_name() -> Seq<ItemType> {
    seq![
        ItemType::Article,
        ItemType::ArticleJournal,
        ItemType::ArticleMagazine,
        ItemType::ArticleNewspaper,
        ItemType::Bill,
        ItemType::Book,
        ItemType::Broadcast,
        ItemType::Chapter,
        ItemType::Dataset,
        ItemType::Entry,
        ItemType::EntryDictionary,
        ItemType::EntryEncyclopedia,
        ItemType::Figure,
        ItemType::Graphic,
        ItemType::Interview,
        ItemType::LegalCase,
        ItemType::Legislation,
        ItemType::Manuscript,
        ItemType::MapItem,
        ItemType::MotionPicture,
        ItemType::MusicalScore,
        ItemType::Pamphlet,
        ItemType::PaperConference,
        ItemType::Patent,
        ItemType::PersonalCommunication,
        ItemType::Post,
        ItemType::PostWeblog,
        ItemType::Report,
        ItemType::Review,
        ItemType::ReviewBook,
        ItemType::Software,
        ItemType::Song,
        ItemType::Speech,
        ItemType::Standard,
        ItemType::Thesis,
        ItemType::Treaty,
        ItemType::Webpage,
    ]
}

/// The outlier types that may get a template of their own, in the order of
/// their names.
pub open spec fn outlier_types() -> Seq<ItemType> {
    seq![
        ItemType::EntryEncyclopedia,
        ItemType::LegalCase,
        ItemType::Patent,
        ItemType::PersonalCommunication,
        ItemType::Webpage,
    ]
}

/// The types conditions among `nodes` test, each once, in name order.
pub open spec fn types_with_branches(nodes: Seq<CslnNode>) -> Seq<ItemType> {
    types_where(types_by_name(), |t: ItemType| branch_types(nodes).contains(t))
}

/// The outlier types considered: those the conditions test, and always
/// `entry-encyclopedia`; in name order.
pub open spec fn candidate_types(nodes: Seq<CslnNode>) -> Seq<ItemType> {
    types_where(
        outlier_types(),
        |t: ItemType| t == ItemType::EntryEncyclopedia || types_with_branches(nodes).contains(t),
    )
}

/// A template cleaned by the passes: repeated numbers and dates removed
/// from lists, and standalone duplicates of list variables hidden.
pub open spec fn cleaned(s: Seq<TCV>) -> Seq<TCV> {
    fixed_all(dedup_all(DedupKind::Dates, dedup_all(DedupKind::Numbers, s)))
}

/// The default bibliography template of `nodes`.
pub open spec fn default_bibliography(nodes: Seq<CslnNode>) -> Seq<TCV> {
    cleaned(compiled(nodes))
}

/// The template of `nodes` for the type `t`, cleaned; for legal cases
/// with the authority added and volume, pages and issue hidden.
pub open spec fn type_template(nodes: Seq<CslnNode>, t: ItemType) -> Seq<TCV> {
    let s = cleaned(for_type_prefix(nodes, nodes.len() as int, t));
    if t == ItemType::LegalCase {
        legal_case_template(s)
    } else {
        s
    }
}

/// Whether `t` gets a template of its own: compiling for it gives
/// something, and the cleaned template differs from the default.
pub open spec fn gets_template(nodes: Seq<CslnNode>, t: ItemType, default: Seq<TCV>) -> bool {
    for_type_prefix(nodes, nodes.len() as int, t).len() > 0 && !same_tcvs(type_template(nodes, t), default)
}

/// The types that get a template of their own, in name order.
pub open spec fn selective_types(nodes: Seq<CslnNode>, default: Seq<TCV>) -> Seq<ItemType> {
    types_where(candidate_types(nodes), |t: ItemType| gets_template(nodes, t, default))
}

/// What `types_where` keeps: members of `ts` that satisfy `p`, in order of
/// their positions in `ts`.
pub proof fn lemma_types_where(ts: Seq<ItemType>, p: spec_fn(ItemType) -> bool)
    ensures
        types_where(ts, p).len() <= ts.len(),
        forall|i: int| 0 <= i < types_where(ts, p).len() ==> p(#[trigger] types_where(ts, p)[i]) && ts.contains(
            types_where(ts, p)[i],
        ),
        forall|i: int| 0 <= i < ts.len() && p(#[trigger] ts[i]) ==> types_where(ts, p).contains(ts[i]),
    decreases ts.len(),
{
    if ts.len() > 0 {
        let t = ts.drop_last();
        lemma_types_where(t, p);
        let r = types_where(ts, p);
        let rt = types_where(t, p);
        assert forall|i: int| 0 <= i < r.len() implies p(#[trigger] r[i]) && ts.contains(r[i]) by {
            if i < rt.len() {
                assert(r[i] == rt[i]);
                let k = choose|k: int| 0 <= k < t.len() && t[k] == rt[i];
                assert(ts[k] == t[k]);
            } else {
                assert(r[i] == ts.last());
                assert(ts[ts.len() - 1] == ts.last());
            }
        }
        assert forall|i: int| 0 <= i < ts.len() && p(#[trigger] ts[i]) implies r.contains(ts[i]) by {
            if i < ts.len() - 1 {
                assert(t[i] == ts[i]);
                let k = choose|k: int| 0 <= k < rt.len() && rt[k] == t[i];
                assert(r[k] == rt[k]);
            } else {
                assert(r[r.len() - 1] == ts.last());
            }
        }
    }
}

/// A type gets a template of its own only if it is one of the outlier
/// types, `entry-encyclopedia` or one that a condition tests, compiling for
/// it gives something, and its cleaned template differs from the default;
/// each outlier type that meets these gets one.
pub proof fn law_selective_templates(nodes: Seq<CslnNode>, default: Seq<TCV>)
    ensures
        forall|i: int| 0 <= i < selective_types(nodes, default).len() ==> {
            let t = #[trigger] selective_types(nodes, default)[i];
            &&& outlier_types().contains(t)
            &&& (t == ItemType::EntryEncyclopedia || branch_types(nodes).contains(t))
            &&& for_type_prefix(nodes, nodes.len() as int, t).len() > 0
            &&& !same_tcvs(type_template(nodes, t), default)
        },
        forall|t: ItemType|
            outlier_types().contains(t) && (t == ItemType::EntryEncyclopedia || branch_types(nodes).contains(t))
                && #[trigger] gets_template(nodes, t, default) ==> selective_types(nodes, default).contains(t),
{
    let pb = |t: ItemType| branch_types(nodes).contains(t);
    let pc = |t: ItemType| t == ItemType::EntryEncyclopedia || types_with_branches(nodes).contains(t);
    let pt = |t: ItemType| gets_template(nodes, t, default);
    lemma_types_where(types_by_name(), pb);
    lemma_types_where(outlier_types(), pc);
    lemma_types_where(candidate_types(nodes), pt);
    let sel = selective_types(nodes, default);
    let cands = candidate_types(nodes);
    let twb = types_with_branches(nodes);
    assert forall|i: int| 0 <= i < sel.len() implies {
        let t = #[trigger] sel[i];
        &&& outlier_types().contains(t)
        &&& (t == ItemType::EntryEncyclopedia || branch_types(nodes).contains(t))
        &&& for_type_prefix(nodes, nodes.len() as int, t).len() > 0
        &&& !same_tcvs(type_template(nodes, t), default)
    } by {
        let t = sel[i];
        assert(pt(t) && cands.contains(t));
        let k = choose|k: int| 0 <= k < cands.len() && cands[k] == t;
        assert(pc(cands[k]));
        if t != ItemType::EntryEncyclopedia {
            assert(twb.contains(t));
            let m = choose|m: int| 0 <= m < twb.len() && twb[m] == t;
            assert(pb(twb[m]));
        }
    }
    assert forall|t: ItemType|
        outlier_types().contains(t) && (t == ItemType::EntryEncyclopedia || branch_types(nodes).contains(t))
            && #[trigger] gets_template(nodes, t, default) implies sel.contains(t) by {
        if t != ItemType::EntryEncyclopedia {
            assert(types_by_name().contains(t)) by {
                lemma_every_type_by_name(t);
            }
            let m = choose|m: int| 0 <= m < types_by_name().len() && types_by_name()[m] == t;
            assert(pb(types_by_name()[m]));
            assert(twb.contains(t));
        }
        let k = choose|k: int| 0 <= k < outlier_types().len() && outlier_types()[k] == t;
        assert(pc(outlier_types()[k]));
        assert(cands.contains(t));
        let j = choose|j: int| 0 <= j < cands.len() && cands[j] == t;
        assert(pt(cands[j]));
    }
}

/// The types with branches are exactly the types some condition tests.
pub proof fn law_types_with_branches(nodes: Seq<CslnNode>, t: ItemType)
    ensures
        types_with_branches(nodes).contains(t) <==> branch_types(nodes).contains(t),
{
    let pb = |t: ItemType| branch_types(nodes).contains(t);
    lemma_types_where(types_by_name(), pb);
    lemma_every_type_by_name(t);
    let twb = types_with_branches(nodes);
    if twb.contains(t) {
        let m = choose|m: int| 0 <= m < twb.len() && twb[m] == t;
        assert(pb(twb[m]));
    }
    if branch_types(nodes).contains(t) {
        let m = choose|m: int| 0 <= m < types_by_name().len() && types_by_name()[m] == t;
        assert(pb(types_by_name()[m]));
    }
}

/// Every item type is listed in `types_by_name`.
pub proof fn lemma_every_type_by_name(t: ItemType)
    ensures
        types_by_name().contains(t),
{
    let s = types_by_name();
    match t {
        ItemType::Article => assert(s[0] == t),
        ItemType::ArticleJournal => assert(s[1] == t),
        ItemType::ArticleMagazine => assert(s[2] == t),
        ItemType::ArticleNewspaper => assert(s[3] == t),
        ItemType::Bill => assert(s[4] == t),
        ItemType::Book => assert(s[5] == t),
        ItemType::Broadcast => assert(s[6] == t),
        ItemType::Chapter => assert(s[7] == t),
        ItemType::Dataset => assert(s[8] == t),
        ItemType::Entry => assert(s[9] == t),
        ItemType::EntryDictionary => assert(s[10] == t),
        ItemType::EntryEncyclopedia => assert(s[11] == t),
        ItemType::Figure => assert(s[12] == t),
        ItemType::Graphic => assert(s[13] == t),
        ItemType::Interview => assert(s[14] == t),
        ItemType::LegalCase => assert(s[15] == t),
        ItemType::Legislation => assert(s[16] == t),
        ItemType::Manuscript => assert(s[17] == t),
        ItemType::MapItem => assert(s[18] == t),
        ItemType::MotionPicture => assert(s[19] == t),
        ItemType::MusicalScore => assert(s[20] == t),
        ItemType::Pamphlet => assert(s[21] == t),
        ItemType::PaperConference => assert(s[22] == t),
        ItemType::Patent => assert(s[23] == t),
        ItemType::PersonalCommunication => assert(s[24] == t),
        ItemType::Post => assert(s[25] == t),
        ItemType::PostWeblog => assert(s[26] == t),
        ItemType::Report => assert(s[27] == t),
        ItemType::Review => assert(s[28] == t),
        ItemType::ReviewBook => assert(s[29] == t),
        ItemType::Software => assert(s[30] == t),
        ItemType::Song => assert(s[31] == t),
        ItemType::Speech => assert(s[32] == t),
        ItemType::Standard => assert(s[33] == t),
        ItemType::Thesis => assert(s[34] == t),
        ItemType::Treaty => assert(s[35] == t),
        ItemType::Webpage => assert(s[36] == t),
    }
}

/// `r` holds, in order, each of `ts` keyed by its name with its template.
pub open spec fn templates_for(
    r: Seq<(TypeSelector, Vec<TemplateComponent>)>,
    nodes: Seq<CslnNode>,
    ts: Seq<ItemType>,
) -> bool {
    &&& r.len() == ts.len()
    &&& forall|i: int|
        0 <= i < r.len() ==> selector_view(#[trigger] r[i].0) == SelV::Single(item_type_name(ts[i]))
            && tcs_view(r[i].1@) == type_template(nodes, ts[i])
}

pub(crate) fn push_types(types: &mut Vec<ItemType>, more: &Vec<ItemType>)
    ensures
        final(types)@ == old(types)@ + more@,
{
    let mut i: usize = 0;
    while i < more.len()
        invariant
            i <= more@.len(),
            types@ == old(types)@ + more@.subrange(0, i as int),
        decreases more@.len() - i,
    {
        types.push(more[i]);
        proof {
            assert(more@.subrange(0, i + 1) =~= more@.subrange(0, i as int).push(more@[i as int]));
        }
        i = i + 1;
    }
    proof {
        assert(more@.subrange(0, more@.len() as int) =~= more@);
    }
}

fn holds_type(types: &Vec<ItemType>, t: ItemType) -> (r: bool)
    ensures
        r == types@.contains(t),
{
    let mut i: usize = 0;
    while i < types.len()
        invariant
            i <= types@.len(),
            forall|k: int| 0 <= k < i ==> types@[k] != t,
        decreases types@.len() - i,
    {
        if types[i] == t {
            return true;
        }
        i = i + 1;
    }
    false
}

/// Every item type, in the order of its name (`types_by_name`).
fn all_types_by_name() -> (r: Vec<ItemType>)
    ensures
        r@ == types_by_name(),
{
    let r = vec![
        ItemType::Article,
        ItemType::ArticleJournal,
        ItemType::ArticleMagazine,
        ItemType::ArticleNewspaper,
        ItemType::Bill,
        ItemType::Book,
        ItemType::Broadcast,
        ItemType::Chapter,
        ItemType::Dataset,
        ItemType::Entry,
        ItemType::EntryDictionary,
        ItemType::EntryEncyclopedia,
        ItemType::Figure,
        ItemType::Graphic,
        ItemType::Interview,
        ItemType::LegalCase,
        ItemType::Legislation,
        ItemType::Manuscript,
        ItemType::MapItem,
        ItemType::MotionPicture,
        ItemType::MusicalScore,
        ItemType::Pamphlet,
        ItemType::PaperConference,
        ItemType::Patent,
        ItemType::PersonalCommunication,
        ItemType::Post,
        ItemType::PostWeblog,
        ItemType::Report,
        ItemType::Review,
        ItemType::ReviewBook,
        ItemType::Software,
        ItemType::Song,
        ItemType::Speech,
        ItemType::Standard,
        ItemType::Thesis,
        ItemType::Treaty,
        ItemType::Webpage,
    ];
    proof {
        assert(r@ =~= types_by_name());
    }
    r
}

impl TemplateCompiler {
    /// Appends the item types that conditions among `nodes` test
    /// (`branch_types`).
    pub fn collect_types_recursive(&self, nodes: &[CslnNode], types: &mut Vec<ItemType>)
        ensures
            final(types)@ == old(types)@ + branch_types(nodes@),
        decreases nodes@, 2nat,
    {
        let mut i: usize = 0;
        proof {
            assert(nodes@.subrange(0, 0) =~= Seq::<CslnNode>::empty());
            assert(types@ =~= old(types)@ + branch_types(nodes@.subrange(0, 0)));
        }
        while i < nodes.len()
            invariant
                i <= nodes@.len(),
                types@ == old(types)@ + branch_types(nodes@.subrange(0, i as int)),
            decreases nodes@.len() - i,
        {
            let ghost before = types@;
            proof {
                let u = nodes@.subrange(0, i + 1);
                assert(u.drop_last() =~= nodes@.subrange(0, i as int));
                assert(u.last() == nodes@[i as int]);
                assert(decreases_to!(nodes@ => nodes@[i as int]));
            }
            match &nodes[i] {
                CslnNode::Group(g) => {
                    proof {
                        assert(decreases_to!(nodes@[i as int] => g.children));
                        assert(decreases_to!(g.children => g.children@));
                    }
                    self.collect_types_recursive(g.children.as_slice(), types);
                    proof {
                        assert(types@ =~= before + node_types(nodes@[i as int]));
                    }
                },
                CslnNode::Condition(c) => {
                    push_types(types, &c.if_item_type);
                    let bs = &c.else_if_branches;
                    let ghost tests_start = types@;
                    let mut k: usize = 0;
                    proof {
                        assert(bs@.subrange(0, 0) =~= Seq::<ElseIfBranch>::empty());
                        assert(types@ =~= tests_start + test_types(bs@.subrange(0, 0)));
                    }
                    while k < bs.len()
                        invariant
                            k <= bs@.len(),
                            types@ == tests_start + test_types(bs@.subrange(0, k as int)),
                        decreases bs@.len() - k,
                    {
                        push_types(types, &bs[k].if_item_type);
                        proof {
                            let u = bs@.subrange(0, k + 1);
                            assert(u.drop_last() =~= bs@.subrange(0, k as int));
                            assert(types@ =~= tests_start + test_types(u));
                        }
                        k = k + 1;
                    }
                    proof {
                        assert(bs@.subrange(0, bs@.len() as int) =~= bs@);
                        assert(decreases_to!(nodes@[i as int] => c.then_branch));
                        assert(decreases_to!(c.then_branch => c.then_branch@));
                    }
                    self.collect_types_recursive(c.then_branch.as_slice(), types);
                    let ghost children_start = types@;
                    let mut k: usize = 0;
                    proof {
                        assert(types@ =~= children_start + child_types(bs@.subrange(0, 0)));
                    }
                    while k < bs.len()
                        invariant
                            k <= bs@.len(),
                            bs == &c.else_if_branches,
                            nodes@[i as int] == CslnNode::Condition(*c),
                            decreases_to!(nodes@ => nodes@[i as int]),
                            types@ == children_start + child_types(bs@.subrange(0, k as int)),
                        decreases bs@.len() - k,
                    {
                        proof {
                            assert(decreases_to!(nodes@[i as int] => nodes@[i as int]->Condition_0));
                            assert(decreases_to!(nodes@[i as int]->Condition_0 => c.else_if_branches));
                            assert(decreases_to!(c.else_if_branches => bs@));
                            assert(decreases_to!(bs@ => bs@[k as int]));
                            assert(decreases_to!(bs@[k as int] => bs@[k as int].children));
                            assert(decreases_to!(bs@[k as int].children => bs@[k as int].children@));
                        }
                        let ghost mid = types@;
                        self.collect_types_recursive(bs[k].children.as_slice(), types);
                        proof {
                            let u = bs@.subrange(0, k + 1);
                            assert(u.drop_last() =~= bs@.subrange(0, k as int));
                            assert(types@ =~= children_start + child_types(u));
                        }
                        k = k + 1;
                    }
                    proof {
                        assert(bs@.subrange(0, bs@.len() as int) =~= bs@);
                    }
                    match &c.else_branch {
                        Some(e) => {
                            proof {
                                assert(decreases_to!(nodes@[i as int] => c.else_branch));
                                assert(decreases_to!(c.else_branch => *e));
                                assert(decreases_to!(*e => e@));
                            }
                            self.collect_types_recursive(e.as_slice(), types);
                        },
                        None => {},
                    }
                    proof {
                        assert(types@ =~= before + node_types(nodes@[i as int]));
                    }
                },
                _ => {
                    proof {
                        assert(types@ =~= before + node_types(nodes@[i as int]));
                    }
                },
            }
            i = i + 1;
        }
        proof {
            assert(nodes@.subrange(0, nodes@.len() as int) =~= nodes@);
        }
    }

    /// The item types that conditions among `nodes` test, each once, in
    /// the order of their names (`types_with_branches`).
    pub fn collect_types_with_branches(&self, nodes: &[CslnNode]) -> (r: Vec<ItemType>)
        ensures
            r@ == types_with_branches(nodes@),
    {
        let mut found: Vec<ItemType> = Vec::new();
        self.collect_types_recursive(nodes, &mut found);
        proof {
            assert(found@ =~= branch_types(nodes@));
        }
        let all = all_types_by_name();
        let ghost p = |t: ItemType| branch_types(nodes@).contains(t);
        let mut r: Vec<ItemType> = Vec::new();
        let mut i: usize = 0;
        proof {
            assert(all@.subrange(0, 0) =~= Seq::<ItemType>::empty());
            assert(r@ =~= types_where(all@.subrange(0, 0), p));
        }
        while i < all.len()
            invariant
                i <= all@.len(),
                all@ == types_by_name(),
                found@ == branch_types(nodes@),
                p == (|t: ItemType| branch_types(nodes@).contains(t)),
                r@ == types_where(all@.subrange(0, i as int), p),
            decreases all@.len() - i,
        {
            let t = all[i];
            let ghost before = r@;
            proof {
                let u = all@.subrange(0, i + 1);
                assert(u.drop_last() =~= all@.subrange(0, i as int));
                assert(u.last() == t);
            }
            if holds_type(&found, t) {
                r.push(t);
                proof {
                    assert(r@ =~= types_where(all@.subrange(0, i + 1), p));
                }
            } else {
                proof {
                    assert(r@ =~= types_where(all@.subrange(0, i + 1), p));
                }
            }
            i = i + 1;
        }
        proof {
            assert(all@.subrange(0, all@.len() as int) =~= all@);
        }
        r
    }

    /// The outlier types whose cleaned template differs from `default`,
    /// each with that template, in the order of their names
    /// (`selective_types`, `type_template`).
    pub fn generate_selective_type_templates(
        &self,
        nodes: &[CslnNode],
        default_template: &Vec<TemplateComponent>,
    ) -> (r: Vec<(TypeSelector, Vec<TemplateComponent>)>)
        ensures
            templates_for(r@, nodes@, selective_types(nodes@, tcs_view(default_template@))),
    {
        let found = self.collect_types_with_branches(nodes);
        let ghost default = tcs_view(default_template@);
        let outliers = vec![
            ItemType::EntryEncyclopedia,
            ItemType::LegalCase,
            ItemType::Patent,
            ItemType::PersonalCommunication,
            ItemType::Webpage,
        ];
        proof {
            assert(outliers@ =~= outlier_types());
        }
        let ghost pc = |t: ItemType| t == ItemType::EntryEncyclopedia || types_with_branches(nodes@).contains(t);
        let ghost pt = |t: ItemType| gets_template(nodes@, t, default);
        let mut candidates: Vec<ItemType> = Vec::new();
        let mut i: usize = 0;
        proof {
            assert(outliers@.subrange(0, 0) =~= Seq::<ItemType>::empty());
            assert(candidates@ =~= types_where(outliers@.subrange(0, 0), pc));
        }
        while i < outliers.len()
            invariant
                i <= outliers@.len(),
                outliers@ == outlier_types(),
                found@ == types_with_branches(nodes@),
                pc == (|t: ItemType| t == ItemType::EntryEncyclopedia || types_with_branches(nodes@).contains(t)),
                candidates@ == types_where(outliers@.subrange(0, i as int), pc),
            decreases outliers@.len() - i,
        {
            let t = outliers[i];
            proof {
                let u = outliers@.subrange(0, i + 1);
                assert(u.drop_last() =~= outliers@.subrange(0, i as int));
                assert(u.last() == t);
            }
            let ee = match t {
                ItemType::EntryEncyclopedia => true,
                _ => false,
            };
            if ee || holds_type(&found, t) {
                candidates.push(t);
            }
            proof {
                assert(candidates@ =~= types_where(outliers@.subrange(0, i + 1), pc));
            }
            i = i + 1;
        }
        proof {
            assert(outliers@.subrange(0, outliers@.len() as int) =~= outliers@);
            assert(candidates@ == candidate_types(nodes@));
        }
        let mut r: Vec<(TypeSelector, Vec<TemplateComponent>)> = Vec::new();
        let ghost kept: Seq<ItemType> = Seq::empty();
        let mut j: usize = 0;
        proof {
            assert(candidates@.subrange(0, 0) =~= Seq::<ItemType>::empty());
            assert(kept =~= types_where(candidates@.subrange(0, 0), pt));
        }
        while j < candidates.len()
            invariant
                j <= candidates@.len(),
                default == tcs_view(default_template@),
                pt == (|t: ItemType| gets_template(nodes@, t, default)),
                kept == types_where(candidates@.subrange(0, j as int), pt),
                templates_for(r@, nodes@, kept),
            decreases candidates@.len() - j,
        {
            let t = candidates[j];
            proof {
                let u = candidates@.subrange(0, j + 1);
                assert(u.drop_last() =~= candidates@.subrange(0, j as int));
                assert(u.last() == t);
            }
            let mut tt = self.compile_for_type(nodes, &t);
            let ghost raw = tcs_view(tt@);
            if tt.len() == 0 {
                proof {
                    assert(!gets_template(nodes@, t, default));
                    assert(types_where(candidates@.subrange(0, j + 1), pt) =~= kept);
                }
                j = j + 1;
                continue;
            }
            deduplicate_numbers_in_lists(&mut tt);
            deduplicate_dates_in_lists(&mut tt);
            self.fix_duplicate_variables(&mut tt);
            let legal = match t {
                ItemType::LegalCase => true,
                _ => false,
            };
            if legal {
                self.postprocess_legal_case_template(&mut tt);
            }
            proof {
                assert(tcs_view(tt@) == type_template(nodes@, t));
            }
            if components_eq(&tt, default_template) {
                proof {
                    assert(!gets_template(nodes@, t, default));
                    assert(types_where(candidates@.subrange(0, j + 1), pt) =~= kept);
                }
                j = j + 1;
                continue;
            }
            let name = self.item_type_to_string(&t);
            let ghost old_r = r@;
            r.push((TypeSelector::Single(name), tt));
            proof {
                assert(gets_template(nodes@, t, default));
                let k2 = kept.push(t);
                assert(types_where(candidates@.subrange(0, j + 1), pt) =~= k2);
                assert forall|m: int| 0 <= m < r@.len() implies selector_view(#[trigger] r@[m].0) == SelV::Single(
                    item_type_name(k2[m]),
                ) && tcs_view(r@[m].1@) == type_template(nodes@, k2[m]) by {
                    if m < old_r.len() {
                        assert(r@[m] == old_r[m]);
                    }
                }
                kept = k2;
            }
            j = j + 1;
        }
        proof {
            assert(candidates@.subrange(0, candidates@.len() as int) =~= candidates@);
        }
        r
    }

    /// Compiles the bibliography: the default template cleaned by the
    /// passes (`default_bibliography`), and a template of its own for each
    /// outlier type whose cleaned template differs from it
    /// (`selective_types`).
    pub fn compile_bibliography_with_types(&self, nodes: &[CslnNode], _is_numeric: bool) -> (r: (
        Vec<TemplateComponent>,
        Vec<(TypeSelector, Vec<TemplateComponent>)>,
    ))
        ensures
            tcs_view(r.0@) == default_bibliography(nodes@),
            templates_for(r.1@, nodes@, selective_types(nodes@, default_bibliography(nodes@))),
    {
        let mut default_template = self.compile(nodes);
        deduplicate_numbers_in_lists(&mut default_template);
        deduplicate_dates_in_lists(&mut default_template);
        self.fix_duplicate_variables(&mut default_template);
        let type_templates = self.generate_selective_type_templates(nodes, &default_template);
        (default_template, type_templates)
    }
}

} // verus!
