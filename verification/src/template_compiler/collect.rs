//! Collecting the components of a node tree, each with the branch context
//! it was found in and the position of the macro call it came from.

use vstd::prelude::*;
use crate::template_compiler::TemplateCompiler;
use crate::legacy::{ConditionBlock, CslnNode, ElseIfBranch, GroupBlock, ItemType};
use crate::template::{DelimiterPunctuation, Rendering, TemplateComponent, TemplateList, WrapPunctuation};
use crate::template_compiler::nodes::{
    converted_rendering, node_component, wrap_split,
};
use crate::template_view::{lemma_tcs_view, rendering_view, tc_view, tcs_view, ListV, RenderingV, TCV};
use crate::text::{append_str, opt_view, str_eq, to_owned_string};
use crate::vecs::copy_vec;

verus! {

/// Where a component was found: in branches for some item types only, or
/// in a branch that applies to every type.
pub enum BranchContext {
    TypeSpecific(Vec<ItemType>),
    Default,
}

impl BranchContext {
    /// A copy with the same contents.
    pub fn copy(&self) -> (r: Self)
        ensures
            ctx_view(r) == ctx_view(*self),
    {
        match self {
            BranchContext::TypeSpecific(v) => BranchContext::TypeSpecific(copy_vec(v)),
            BranchContext::Default => BranchContext::Default,
        }
    }
}

/// A branch context by its contents.
pub enum ContextV {
    TypeSpecific(Seq<ItemType>),
    Default,
}

/// The contents of a branch context.
pub open spec fn ctx_view(c: BranchContext) -> ContextV {
    match c {
        BranchContext::TypeSpecific(v) => ContextV::TypeSpecific(v@),
        BranchContext::Default => ContextV::Default,
    }
}

/// A component as found: with its branch context and source order.
pub struct ComponentOccurrence {
    pub component: TemplateComponent,
    pub context: BranchContext,
    pub source_order: Option<usize>,
}

/// An occurrence by its contents.
pub struct OccurrenceV {
    pub component: TCV,
    pub context: ContextV,
    pub source_order: Option<usize>,
}

/// The contents of an occurrence.
pub open spec fn occ_view(o: ComponentOccurrence) -> OccurrenceV {
    OccurrenceV { component: tc_view(o.component), context: ctx_view(o.context), source_order: o.source_order }
}

/// The contents of a sequence of occurrences.
pub open spec fn occs_view(s: Seq<ComponentOccurrence>) -> Seq<OccurrenceV> {
    s.map_values(|o: ComponentOccurrence| occ_view(o))
}

/// A wrap with the affixes left around it.
pub type WrapTriple = (Option<WrapPunctuation>, Option<String>, Option<String>);

/// A wrap and its affixes by their contents.
pub type WrapV = (Option<WrapPunctuation>, Option<Seq<char>>, Option<Seq<char>>);

/// The contents of a wrap and its affixes.
pub open spec fn wrap_view(w: WrapTriple) -> WrapV {
    (w.0, opt_view(w.1), opt_view(w.2))
}

/// The rendering of a component.
pub open spec fn tcv_rendering(c: TCV) -> RenderingV {
    match c {
        TCV::Contributor(_, r, _) => r,
        TCV::Date(_, _, r, _) => r,
        TCV::Title(_, r, _) => r,
        TCV::Number(_, r, _) => r,
        TCV::Variable(_, r, _) => r,
        TCV::List(l) => l.rendering,
        TCV::Term(_, r, _) => r,
    }
}

/// A component with its rendering replaced by `r`.
pub open spec fn with_rendering(c: TCV, r: RenderingV) -> TCV {
    match c {
        TCV::Contributor(b, _, o) => TCV::Contributor(b, r, o),
        TCV::Date(b, f, _, o) => TCV::Date(b, f, r, o),
        TCV::Title(b, _, o) => TCV::Title(b, r, o),
        TCV::Number(b, _, o) => TCV::Number(b, r, o),
        TCV::Variable(b, _, o) => TCV::Variable(b, r, o),
        TCV::List(l) => TCV::List(ListV { rendering: r, ..l }),
        TCV::Term(b, _, o) => TCV::Term(b, r, o),
    }
}

/// A component whose prefix gets `t` in front (or becomes `t`).
pub open spec fn prefixed(c: TCV, t: Seq<char>) -> TCV {
    let r = tcv_rendering(c);
    with_rendering(
        c,
        RenderingV {
            prefix: Some(
                match r.prefix {
                    Some(p) => t + p,
                    None => t,
                },
            ),
            ..r
        },
    )
}

/// A rendering under a group's wrap: the wrap fills an unset wrap; with a
/// wrap the affixes fill unset inner affixes, without one unset outer ones.
pub open spec fn wrap_applied(r: RenderingV, w: WrapV) -> RenderingV {
    let wrap = if r.wrap is None && w.0 is Some {
        w.0
    } else {
        r.wrap
    };
    if w.0 is Some {
        RenderingV {
            wrap,
            inner_prefix: if r.inner_prefix is None && w.1 is Some {
                w.1
            } else {
                r.inner_prefix
            },
            inner_suffix: if r.inner_suffix is None && w.2 is Some {
                w.2
            } else {
                r.inner_suffix
            },
            ..r
        }
    } else {
        RenderingV {
            wrap,
            prefix: if r.prefix is None && w.1 is Some {
                w.1
            } else {
                r.prefix
            },
            suffix: if r.suffix is None && w.2 is Some {
                w.2
            } else {
                r.suffix
            },
            ..r
        }
    }
}

/// A component under a group's wrap: lists and terms are left as they are.
pub open spec fn wrapped_component(c: TCV, w: WrapV) -> TCV {
    if c is List || c is Term {
        c
    } else {
        with_rendering(c, wrap_applied(tcv_rendering(c), w))
    }
}

/// A component under an inherited wrap: only dates take it, and only
/// when there is a wrap.
pub open spec fn date_wrapped(c: TCV, w: WrapV) -> TCV {
    if w.0 is Some && c is Date {
        wrapped_component(c, w)
    } else {
        c
    }
}

/// The source order of a node, where it has one.
pub open spec fn node_source_order(n: CslnNode) -> Option<usize> {
    match n {
        CslnNode::Variable(v) => v.source_order,
        CslnNode::Date(d) => d.source_order,
        CslnNode::Names(x) => x.source_order,
        CslnNode::Group(g) => g.source_order,
        CslnNode::Term(t) => t.source_order,
        _ => None,
    }
}

/// The context of a branch for `types`: every type when there is none.
pub open spec fn branch_context(types: Seq<ItemType>) -> ContextV {
    if types.len() == 0 {
        ContextV::Default
    } else {
        ContextV::TypeSpecific(types)
    }
}

/// Whether a group delimiter makes a small group a list: "", "none", ": ",
/// " " or ", ".
pub open spec fn is_structural_delimiter(d: Option<String>) -> bool {
    match d {
        Some(s) => s@ == ""@ || s@ == "none"@ || s@ == ": "@ || s@ == " "@ || s@ == ", "@,
        None => false,
    }
}

/// The punctuation of a structural group delimiter, as
/// `DelimiterPunctuation::from_csl_string` reads it.
pub open spec fn structural_delimiter(d: Seq<char>) -> DelimiterPunctuation {
    if d == ": "@ {
        DelimiterPunctuation::Colon
    } else if d == " "@ {
        DelimiterPunctuation::Space
    } else if d == ", "@ {
        DelimiterPunctuation::Comma
    } else {
        DelimiterPunctuation::Empty
    }
}

/// The components of a sequence of occurrences.
pub open spec fn occ_components(s: Seq<OccurrenceV>) -> Seq<TCV> {
    s.map_values(|o: OccurrenceV| o.component)
}

/// The occurrences of `nodes` from position `i` on, under the wrap `w` and
/// the context `ctx`:
/// - a text node followed by a node that compiles on its own puts its text
///   in front of that component's prefix, and both nodes are consumed;
/// - a node that compiles on its own gives its component;
/// - a group gives its children's occurrences, or one list of their
///   components when it has two or three of them, a structural delimiter
///   and no wrap of its own;
/// - a condition gives the occurrences of its branches in order;
/// - dates take an inherited wrap; each occurrence keeps its node's
///   source order.
#[verifier::opaque]
pub open spec fn collected(nodes: Seq<CslnNode>, i: int, w: WrapV, ctx: ContextV) -> Seq<OccurrenceV>
    decreases nodes, nodes.len() - i,
{
    if i < 0 || i >= nodes.len() {
        Seq::empty()
    } else {
        let n = nodes[i];
        if n is Text && i + 1 < nodes.len() && node_component(nodes[i + 1]) is Some {
            seq![
                OccurrenceV {
                    component: date_wrapped(prefixed(node_component(nodes[i + 1])->Some_0, n->Text_value@), w),
                    context: ctx,
                    source_order: node_source_order(nodes[i + 1]),
                },
            ] + collected(nodes, i + 2, w, ctx)
        } else if node_component(n) is Some {
            seq![
                OccurrenceV {
                    component: date_wrapped(node_component(n)->Some_0, w),
                    context: ctx,
                    source_order: node_source_order(n),
                },
            ] + collected(nodes, i + 1, w, ctx)
        } else if n is Group {
            proof {
                assert(decreases_to!(nodes => nodes[i]));
            }
            group_collected(n->Group_0, w, ctx) + collected(nodes, i + 1, w, ctx)
        } else if n is Condition {
            proof {
                assert(decreases_to!(nodes => nodes[i]));
            }
            condition_collected(n->Condition_0, w) + collected(nodes, i + 1, w, ctx)
        } else {
            collected(nodes, i + 1, w, ctx)
        }
    }
}

/// Whether the node at `i` is a text that merges into the next node.
pub open spec fn text_merges(nodes: Seq<CslnNode>, i: int) -> bool {
    nodes[i] is Text && i + 1 < nodes.len() && node_component(nodes[i + 1]) is Some
}

/// What the node at `i` gives (see `collected`).
pub open spec fn step_head(nodes: Seq<CslnNode>, i: int, w: WrapV, ctx: ContextV) -> Seq<OccurrenceV> {
    let n = nodes[i];
    if text_merges(nodes, i) {
        seq![
            OccurrenceV {
                component: date_wrapped(prefixed(node_component(nodes[i + 1])->Some_0, n->Text_value@), w),
                context: ctx,
                source_order: node_source_order(nodes[i + 1]),
            },
        ]
    } else if node_component(n) is Some {
        seq![OccurrenceV { component: date_wrapped(node_component(n)->Some_0, w), context: ctx, source_order: node_source_order(n) }]
    } else if n is Group {
        group_collected(n->Group_0, w, ctx)
    } else if n is Condition {
        condition_collected(n->Condition_0, w)
    } else {
        Seq::empty()
    }
}

/// Where collecting goes on after the node at `i`.
pub open spec fn step_next(nodes: Seq<CslnNode>, i: int) -> int {
    if text_merges(nodes, i) {
        i + 2
    } else {
        i + 1
    }
}

/// One step of `collected`.
pub proof fn lemma_collected_step(nodes: Seq<CslnNode>, i: int, w: WrapV, ctx: ContextV)
    requires
        0 <= i < nodes.len(),
    ensures
        collected(nodes, i, w, ctx) == step_head(nodes, i, w, ctx) + collected(nodes, step_next(nodes, i), w, ctx),
{
    reveal(collected);
}

/// One step of `branches_collected`.
pub proof fn lemma_branches_step(bs: Seq<ElseIfBranch>, k: int, w: WrapV)
    ensures
        0 <= k < bs.len() ==> branches_collected(bs, k, w) == collected(
            bs[k].children@,
            0,
            w,
            branch_context(bs[k].if_item_type@),
        ) + branches_collected(bs, k + 1, w),
        k >= bs.len() ==> branches_collected(bs, k, w) == Seq::<OccurrenceV>::empty(),
{
    reveal(collected);
}

/// Nothing is collected past the end.
pub proof fn lemma_collected_end(nodes: Seq<CslnNode>, i: int, w: WrapV, ctx: ContextV)
    requires
        i >= nodes.len(),
    ensures
        collected(nodes, i, w, ctx) == Seq::<OccurrenceV>::empty(),
{
    reveal(collected);
}

/// The wrap a group reads off its own affixes.
pub open spec fn own_wrap(g: GroupBlock) -> WrapV {
    wrap_split(opt_view(g.formatting.prefix), opt_view(g.formatting.suffix))
}

/// The wrap a group's children are collected under: its own, else `w`.
pub open spec fn effective_wrap(g: GroupBlock, w: WrapV) -> WrapV {
    if own_wrap(g).0 is Some {
        own_wrap(g)
    } else {
        w
    }
}

/// What a group gives, from its children's occurrences `inner`: one list
/// of their components when there are two or three, the delimiter is
/// structural and the group has no wrap of its own; `inner` otherwise.
pub open spec fn group_result(g: GroupBlock, inner: Seq<OccurrenceV>, ctx: ContextV) -> Seq<OccurrenceV> {
    let items = occ_components(inner);
    if is_structural_delimiter(g.delimiter) && 2 <= items.len() <= 3 && own_wrap(g).0 is None {
        seq![
            OccurrenceV {
                component: TCV::List(
                    ListV {
                        items,
                        delimiter: Some(structural_delimiter(g.delimiter->Some_0@)),
                        rendering: converted_rendering(g.formatting),
                        overrides: None,
                    },
                ),
                context: ctx,
                source_order: g.source_order,
            },
        ]
    } else {
        inner
    }
}

/// The occurrences of a group (see `collected`).
pub open spec fn group_collected(g: GroupBlock, w: WrapV, ctx: ContextV) -> Seq<OccurrenceV>
    decreases g, 0int,
{
    proof {
        assert(decreases_to!(g => g.children));
        assert(decreases_to!(g.children => g.children@));
    }
    group_result(g, collected(g.children@, 0, effective_wrap(g, w), ctx), ctx)
}

/// `group_collected` unfolded.
pub proof fn lemma_group_collected(g: GroupBlock, w: WrapV, ctx: ContextV)
    ensures
        group_collected(g, w, ctx) == group_result(g, collected(g.children@, 0, effective_wrap(g, w), ctx), ctx),
{
    reveal(collected);
}

/// The occurrences of a condition's else-branch, for every type.
pub open spec fn else_collected(c: ConditionBlock, w: WrapV) -> Seq<OccurrenceV> {
    if c.else_branch is Some {
        collected(c.else_branch->Some_0@, 0, w, ContextV::Default)
    } else {
        Seq::empty()
    }
}

/// The occurrences of a condition: its then-branch (for its types), its
/// else-if branches (each for its types) and its else-branch (for every
/// type), in order.
pub open spec fn condition_collected(c: ConditionBlock, w: WrapV) -> Seq<OccurrenceV>
    decreases c, 0int,
{
    proof {
        assert(decreases_to!(c => c.then_branch));
        assert(decreases_to!(c.then_branch => c.then_branch@));
        assert(decreases_to!(c => c.else_if_branches));
        assert(decreases_to!(c.else_if_branches => c.else_if_branches@));
    }
    collected(c.then_branch@, 0, w, branch_context(c.if_item_type@)) + branches_collected(
        c.else_if_branches@,
        0,
        w,
    ) + match c.else_branch {
        Some(e) => {
            proof {
                assert(decreases_to!(c => c.else_branch));
                assert(decreases_to!(c.else_branch => e));
                assert(decreases_to!(e => e@));
            }
            collected(e@, 0, w, ContextV::Default)
        },
        None => Seq::empty(),
    }
}

/// `condition_collected` unfolded.
pub proof fn lemma_condition_collected(c: ConditionBlock, w: WrapV)
    ensures
        condition_collected(c, w) == collected(c.then_branch@, 0, w, branch_context(c.if_item_type@))
            + branches_collected(c.else_if_branches@, 0, w) + else_collected(c, w),
{
    reveal(collected);
}

/// The occurrences of else-if branches from position `k` on.
pub open spec fn branches_collected(bs: Seq<ElseIfBranch>, k: int, w: WrapV) -> Seq<OccurrenceV>
    decreases bs, bs.len() - k,
{
    if k < 0 || k >= bs.len() {
        Seq::empty()
    } else {
        proof {
            assert(decreases_to!(bs => bs[k]));
            assert(decreases_to!(bs[k] => bs[k].children));
            assert(decreases_to!(bs[k].children => bs[k].children@));
        }
        collected(bs[k].children@, 0, w, branch_context(bs[k].if_item_type@)) + branches_collected(bs, k + 1, w)
    }
}

impl TemplateCompiler {
    /// The rendering of a component (`tcv_rendering`).
    pub fn get_component_rendering(&self, component: &TemplateComponent) -> (r: Rendering)
        ensures
            rendering_view(r) == tcv_rendering(tc_view(*component)),
    {
        component.rendering().clone()
    }

    /// Replaces the rendering of a component (`with_rendering`).
    pub fn set_component_rendering(&self, component: &mut TemplateComponent, rendering: Rendering)
        ensures
            tc_view(*final(component)) == with_rendering(tc_view(*old(component)), rendering_view(rendering)),
    {
        match component {
            TemplateComponent::Contributor(x) => x.rendering = rendering,
            TemplateComponent::Date(x) => x.rendering = rendering,
            TemplateComponent::Title(x) => x.rendering = rendering,
            TemplateComponent::Number(x) => x.rendering = rendering,
            TemplateComponent::Variable(x) => x.rendering = rendering,
            TemplateComponent::List(x) => x.rendering = rendering,
            TemplateComponent::Term(x) => x.rendering = rendering,
        }
    }

    fn wrap_rendering(&self, r: &mut Rendering, w: &WrapTriple)
        ensures
            rendering_view(*final(r)) == wrap_applied(rendering_view(*old(r)), wrap_view(*w)),
    {
        if r.wrap.is_none() && w.0.is_some() {
            r.wrap = w.0;
        }
        if w.0.is_some() {
            if r.inner_prefix.is_none() && w.1.is_some() {
                r.inner_prefix = w.1.clone();
            }
            if r.inner_suffix.is_none() && w.2.is_some() {
                r.inner_suffix = w.2.clone();
            }
        } else {
            if r.prefix.is_none() && w.1.is_some() {
                r.prefix = w.1.clone();
            }
            if r.suffix.is_none() && w.2.is_some() {
                r.suffix = w.2.clone();
            }
        }
    }

    /// Puts a component under a group's wrap (`wrapped_component`).
    pub fn apply_wrap_to_component(&self, component: &mut TemplateComponent, group_wrap: &WrapTriple)
        ensures
            tc_view(*final(component)) == wrapped_component(tc_view(*old(component)), wrap_view(*group_wrap)),
    {
        match component {
            TemplateComponent::Date(x) => self.wrap_rendering(&mut x.rendering, group_wrap),
            TemplateComponent::Contributor(x) => self.wrap_rendering(&mut x.rendering, group_wrap),
            TemplateComponent::Title(x) => self.wrap_rendering(&mut x.rendering, group_wrap),
            TemplateComponent::Number(x) => self.wrap_rendering(&mut x.rendering, group_wrap),
            TemplateComponent::Variable(x) => self.wrap_rendering(&mut x.rendering, group_wrap),
            _ => {},
        }
    }

    /// The source order of a node (`node_source_order`).
    pub fn extract_source_order(&self, node: &CslnNode) -> (r: Option<usize>)
        ensures
            r == node_source_order(*node),
    {
        match node {
            CslnNode::Variable(v) => v.source_order,
            CslnNode::Date(d) => d.source_order,
            CslnNode::Names(n) => n.source_order,
            CslnNode::Group(g) => g.source_order,
            CslnNode::Term(t) => t.source_order,
            _ => None,
        }
    }

    pub(crate) fn copy_wrap(&self, w: &WrapTriple) -> (r: WrapTriple)
        ensures
            wrap_view(r) == wrap_view(*w),
    {
        (w.0, w.1.clone(), w.2.clone())
    }

    /// Puts `text` in front of the prefix of `component` (`prefixed`).
    pub(crate) fn put_text_in_front(&self, component: &mut TemplateComponent, text: &String)
        ensures
            tc_view(*final(component)) == prefixed(tc_view(*old(component)), text@),
    {
        let mut rendering = self.get_component_rendering(component);
        let new_prefix = match &rendering.prefix {
            Some(p) => append_str(text.clone(), p.as_str()),
            None => text.clone(),
        };
        rendering.prefix = Some(new_prefix);
        self.set_component_rendering(component, rendering);
    }

    /// Puts a date under an inherited wrap (`date_wrapped`).
    pub(crate) fn wrap_if_date(&self, component: &mut TemplateComponent, inherited: &WrapTriple)
        ensures
            tc_view(*final(component)) == date_wrapped(tc_view(*old(component)), wrap_view(*inherited)),
    {
        let is_date = match component {
            TemplateComponent::Date(_) => true,
            _ => false,
        };
        if inherited.0.is_some() && is_date {
            self.apply_wrap_to_component(component, inherited);
        }
    }

    pub(crate) fn is_structural(&self, d: &Option<String>) -> (r: bool)
        ensures
            r == is_structural_delimiter(*d),
    {
        match d {
            Some(s) => str_eq(s.as_str(), "") || str_eq(s.as_str(), "none") || str_eq(s.as_str(), ": ") || str_eq(
                s.as_str(),
                " ",
            ) || str_eq(s.as_str(), ", "),
            None => false,
        }
    }

    pub(crate) fn structural_punctuation(&self, d: &String) -> (r: DelimiterPunctuation)
        ensures
            r == structural_delimiter(d@),
    {
        if str_eq(d.as_str(), ": ") {
            DelimiterPunctuation::Colon
        } else if str_eq(d.as_str(), " ") {
            DelimiterPunctuation::Space
        } else if str_eq(d.as_str(), ", ") {
            DelimiterPunctuation::Comma
        } else {
            DelimiterPunctuation::Empty
        }
    }

    /// The components of occurrences, in order.
    fn take_components(&self, occurrences: Vec<ComponentOccurrence>) -> (r: Vec<TemplateComponent>)
        ensures
            tcs_view(r@) == occ_components(occs_view(occurrences@)),
    {
        let ghost all = occurrences@;
        let mut rest = occurrences;
        let mut out: Vec<TemplateComponent> = Vec::new();
        proof {
            assert(occ_components(occs_view(all.subrange(0, 0))) =~= Seq::<TCV>::empty());
            assert(all.subrange(0, all.len() as int) =~= all);
        }
        while rest.len() > 0
            invariant
                out@.len() + rest@.len() == all.len(),
                rest@ == all.subrange(out@.len() as int, all.len() as int),
                tcs_view(out@) == occ_components(occs_view(all.subrange(0, out@.len() as int))),
            decreases rest@.len(),
        {
            let ghost k: int = out@.len() as int;
            let o = rest.remove(0);
            let ghost before = out@;
            out.push(o.component);
            proof {
                assert(out@.drop_last() =~= before);
                assert(rest@ =~= all.subrange(k + 1, all.len() as int));
                assert(o == all[k]);
                assert(occ_components(occs_view(all.subrange(0, k + 1))) =~= occ_components(
                    occs_view(all.subrange(0, k)),
                ).push(tc_view(o.component)));
            }
        }
        out
    }

    /// Collects the occurrences of `nodes` (as `collected` says), after those
    /// already in `occurrences`.
    pub fn collect_occurrences(&self, 
        nodes: &[CslnNode],
        inherited: &WrapTriple,
        context: &BranchContext,
        occurrences: &mut Vec<ComponentOccurrence>,
    )
        ensures
            occs_view(final(occurrences)@) == occs_view(old(occurrences)@) + collected(
                nodes@,
                0,
                wrap_view(*inherited),
                ctx_view(*context),
            ),
        decreases nodes@, 1nat,
    {
        let ghost w = wrap_view(*inherited);
        let ghost ctx = ctx_view(*context);
        let ghost target = occs_view(occurrences@) + collected(nodes@, 0, w, ctx);
        let mut i: usize = 0;
        while i < nodes.len()
            invariant
                i <= nodes@.len(),
                w == wrap_view(*inherited),
                ctx == ctx_view(*context),
                occs_view(occurrences@) + collected(nodes@, i as int, w, ctx) == target,
            decreases nodes@.len() - i,
        {
            proof {
                lemma_collected_step(nodes@, i as int, w, ctx);
            }
            let ghost before = occs_view(occurrences@);
            let ghost head = step_head(nodes@, i as int, w, ctx);
            let ghost next = step_next(nodes@, i as int);
            let next_i = self.collect_step(nodes, i, inherited, context, occurrences);
            proof {
                assert(before + (head + collected(nodes@, next, w, ctx)) =~= (before + head) + collected(nodes@, next, w, ctx));
            }
            i = next_i;
        }
        proof {
            lemma_collected_end(nodes@, i as int, w, ctx);
            assert(occs_view(occurrences@) + Seq::<OccurrenceV>::empty() =~= occs_view(occurrences@));
        }
    }

    /// Collects what the node at `i` gives (`step_head`) and returns where to
    /// go on (`step_next`).
    fn collect_step(&self, 
        nodes: &[CslnNode],
        i: usize,
        inherited: &WrapTriple,
        context: &BranchContext,
        occurrences: &mut Vec<ComponentOccurrence>,
    ) -> (r: usize)
        requires
            i < nodes@.len(),
        ensures
            r == step_next(nodes@, i as int),
            r <= nodes@.len(),
            occs_view(final(occurrences)@) == occs_view(old(occurrences)@) + step_head(
                nodes@,
                i as int,
                wrap_view(*inherited),
                ctx_view(*context),
            ),
        decreases nodes@, 0nat,
    {
        let ghost w = wrap_view(*inherited);
        let ghost ctx = ctx_view(*context);
        let ghost before = occs_view(occurrences@);
        let node = &nodes[i];
        if i + 1 < nodes.len() {
            if let CslnNode::Text { value } = node {
                let next = self.compile_node(&nodes[i + 1]);
                if let Some(mut comp) = next {
                    self.put_text_in_front(&mut comp, value);
                    self.wrap_if_date(&mut comp, inherited);
                    let source_order = self.extract_source_order(&nodes[i + 1]);
                    let ghost o = OccurrenceV { component: tc_view(comp), context: ctx, source_order };
                    occurrences.push(ComponentOccurrence { component: comp, context: context.copy(), source_order });
                    proof {
                        assert(occs_view(occurrences@) =~= before + seq![o]);
                    }
                    return i + 2;
                }
            }
        }
        match self.compile_node(node) {
            Some(mut comp) => {
                self.wrap_if_date(&mut comp, inherited);
                let source_order = self.extract_source_order(node);
                let ghost o = OccurrenceV { component: tc_view(comp), context: ctx, source_order };
                occurrences.push(ComponentOccurrence { component: comp, context: context.copy(), source_order });
                proof {
                    assert(occs_view(occurrences@) =~= before + seq![o]);
                }
            },
            None => {
                match node {
                    CslnNode::Group(g) => {
                        proof {
                            assert(decreases_to!(nodes@ => nodes@[i as int]));
                        }
                        self.collect_group(g, inherited, context, occurrences);
                    },
                    CslnNode::Condition(c) => {
                        proof {
                            assert(decreases_to!(nodes@ => nodes@[i as int]));
                        }
                        self.collect_condition(c, inherited, occurrences);
                    },
                    _ => {
                        assert(occs_view(occurrences@) =~= before + Seq::<OccurrenceV>::empty());
                    },
                }
            },
        }
        i + 1
    }

    /// Collects the occurrences of a group (`group_collected`).
    fn collect_group(&self, 
        g: &GroupBlock,
        inherited: &WrapTriple,
        context: &BranchContext,
        occurrences: &mut Vec<ComponentOccurrence>,
    )
        ensures
            occs_view(final(occurrences)@) == occs_view(old(occurrences)@) + group_collected(
                *g,
                wrap_view(*inherited),
                ctx_view(*context),
            ),
        decreases g, 2nat,
    {
        let gw = Self::infer_wrap_from_affixes(&g.formatting.prefix, &g.formatting.suffix);
        let effective = if gw.0.is_some() {
            self.copy_wrap(&gw)
        } else {
            self.copy_wrap(inherited)
        };
        let mut inner: Vec<ComponentOccurrence> = Vec::new();
        proof {
            assert(decreases_to!(g => g.children));
            assert(decreases_to!(g.children => g.children@));
        }
        self.collect_occurrences(g.children.as_slice(), &effective, context, &mut inner);
        let ghost inner_view = occs_view(inner@);
        proof {
            lemma_group_collected(*g, wrap_view(*inherited), ctx_view(*context));
            assert(wrap_view(effective) == effective_wrap(*g, wrap_view(*inherited)));
            assert(inner_view == collected(g.children@, 0, wrap_view(effective), ctx_view(*context)));
            assert(occ_components(inner_view).len() == inner@.len());
        }
        let ghost before = occurrences@;
        if self.is_structural(&g.delimiter) && inner.len() >= 2 && inner.len() <= 3 && gw.0.is_none() {
            let delimiter = match &g.delimiter {
                Some(d) => Some(self.structural_punctuation(d)),
                None => None,
            };
            let items = self.take_components(inner);
            let list = TemplateComponent::List(
                TemplateList { items, delimiter, rendering: self.convert_formatting(&g.formatting), overrides: None },
            );
            let ghost o = OccurrenceV { component: tc_view(list), context: ctx_view(*context), source_order: g.source_order };
            occurrences.push(ComponentOccurrence { component: list, context: context.copy(), source_order: g.source_order });
            proof {
                assert(occs_view(occurrences@) =~= occs_view(before) + seq![o]);
                assert(o.component == TCV::List(
                    ListV {
                        items: occ_components(inner_view),
                        delimiter: Some(structural_delimiter(g.delimiter->Some_0@)),
                        rendering: converted_rendering(g.formatting),
                        overrides: None,
                    },
                ));
                assert(group_collected(*g, wrap_view(*inherited), ctx_view(*context)) == seq![o]);
            }
        } else {
            occurrences.append(&mut inner);
            proof {
                assert(occs_view(occurrences@) =~= occs_view(before) + inner_view);
                assert(group_collected(*g, wrap_view(*inherited), ctx_view(*context)) == inner_view);
            }
        }
    }

    fn context_for(&self, types: &Vec<ItemType>) -> (r: BranchContext)
        ensures
            ctx_view(r) == branch_context(types@),
    {
        if types.len() == 0 {
            BranchContext::Default
        } else {
            BranchContext::TypeSpecific(copy_vec(types))
        }
    }

    /// Collects the occurrences of a condition (`condition_collected`).
    fn collect_condition(&self, c: &ConditionBlock, inherited: &WrapTriple, occurrences: &mut Vec<ComponentOccurrence>)
        ensures
            occs_view(final(occurrences)@) == occs_view(old(occurrences)@) + condition_collected(
                *c,
                wrap_view(*inherited),
            ),
        decreases c, 2nat,
    {
        let ghost w = wrap_view(*inherited);
        let ghost start = occs_view(occurrences@);
        let then_ctx = self.context_for(&c.if_item_type);
        proof {
            assert(decreases_to!(c => c.then_branch));
            assert(decreases_to!(c.then_branch => c.then_branch@));
        }
        self.collect_occurrences(c.then_branch.as_slice(), inherited, &then_ctx, occurrences);
        let ghost mid = occs_view(occurrences@);
        let ghost bs = c.else_if_branches@;
        let mut k: usize = 0;
        while k < c.else_if_branches.len()
            invariant
                k <= bs.len(),
                bs == c.else_if_branches@,
                w == wrap_view(*inherited),
                occs_view(occurrences@) + branches_collected(bs, k as int, w) == mid + branches_collected(bs, 0, w),
            decreases bs.len() - k,
        {
            let b = &c.else_if_branches[k];
            let ctx = self.context_for(&b.if_item_type);
            proof {
                assert(decreases_to!(c => c.else_if_branches));
                assert(decreases_to!(c.else_if_branches => c.else_if_branches@));
                assert(decreases_to!(c.else_if_branches@ => c.else_if_branches@[k as int]));
                assert(decreases_to!(c.else_if_branches@[k as int] => c.else_if_branches@[k as int].children));
                assert(decreases_to!(c.else_if_branches@[k as int].children => c.else_if_branches@[k as int].children@));
            }
            let ghost before = occs_view(occurrences@);
            self.collect_occurrences(b.children.as_slice(), inherited, &ctx, occurrences);
            proof {
                lemma_branches_step(bs, k as int, w);
                let x = collected(bs[k as int].children@, 0, w, branch_context(bs[k as int].if_item_type@));
                assert(branches_collected(bs, k as int, w) == x + branches_collected(bs, k + 1, w));
                assert(before + (x + branches_collected(bs, k + 1, w)) =~= (before + x) + branches_collected(bs, k + 1, w));
            }
            k = k + 1;
        }
        let ghost after_branches = occs_view(occurrences@);
        proof {
            lemma_branches_step(bs, k as int, w);
            assert(after_branches + Seq::<OccurrenceV>::empty() =~= after_branches);
            assert(after_branches == mid + branches_collected(bs, 0, w));
            assert(mid == start + collected(c.then_branch@, 0, w, branch_context(c.if_item_type@)));
        }
        match &c.else_branch {
            Some(e) => {
                proof {
                    assert(decreases_to!(c => c.else_branch));
                    assert(decreases_to!(c.else_branch => c.else_branch->Some_0));
                    assert(decreases_to!(c.else_branch->Some_0 => c.else_branch->Some_0@));
                }
                self.collect_occurrences(e.as_slice(), inherited, &BranchContext::Default, occurrences);
            },
            None => {},
        }
        proof {
            let e = if c.else_branch is Some {
                collected(c.else_branch->Some_0@, 0, w, ContextV::Default)
            } else {
                Seq::<OccurrenceV>::empty()
            };
            assert(occs_view(occurrences@) == after_branches + e);
            lemma_condition_collected(*c, w);
            assert(e == else_collected(*c, w));
            assert(occs_view(occurrences@) =~= start + condition_collected(*c, w));
        }
    }

}

} // verus!
