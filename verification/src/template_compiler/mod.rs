//! Compilation of legacy node trees into template components.

pub mod bib_sort;
pub mod bibliography;
pub mod collect;
pub mod copy;
pub mod duplicates;
pub mod for_type;
pub mod groups;
pub mod merge;
pub mod nodes;
pub mod same;
pub mod simple;
pub mod upgrade;
pub mod wrapped;

use vstd::prelude::*;
use crate::legacy::CslnNode;
use crate::template::TemplateComponent;
use crate::template_compiler::collect::{collected, occs_view, tcv_rendering, BranchContext, ComponentOccurrence, ContextV};
use crate::template_compiler::merge::{merged_components, occurrence_key};
use crate::template_view::{lemma_tcs_view, tc_view, tcs_view, TCV};

verus! {

/// Compiles legacy node trees into template components.
pub struct TemplateCompiler;

/// What a node tree compiles to: its occurrences, collected with no wrap
/// in the default context, merged.
pub open spec fn compiled(nodes: Seq<CslnNode>) -> Seq<TCV> {
    merged_components(collected(nodes, 0, (None, None, None), ContextV::Default))
}

/// Whether two components render the same variable (or term).
pub open spec fn same_variable(a: TCV, b: TCV) -> bool {
    match (a, b) {
        (TCV::Contributor(x, _, _), TCV::Contributor(y, _, _)) => x.contributor == y.contributor,
        (TCV::Date(x, _, _, _), TCV::Date(y, _, _, _)) => x.date == y.date,
        (TCV::Title(x, _, _), TCV::Title(y, _, _)) => x.title == y.title,
        (TCV::Number(x, _, _), TCV::Number(y, _, _)) => x.number == y.number,
        (TCV::Variable(x, _, _), TCV::Variable(y, _, _)) => x.variable == y.variable,
        (TCV::Term(x, _, _), TCV::Term(y, _, _)) => x.term == y.term,
        _ => false,
    }
}

/// Whether `s`, or a list nested in it, holds a component that renders
/// the same variable as `target`.
pub open spec fn has_variable(s: Seq<TCV>, target: TCV) -> bool
    decreases s,
{
    if s.len() == 0 {
        false
    } else {
        has_variable(s.drop_last(), target) || same_variable(s.last(), target) || (s.last() is List
            && has_variable(s.last()->List_0.items, target))
    }
}

impl TemplateCompiler {
    /// Whether two components render the same variable (`same_variable`).
    pub fn same_variable(&self, a: &TemplateComponent, b: &TemplateComponent) -> (r: bool)
        ensures
            r == same_variable(tc_view(*a), tc_view(*b)),
    {
        match (a, b) {
            (TemplateComponent::Contributor(x), TemplateComponent::Contributor(y)) => x.contributor == y.contributor,
            (TemplateComponent::Date(x), TemplateComponent::Date(y)) => x.date == y.date,
            (TemplateComponent::Title(x), TemplateComponent::Title(y)) => x.title == y.title,
            (TemplateComponent::Number(x), TemplateComponent::Number(y)) => x.number == y.number,
            (TemplateComponent::Variable(x), TemplateComponent::Variable(y)) => x.variable == y.variable,
            (TemplateComponent::Term(x), TemplateComponent::Term(y)) => x.term == y.term,
            _ => false,
        }
    }

    /// Whether `items`, or a list nested in them, holds a component that
    /// renders the same variable as `target` (`has_variable`).
    pub fn has_variable_recursive(&self, items: &[TemplateComponent], target: &TemplateComponent) -> (r: bool)
        ensures
            r == has_variable(tcs_view(items@), tc_view(*target)),
        decreases items@,
    {
        let ghost s = tcs_view(items@);
        proof {
            lemma_tcs_view(items@);
        }
        let mut found = false;
        let mut i: usize = 0;
        proof {
            assert(s.subrange(0, 0) =~= Seq::<TCV>::empty());
        }
        while i < items.len()
            invariant
                i <= items@.len(),
                s == tcs_view(items@),
                s.len() == items@.len(),
                forall|k: int| 0 <= k < items@.len() ==> #[trigger] s[k] == tc_view(items@[k]),
                found == has_variable(s.subrange(0, i as int), tc_view(*target)),
            decreases items@.len() - i,
        {
            let item = &items[i];
            let mut hit = self.same_variable(item, target);
            if !hit {
                if let TemplateComponent::List(l) = item {
                    proof {
                        assert(decreases_to!(items@ => items@[i as int]));
                    }
                    hit = self.has_variable_recursive(l.items.as_slice(), target);
                }
            }
            proof {
                let t = s.subrange(0, i + 1);
                assert(t.drop_last() =~= s.subrange(0, i as int));
                assert(t.last() == s[i as int]);
            }
            found = found || hit;
            i = i + 1;
        }
        proof {
            assert(s.subrange(0, items@.len() as int) =~= s);
        }
        found
    }

    /// Compiles a list of nodes into template components: components are
    /// collected with the branch they were found in, then merged so that a
    /// component found only in type-specific branches is hidden except for
    /// those types (`compiled`).
    pub fn compile(&self, nodes: &[CslnNode]) -> (r: Vec<TemplateComponent>)
        ensures
            tcs_view(r@) == compiled(nodes@),
    {
        let no_wrap = (None, None, None);
        let mut occurrences: Vec<ComponentOccurrence> = Vec::new();
        self.collect_occurrences(nodes, &no_wrap, &BranchContext::Default, &mut occurrences);
        proof {
            assert(occs_view(occurrences@) =~= collected(nodes@, 0, (None, None, None), ContextV::Default));
        }
        self.merge_occurrences(occurrences)
    }

    /// Compiles a bibliography: the layout order is kept (`compiled`).
    pub fn compile_bibliography(&self, nodes: &[CslnNode], is_numeric: bool) -> (r: Vec<TemplateComponent>)
        ensures
            tcs_view(r@) == compiled(nodes@),
    {
        self.compile(nodes)
    }
}

/// Every component a node tree compiles to states whether it is shown by
/// default.
pub proof fn law_compiled_visibility(nodes: Seq<CslnNode>)
    ensures
        forall|i: int|
            0 <= i < compiled(nodes).len() ==> (#[trigger] tcv_rendering(compiled(nodes)[i])).suppress is Some,
{
    crate::template_compiler::merge::law_merged_all_visibility(
        collected(nodes, 0, (None, None, None), ContextV::Default),
    );
}

/// A node tree compiles to at most one component per variable (and per
/// list signature): every occurrence of it is merged into that component.
pub proof fn law_compiled_keys_distinct(nodes: Seq<CslnNode>)
    requires
        collected(nodes, 0, (None, None, None), ContextV::Default).len() <= usize::MAX,
    ensures
        forall|i: int, j: int|
            0 <= i < j < compiled(nodes).len() ==> occurrence_key(#[trigger] compiled(nodes)[i]) != occurrence_key(
                #[trigger] compiled(nodes)[j],
            ),
{
    crate::template_compiler::merge::law_merged_keys_distinct(
        collected(nodes, 0, (None, None, None), ContextV::Default),
    );
}

/// Every occurrence found in a branch for some types ends in the compiled
/// component with its key, and that component is shown for each of those
/// types (a variable in type-conditional branches for a book and a
/// chapter compiles to one component, shown for both).
pub proof fn law_compiled_shown_for_branch_types(nodes: Seq<CslnNode>, m: int, i: int)
    requires
        collected(nodes, 0, (None, None, None), ContextV::Default).len() <= usize::MAX,
        0 <= m < collected(nodes, 0, (None, None, None), ContextV::Default).len(),
        collected(nodes, 0, (None, None, None), ContextV::Default)[m].context is TypeSpecific,
        0 <= i < collected(nodes, 0, (None, None, None), ContextV::Default)[m].context->TypeSpecific_0.len(),
    ensures
        exists|k: int|
            0 <= k < compiled(nodes).len() && occurrence_key(#[trigger] compiled(nodes)[k]) == occurrence_key(
                collected(nodes, 0, (None, None, None), ContextV::Default)[m].component,
            ) && crate::template_compiler::merge::shown_for_type(
                compiled(nodes)[k],
                crate::template_compiler::nodes::item_type_name(
                    collected(nodes, 0, (None, None, None), ContextV::Default)[m].context->TypeSpecific_0[i],
                ),
            ),
{
    let occs = collected(nodes, 0, (None, None, None), ContextV::Default);
    crate::template_compiler::merge::law_merged_components_shown(occs, m, i);
    let k = choose|k: int|
        0 <= k < merged_components(occs).len() && occurrence_key(#[trigger] merged_components(occs)[k])
            == occurrence_key(occs[m].component) && crate::template_compiler::merge::shown_for_type(
            merged_components(occs)[k],
            crate::template_compiler::nodes::item_type_name(occs[m].context->TypeSpecific_0[i]),
        );
    assert(compiled(nodes)[k] == merged_components(occs)[k]);
}

} // verus!
