//! What a CSL 1.0 bibliography says of its author: the suffix on the call
//! of the author macro, and the conjunction of the first name node; each
//! read off the node tree and set on the author components of a template.

use vstd::prelude::*;
use crate::citation_analysis::{CslBranch, CslLayout, CslMacro, CslNode, CslStyle};
use crate::options::contributors::AndOptions;
use crate::template::{ContributorRole, TemplateComponent, TemplateContributor};
use crate::template_view::{tc_view, tcs_view, lemma_tcs_view, RenderingV, TCV};
use crate::text::{opt_view, str_eq};

verus! {

/// Whether a node is a call of the macro named "author".
pub open spec fn is_author_call(n: CslNode) -> bool {
    n is Text && n->Text_0.macro_name is Some && n->Text_0.macro_name->Some_0@ == "author"@
}

/// The suffix of the first call of the author macro among `s`, found or
/// not.
pub open spec fn calls_author(s: Seq<CslNode>) -> Option<Option<String>>
    decreases s.len(),
{
    if s.len() == 0 {
        None
    } else {
        match calls_author(s.drop_last()) {
            Some(x) => Some(x),
            None => if is_author_call(s.last()) {
                Some(s.last()->Text_0.suffix)
            } else {
                None
            },
        }
    }
}

/// The suffix on the call of the author macro a node holds: a group's
/// first such child, or the node itself.
pub open spec fn node_author_call(n: CslNode) -> Option<Option<String>> {
    match n {
        CslNode::Group(g) => calls_author(g.children@),
        _ => if is_author_call(n) {
            Some(n->Text_0.suffix)
        } else {
            None
        },
    }
}

/// The suffix on the first call of the author macro in a layout, at its
/// top level or in a top-level group, found or not.
pub open spec fn layout_author_call(s: Seq<CslNode>) -> Option<Option<String>>
    decreases s.len(),
{
    if s.len() == 0 {
        None
    } else {
        match layout_author_call(s.drop_last()) {
            Some(x) => Some(x),
            None => node_author_call(s.last()),
        }
    }
}

fn is_author_call_of(n: &CslNode) -> (r: bool)
    ensures
        r == is_author_call(*n),
{
    match n {
        CslNode::Text(t) => match &t.macro_name {
            Some(m) => str_eq(m.as_str(), "author"),
            None => false,
        },
        _ => false,
    }
}

fn calls_author_of(s: &Vec<CslNode>) -> (r: Option<Option<String>>)
    ensures
        r == calls_author(s@),
{
    let mut i: usize = 0;
    proof {
        assert(s@.subrange(0, 0) =~= Seq::<CslNode>::empty());
    }
    while i < s.len()
        invariant
            i <= s@.len(),
            calls_author(s@.subrange(0, i as int)) is None,
        decreases s@.len() - i,
    {
        proof {
            let u = s@.subrange(0, i + 1);
            assert(u.drop_last() =~= s@.subrange(0, i as int));
            assert(u.last() == s@[i as int]);
        }
        if is_author_call_of(&s[i]) {
            let suffix = match &s[i] {
                CslNode::Text(t) => t.suffix.clone(),
                _ => None,
            };
            proof {
                lemma_calls_author_prefix(s@, i + 1);
            }
            return Some(suffix);
        }
        i = i + 1;
    }
    proof {
        assert(s@.subrange(0, s@.len() as int) =~= s@);
    }
    None
}

proof fn lemma_calls_author_prefix(s: Seq<CslNode>, k: int)
    requires
        0 <= k <= s.len(),
        calls_author(s.subrange(0, k)) is Some,
    ensures
        calls_author(s) == calls_author(s.subrange(0, k)),
    decreases s.len() - k,
{
    if k < s.len() {
        let u = s.subrange(0, k + 1);
        assert(u.drop_last() =~= s.subrange(0, k));
        lemma_calls_author_prefix(s, k + 1);
    } else {
        assert(s.subrange(0, k) =~= s);
    }
}

proof fn lemma_layout_author_call_prefix(s: Seq<CslNode>, k: int)
    requires
        0 <= k <= s.len(),
        layout_author_call(s.subrange(0, k)) is Some,
    ensures
        layout_author_call(s) == layout_author_call(s.subrange(0, k)),
    decreases s.len() - k,
{
    if k < s.len() {
        let u = s.subrange(0, k + 1);
        assert(u.drop_last() =~= s.subrange(0, k));
        lemma_layout_author_call_prefix(s, k + 1);
    } else {
        assert(s.subrange(0, k) =~= s);
    }
}

/// The suffix on the call of the author macro in a bibliography layout:
/// that of the first such call at the top level or in a top-level group,
/// `None` where there is none or it has no suffix.
pub fn extract_author_suffix(layout: &CslLayout) -> (r: Option<String>)
    ensures
        r == (match layout_author_call(layout.children@) {
            Some(x) => x,
            None => None,
        }),
{
    let s = &layout.children;
    let mut i: usize = 0;
    proof {
        assert(s@.subrange(0, 0) =~= Seq::<CslNode>::empty());
    }
    while i < s.len()
        invariant
            s == &layout.children,
            i <= s@.len(),
            layout_author_call(s@.subrange(0, i as int)) is None,
        decreases s@.len() - i,
    {
        proof {
            let u = s@.subrange(0, i + 1);
            assert(u.drop_last() =~= s@.subrange(0, i as int));
            assert(u.last() == s@[i as int]);
        }
        let found = match &s[i] {
            CslNode::Group(g) => calls_author_of(&g.children),
            n => if is_author_call_of(n) {
                match n {
                    CslNode::Text(t) => Some(t.suffix.clone()),
                    _ => None,
                }
            } else {
                None
            },
        };
        assert(found == node_author_call(s@[i as int]));
        if let Some(x) = found {
            proof {
                lemma_layout_author_call_prefix(s@, i + 1);
            }
            return x;
        }
        i = i + 1;
    }
    proof {
        assert(s@.subrange(0, s@.len() as int) =~= s@);
    }
    None
}

/// A component with the suffix `t` set on it where it is the author.
pub open spec fn with_author_suffix(c: TCV, t: Seq<char>) -> TCV {
    match c {
        TCV::Contributor(x, r, o) => if x.contributor == ContributorRole::Author {
            TCV::Contributor(x, RenderingV { suffix: Some(t), ..r }, o)
        } else {
            c
        },
        _ => c,
    }
}

fn author_suffixed(c: TemplateComponent, t: &String) -> (r: TemplateComponent)
    ensures
        tc_view(r) == with_author_suffix(tc_view(c), t@),
{
    match c {
        TemplateComponent::Contributor(x) => {
            let mut x = x;
            if x.contributor == ContributorRole::Author {
                x.rendering.suffix = Some(t.clone());
            }
            TemplateComponent::Contributor(x)
        },
        other => other,
    }
}

fn author_suffixed_each(v: Vec<TemplateComponent>, t: &String) -> (r: Vec<TemplateComponent>)
    ensures
        tcs_view(r@) == tcs_view(v@).map_values(|c: TCV| with_author_suffix(c, t@)),
    decreases v@.len(),
{
    let ghost s = v@;
    let mut v = v;
    match v.pop() {
        None => {
            assert(s =~= Seq::<TemplateComponent>::empty());
            assert(tcs_view(s).map_values(|c: TCV| with_author_suffix(c, t@)) =~= Seq::<TCV>::empty());
            Vec::new()
        },
        Some(last) => {
            proof {
                assert(v@ =~= s.drop_last());
                lemma_tcs_view(s);
                lemma_tcs_view(v@);
            }
            let mut out = author_suffixed_each(v, t);
            let c = author_suffixed(last, t);
            let ghost before = out@;
            out.push(c);
            proof {
                lemma_tcs_view(out@);
                lemma_tcs_view(before);
                assert(tcs_view(out@) =~= tcs_view(s).map_values(|c: TCV| with_author_suffix(c, t@))) by {
                    assert forall|k: int| 0 <= k < out@.len() implies tcs_view(out@)[k] == with_author_suffix(
                        tcs_view(s)[k],
                        t@,
                    ) by {
                        if k < before.len() {
                            assert(out@[k] == before[k]);
                            assert(s[k] == v@[k]);
                            assert(tcs_view(before)[k] == tc_view(before[k]));
                            assert(tcs_view(v@)[k] == tc_view(v@[k]));
                        } else {
                            assert(out@[k] == c);
                            assert(s[k] == last);
                        }
                        assert(tcs_view(out@)[k] == tc_view(out@[k]));
                        assert(tcs_view(s)[k] == tc_view(s[k]));
                    }
                }
            }
            out
        },
    }
}

/// Sets the suffix, where there is one, on each author component; the
/// other components stay as they are.
pub fn apply_author_suffix(components: &mut Vec<TemplateComponent>, suffix: Option<String>)
    ensures
        suffix is None ==> final(components)@ == old(components)@,
        suffix is Some ==> tcs_view(final(components)@) == tcs_view(old(components)@).map_values(
            |c: TCV| with_author_suffix(c, suffix->Some_0@),
        ),
{
    if let Some(t) = suffix {
        let mut taken: Vec<TemplateComponent> = Vec::new();
        std::mem::swap(components, &mut taken);
        *components = author_suffixed_each(taken, &t);
    }
}

/// The conjunction a name node's `and` attribute asks for: "text" and
/// "symbol" by their names, anything else (or none) for no conjunction.
pub open spec fn name_and(and: Option<String>) -> AndOptions {
    if and is Some && and->Some_0@ == "text"@ {
        AndOptions::Text
    } else if and is Some && and->Some_0@ == "symbol"@ {
        AndOptions::Symbol
    } else {
        AndOptions::Omitted
    }
}

/// The conjunction of the first name node among `s`, in document order,
/// searching names, groups, choose branches and substitutes.
pub open spec fn nodes_and(s: Seq<CslNode>) -> Option<AndOptions>
    decreases s, 1nat,
{
    if s.len() == 0 {
        None
    } else {
        match nodes_and(s.drop_last()) {
            Some(a) => Some(a),
            None => node_and(s.last()),
        }
    }
}

/// The conjunction of the first name node in the children of the first
/// branch that has one.
pub open spec fn branches_and(bs: Seq<CslBranch>) -> Option<AndOptions>
    decreases bs, 0nat,
{
    if bs.len() == 0 {
        None
    } else {
        match branches_and(bs.drop_last()) {
            Some(a) => Some(a),
            None => nodes_and(bs.last().children@),
        }
    }
}

/// The conjunction of the first name node in or at a node (`nodes_and`).
pub open spec fn node_and(n: CslNode) -> Option<AndOptions>
    decreases n, 2nat,
{
    match n {
        CslNode::Name(x) => Some(name_and(x.and)),
        CslNode::Names(x) => nodes_and(n->Names_0.children@),
        CslNode::Group(g) => nodes_and(n->Group_0.children@),
        CslNode::Substitute(x) => nodes_and(n->Substitute_0.children@),
        CslNode::Choose(c) => {
            let c = n->Choose_0;
            match nodes_and(c.if_branch.children@) {
                Some(a) => Some(a),
                None => match branches_and(c.else_if_branches@) {
                    Some(a) => Some(a),
                    None => match c.else_branch {
                        Some(e) => nodes_and(c.else_branch->Some_0@),
                        None => None,
                    },
                },
            }
        },
        _ => None,
    }
}

/// The conjunction of the first "author" macro that has a name node, else
/// that of the bibliography layout.
pub open spec fn macros_and(ms: Seq<CslMacro>) -> Option<AndOptions>
    decreases ms.len(),
{
    if ms.len() == 0 {
        None
    } else {
        match macros_and(ms.drop_last()) {
            Some(a) => Some(a),
            None => if ms.last().name@ == "author"@ {
                nodes_and(ms.last().children@)
            } else {
                None
            },
        }
    }
}

/// The bibliography's conjunction: that of the first "author" macro with a
/// name node, else that of the bibliography layout, else none.
pub open spec fn style_and(style: CslStyle) -> Option<AndOptions> {
    match macros_and(style.macros@) {
        Some(a) => Some(a),
        None => match style.bibliography {
            Some(b) => nodes_and(b.layout.children@),
            None => None,
        },
    }
}

fn name_and_of(and: &Option<String>) -> (r: AndOptions)
    ensures
        r == name_and(*and),
{
    match and {
        Some(a) => {
            if str_eq(a.as_str(), "text") {
                AndOptions::Text
            } else if str_eq(a.as_str(), "symbol") {
                AndOptions::Symbol
            } else {
                AndOptions::Omitted
            }
        },
        None => AndOptions::Omitted,
    }
}

fn node_and_of(n: &CslNode) -> (r: Option<AndOptions>)
    ensures
        r == node_and(*n),
    decreases n, 2nat,
{
    match n {
        CslNode::Name(x) => Some(name_and_of(&x.and)),
        CslNode::Names(x) => {
            proof {
                assert(decreases_to!(n => x));
                assert(decreases_to!(x => x.children));
            }
            find_name_and(&x.children)
        },
        CslNode::Group(g) => {
            proof {
                assert(decreases_to!(n => g));
                assert(decreases_to!(g => g.children));
            }
            find_name_and(&g.children)
        },
        CslNode::Substitute(x) => {
            proof {
                assert(decreases_to!(n => x));
                assert(decreases_to!(x => x.children));
            }
            find_name_and(&x.children)
        },
        CslNode::Choose(c) => {
            proof {
                assert(decreases_to!(n => c));
                assert(decreases_to!(c => c.if_branch));
                assert(decreases_to!(c.if_branch => c.if_branch.children));
                assert(decreases_to!(c => c.else_if_branches));
                assert(decreases_to!(c => c.else_branch));
            }
            let a = find_name_and(&c.if_branch.children);
            if a.is_some() {
                return a;
            }
            let b = branches_and_of(&c.else_if_branches);
            if b.is_some() {
                return b;
            }
            match &c.else_branch {
                Some(e) => {
                    proof {
                        assert(decreases_to!(c.else_branch => *e));
                    }
                    find_name_and(e)
                },
                None => None,
            }
        },
        _ => None,
    }
}

/// The conjunction of the first name node among `nodes` (`nodes_and`).
fn find_name_and(nodes: &Vec<CslNode>) -> (r: Option<AndOptions>)
    ensures
        r == nodes_and(nodes@),
    decreases nodes, 1nat,
{
    let mut i: usize = 0;
    proof {
        assert(nodes@.subrange(0, 0) =~= Seq::<CslNode>::empty());
    }
    while i < nodes.len()
        invariant
            i <= nodes@.len(),
            nodes_and(nodes@.subrange(0, i as int)) is None,
        decreases nodes@.len() - i,
    {
        proof {
            let u = nodes@.subrange(0, i + 1);
            assert(u.drop_last() =~= nodes@.subrange(0, i as int));
            assert(u.last() == nodes@[i as int]);
            assert(decreases_to!(nodes => nodes@));
            assert(decreases_to!(nodes@ => nodes@[i as int]));
        }
        let a = node_and_of(&nodes[i]);
        if a.is_some() {
            proof {
                lemma_nodes_and_prefix(nodes@, i + 1);
            }
            return a;
        }
        i = i + 1;
    }
    proof {
        assert(nodes@.subrange(0, nodes@.len() as int) =~= nodes@);
    }
    None
}

proof fn lemma_nodes_and_prefix(s: Seq<CslNode>, k: int)
    requires
        0 <= k <= s.len(),
        nodes_and(s.subrange(0, k)) is Some,
    ensures
        nodes_and(s) == nodes_and(s.subrange(0, k)),
    decreases s.len() - k,
{
    if k < s.len() {
        let u = s.subrange(0, k + 1);
        assert(u.drop_last() =~= s.subrange(0, k));
        lemma_nodes_and_prefix(s, k + 1);
    } else {
        assert(s.subrange(0, k) =~= s);
    }
}

fn branches_and_of(bs: &Vec<CslBranch>) -> (r: Option<AndOptions>)
    ensures
        r == branches_and(bs@),
    decreases bs, 0nat,
{
    let mut i: usize = 0;
    proof {
        assert(bs@.subrange(0, 0) =~= Seq::<CslBranch>::empty());
    }
    while i < bs.len()
        invariant
            i <= bs@.len(),
            branches_and(bs@.subrange(0, i as int)) is None,
        decreases bs@.len() - i,
    {
        proof {
            let u = bs@.subrange(0, i + 1);
            assert(u.drop_last() =~= bs@.subrange(0, i as int));
            assert(u.last() == bs@[i as int]);
            assert(decreases_to!(bs => bs@));
            assert(decreases_to!(bs@ => bs@[i as int]));
            assert(decreases_to!(bs@[i as int] => bs@[i as int].children));
        }
        let a = find_name_and(&bs[i].children);
        if a.is_some() {
            proof {
                lemma_branches_and_prefix(bs@, i + 1);
            }
            return a;
        }
        i = i + 1;
    }
    proof {
        assert(bs@.subrange(0, bs@.len() as int) =~= bs@);
    }
    None
}

proof fn lemma_branches_and_prefix(bs: Seq<CslBranch>, k: int)
    requires
        0 <= k <= bs.len(),
        branches_and(bs.subrange(0, k)) is Some,
    ensures
        branches_and(bs) == branches_and(bs.subrange(0, k)),
    decreases bs.len() - k,
{
    if k < bs.len() {
        let u = bs.subrange(0, k + 1);
        assert(u.drop_last() =~= bs.subrange(0, k));
        lemma_branches_and_prefix(bs, k + 1);
    } else {
        assert(bs.subrange(0, k) =~= bs);
    }
}

proof fn lemma_macros_and_prefix(ms: Seq<CslMacro>, k: int)
    requires
        0 <= k <= ms.len(),
        macros_and(ms.subrange(0, k)) is Some,
    ensures
        macros_and(ms) == macros_and(ms.subrange(0, k)),
    decreases ms.len() - k,
{
    if k < ms.len() {
        let u = ms.subrange(0, k + 1);
        assert(u.drop_last() =~= ms.subrange(0, k));
        lemma_macros_and_prefix(ms, k + 1);
    } else {
        assert(ms.subrange(0, k) =~= ms);
    }
}

/// The conjunction the bibliography's names ask for (`style_and`).
pub fn extract_bibliography_and(style: &CslStyle) -> (r: Option<AndOptions>)
    ensures
        r == style_and(*style),
{
    let ms = &style.macros;
    let mut i: usize = 0;
    proof {
        assert(ms@.subrange(0, 0) =~= Seq::<CslMacro>::empty());
    }
    while i < ms.len()
        invariant
            ms == &style.macros,
            i <= ms@.len(),
            macros_and(ms@.subrange(0, i as int)) is None,
        decreases ms@.len() - i,
    {
        proof {
            let u = ms@.subrange(0, i + 1);
            assert(u.drop_last() =~= ms@.subrange(0, i as int));
            assert(u.last() == ms@[i as int]);
        }
        if str_eq(ms[i].name.as_str(), "author") {
            let a = find_name_and(&ms[i].children);
            if a.is_some() {
                proof {
                    lemma_macros_and_prefix(ms@, i + 1);
                }
                return a;
            }
        }
        i = i + 1;
    }
    proof {
        assert(ms@.subrange(0, ms@.len() as int) =~= ms@);
    }
    match &style.bibliography {
        Some(b) => find_name_and(&b.layout.children),
        None => None,
    }
}

/// A component with the conjunction `a` set on it where it is the author.
pub open spec fn with_author_and(c: TCV, a: AndOptions) -> TCV {
    match c {
        TCV::Contributor(x, r, o) => if x.contributor == ContributorRole::Author {
            TCV::Contributor(TemplateContributor { and: Some(a), ..x }, r, o)
        } else {
            c
        },
        _ => c,
    }
}

fn author_and_set(c: TemplateComponent, a: AndOptions) -> (r: TemplateComponent)
    ensures
        tc_view(r) == with_author_and(tc_view(c), a),
{
    match c {
        TemplateComponent::Contributor(x) => {
            let mut x = x;
            if x.contributor == ContributorRole::Author {
                x.and = Some(a);
            }
            TemplateComponent::Contributor(x)
        },
        other => other,
    }
}

fn author_and_each(v: Vec<TemplateComponent>, a: AndOptions) -> (r: Vec<TemplateComponent>)
    ensures
        tcs_view(r@) == tcs_view(v@).map_values(|c: TCV| with_author_and(c, a)),
    decreases v@.len(),
{
    let ghost s = v@;
    let mut v = v;
    match v.pop() {
        None => {
            assert(s =~= Seq::<TemplateComponent>::empty());
            assert(tcs_view(s).map_values(|c: TCV| with_author_and(c, a)) =~= Seq::<TCV>::empty());
            Vec::new()
        },
        Some(last) => {
            proof {
                assert(v@ =~= s.drop_last());
                lemma_tcs_view(s);
                lemma_tcs_view(v@);
            }
            let mut out = author_and_each(v, a);
            let c = author_and_set(last, a);
            let ghost before = out@;
            out.push(c);
            proof {
                lemma_tcs_view(out@);
                lemma_tcs_view(before);
                assert(tcs_view(out@) =~= tcs_view(s).map_values(|c: TCV| with_author_and(c, a))) by {
                    assert forall|k: int| 0 <= k < out@.len() implies tcs_view(out@)[k] == with_author_and(
                        tcs_view(s)[k],
                        a,
                    ) by {
                        if k < before.len() {
                            assert(out@[k] == before[k]);
                            assert(s[k] == v@[k]);
                            assert(tcs_view(before)[k] == tc_view(before[k]));
                            assert(tcs_view(v@)[k] == tc_view(v@[k]));
                        } else {
                            assert(out@[k] == c);
                            assert(s[k] == last);
                        }
                        assert(tcs_view(out@)[k] == tc_view(out@[k]));
                        assert(tcs_view(s)[k] == tc_view(s[k]));
                    }
                }
            }
            out
        },
    }
}

/// Sets the conjunction, where there is one, on each author component; the
/// other components stay as they are.
pub fn apply_bibliography_and(components: &mut Vec<TemplateComponent>, bib_and: Option<AndOptions>)
    ensures
        bib_and is None ==> final(components)@ == old(components)@,
        bib_and is Some ==> tcs_view(final(components)@) == tcs_view(old(components)@).map_values(
            |c: TCV| with_author_and(c, bib_and->Some_0),
        ),
{
    if let Some(a) = bib_and {
        let mut taken: Vec<TemplateComponent> = Vec::new();
        std::mem::swap(components, &mut taken);
        *components = author_and_each(taken, a);
    }
}

} // verus!
