//! Standalone components hidden where a list already renders their
//! variable.

use vstd::prelude::*;
use crate::template::{component_overrides, component_rendering, ComponentOverride, Rendering, TemplateComponent, TemplateList, TypeSelector};
use crate::template_compiler::collect::{tcv_rendering, with_rendering};
use crate::template_compiler::merge::{occurrence_key, override_for_type, with_suppress};
use crate::template_compiler::TemplateCompiler;
use crate::template_compiler::copy::copy_component;
use crate::passes::common::tcv_overrides;
use crate::template_view::{
    lemma_ov_entries_view, lemma_tcs_view, ov_entries_view, ov_view, ovs_view, rendering_view, selector_view, tc_view, tcs_view,
    OverrideV, SelV, TCV,
};

verus! {

/// The key of a component that renders one variable; none for a list.
pub open spec fn variable_key(c: TCV) -> Option<Seq<char>> {
    if c is List {
        None
    } else {
        Some(occurrence_key(c))
    }
}

/// The keys of the variables a list's items render, nested lists included,
/// in order.
pub open spec fn list_vars(s: Seq<TCV>) -> Seq<Seq<char>>
    decreases s, 0nat,
{
    if s.len() == 0 {
        Seq::empty()
    } else {
        list_vars(s.drop_last()) + item_vars(s.last())
    }
}

/// The keys one item contributes (see `list_vars`).
pub open spec fn item_vars(c: TCV) -> Seq<Seq<char>>
    decreases c, 1nat,
{
    match c {
        TCV::List(_) => list_vars(c->List_0.items),
        _ => seq![occurrence_key(c)],
    }
}

/// The type names of one override that shows its component.
pub open spec fn shown_types(e: (SelV, OverrideV)) -> Seq<Seq<char>> {
    match e.1 {
        OverrideV::Rendering(r) => if r.suppress != Some(true) {
            match e.0 {
                SelV::Single(s) => seq![s],
                SelV::Multiple(ts) => ts,
            }
        } else {
            Seq::empty()
        },
        OverrideV::Component(_) => Seq::empty(),
    }
}

/// The type names of overrides that show their component, in order.
pub open spec fn shown_by(es: Seq<(SelV, OverrideV)>) -> Seq<Seq<char>>
    decreases es.len(),
{
    if es.len() == 0 {
        Seq::empty()
    } else {
        shown_by(es.drop_last()) + shown_types(es.last())
    }
}

/// The types for which a component hidden by default is shown by an
/// override; nothing for a component shown by default.
pub open spec fn visible_types(c: TCV) -> Seq<Seq<char>> {
    if tcv_rendering(c).suppress == Some(true) && tcv_overrides(c) is Some {
        shown_by(tcv_overrides(c)->Some_0)
    } else {
        Seq::empty()
    }
}

/// Whether a component is a list shown by default.
pub open spec fn is_shown_list(c: TCV) -> bool {
    c is List && tcv_rendering(c).suppress != Some(true)
}

/// Whether a list shown by default among `s` renders the variable `k`.
pub open spec fn in_shown_list(s: Seq<TCV>, k: Seq<char>) -> bool {
    exists|i: int| 0 <= i < s.len() && is_shown_list(#[trigger] s[i]) && item_vars(s[i]).contains(k)
}

/// `types` once for each of `vars` that is `k`.
pub open spec fn types_for(vars: Seq<Seq<char>>, k: Seq<char>, types: Seq<Seq<char>>) -> Seq<Seq<char>>
    decreases vars.len(),
{
    if vars.len() == 0 {
        Seq::empty()
    } else {
        types_for(vars.drop_last(), k, types) + if vars.last() == k {
            types
        } else {
            Seq::empty()
        }
    }
}

/// The types for which lists hidden by default among `s` show the
/// variable `k`, in order.
pub open spec fn hidden_list_types(s: Seq<TCV>, k: Seq<char>) -> Seq<Seq<char>>
    decreases s.len(),
{
    if s.len() == 0 {
        Seq::empty()
    } else {
        hidden_list_types(s.drop_last(), k) + if s.last() is List && !is_shown_list(s.last()) {
            types_for(item_vars(s.last()), k, visible_types(s.last()))
        } else {
            Seq::empty()
        }
    }
}

/// A component with the rendering `r` set for each of the type names.
pub open spec fn overrides_for_names(c: TCV, names: Seq<Seq<char>>, r: crate::template_view::RenderingV) -> TCV
    decreases names.len(),
{
    if names.len() == 0 {
        c
    } else {
        override_for_type(overrides_for_names(c, names.drop_last(), r), names.last(), r)
    }
}

/// A standalone component of `s` fixed: hidden when a list shown by
/// default renders its variable, else hidden for each type for which a
/// hidden list shows it; lists are left as they are.
pub open spec fn fixed_component(c: TCV, s: Seq<TCV>) -> TCV {
    if c is List {
        c
    } else if in_shown_list(s, occurrence_key(c)) {
        with_rendering(c, with_suppress(tcv_rendering(c), true))
    } else {
        overrides_for_names(c, hidden_list_types(s, occurrence_key(c)), with_suppress(tcv_rendering(c), true))
    }
}

/// Every component of `s` fixed (`fixed_component`).
pub open spec fn fixed_all(s: Seq<TCV>) -> Seq<TCV> {
    s.map_values(|c: TCV| fixed_component(c, s))
}

/// The rendering and overrides of a component, by their contents.
proof fn lemma_component_view(c: TemplateComponent)
    ensures
        tcv_overrides(tc_view(c)) == ovs_view(component_overrides(c)),
        tcv_rendering(tc_view(c)) == rendering_view(component_rendering(c)),
{
}

/// Fixing duplicates keeps the number of components and leaves every list
/// as it is; a standalone component whose variable a list shown by default
/// renders ends up hidden by default.
pub proof fn law_fixed_duplicates(s: Seq<TCV>)
    ensures
        fixed_all(s).len() == s.len(),
        forall|i: int| 0 <= i < s.len() && s[i] is List ==> #[trigger] fixed_all(s)[i] == s[i],
        forall|i: int|
            0 <= i < s.len() && !(s[i] is List) && in_shown_list(s, occurrence_key(s[i]))
                ==> tcv_rendering(#[trigger] fixed_all(s)[i]).suppress == Some(true),
{
    assert forall|i: int|
        0 <= i < s.len() && !(s[i] is List) && in_shown_list(s, occurrence_key(s[i])) implies tcv_rendering(
        #[trigger] fixed_all(s)[i],
    ).suppress == Some(true) by {
        let c = s[i];
        assert(fixed_all(s)[i] == fixed_component(c, s));
        assert(fixed_component(c, s) == with_rendering(c, with_suppress(tcv_rendering(c), true)));
    }
}

/// A standalone component that no list renders is left as it is.
pub proof fn law_unlisted_component_kept(s: Seq<TCV>, i: int)
    requires
        0 <= i < s.len(),
        !(s[i] is List),
        forall|j: int| 0 <= j < s.len() && #[trigger] s[j] is List ==> !item_vars(s[j]).contains(occurrence_key(s[i])),
    ensures
        fixed_all(s)[i] == s[i],
{
    let k = occurrence_key(s[i]);
    assert(!in_shown_list(s, k));
    lemma_no_hidden_list_types(s, k);
}

proof fn lemma_no_hidden_list_types(s: Seq<TCV>, k: Seq<char>)
    requires
        forall|j: int| 0 <= j < s.len() && #[trigger] s[j] is List ==> !item_vars(s[j]).contains(k),
    ensures
        hidden_list_types(s, k) == Seq::<Seq<char>>::empty(),
    decreases s.len(),
{
    if s.len() > 0 {
        let t = s.drop_last();
        assert forall|j: int| 0 <= j < t.len() && #[trigger] t[j] is List implies !item_vars(t[j]).contains(k) by {
            assert(t[j] == s[j]);
        }
        lemma_no_hidden_list_types(t, k);
        if s.last() is List {
            assert(s.last() == s[s.len() - 1]);
            lemma_types_for_absent(item_vars(s.last()), k, visible_types(s.last()));
        }
        assert(hidden_list_types(s, k) =~= Seq::<Seq<char>>::empty());
    }
}

proof fn lemma_types_for_absent(vars: Seq<Seq<char>>, k: Seq<char>, types: Seq<Seq<char>>)
    requires
        !vars.contains(k),
    ensures
        types_for(vars, k, types) == Seq::<Seq<char>>::empty(),
    decreases vars.len(),
{
    if vars.len() > 0 {
        assert(vars.last() == vars[vars.len() - 1]);
        let t = vars.drop_last();
        assert forall|m: int| 0 <= m < t.len() implies t[m] != k by {
            assert(t[m] == vars[m]);
        }
        lemma_types_for_absent(t, k, types);
        assert(types_for(vars, k, types) =~= Seq::<Seq<char>>::empty());
    }
}

/// The contents of a sequence of strings.
pub open spec fn string_views(s: Seq<String>) -> Seq<Seq<char>> {
    s.map_values(|x: String| x@)
}

impl TemplateCompiler {
    /// The key of a component that renders one variable (`variable_key`).
    pub fn get_variable_key(&self, component: &TemplateComponent) -> (r: Option<String>)
        ensures
            crate::text::opt_view(r) == variable_key(tc_view(*component)),
    {
        match component {
            TemplateComponent::List(_) => None,
            _ => Some(self.occurrence_key_of(component)),
        }
    }

    /// The keys of the variables a list renders (`list_vars`).
    pub fn extract_list_vars(&self, list: &TemplateList) -> (r: Vec<String>)
        ensures
            string_views(r@) == list_vars(tcs_view(list.items@)),
        decreases list,
    {
        let items = &list.items;
        let ghost s = tcs_view(items@);
        proof {
            lemma_tcs_view(items@);
            assert(s.subrange(0, 0) =~= Seq::<TCV>::empty());
        }
        let mut vars: Vec<String> = Vec::new();
        let mut i: usize = 0;
        while i < items.len()
            invariant
                i <= items@.len(),
                items == &list.items,
                s == tcs_view(items@),
                s.len() == items@.len(),
                forall|k: int| 0 <= k < items@.len() ==> #[trigger] s[k] == tc_view(items@[k]),
                string_views(vars@) == list_vars(s.subrange(0, i as int)),
            decreases items@.len() - i,
        {
            let ghost before = string_views(vars@);
            proof {
                let u = s.subrange(0, i + 1);
                assert(u.drop_last() =~= s.subrange(0, i as int));
                assert(u.last() == s[i as int]);
                assert(list_vars(u) == list_vars(s.subrange(0, i as int)) + item_vars(s[i as int]));
            }
            match &items[i] {
                TemplateComponent::List(nested) => {
                    proof {
                        assert(decreases_to!(list => list.items));
                        assert(decreases_to!(list.items => list.items@));
                        assert(decreases_to!(list.items@ => list.items@[i as int]));
                        assert(decreases_to!(list.items@[i as int] => *nested));
                    }
                    let mut more = self.extract_list_vars(nested);
                    let ghost mv = string_views(more@);
                    vars.append(&mut more);
                    proof {
                        assert(s[i as int] == tc_view(items@[i as int]));
                        assert(item_vars(s[i as int]) == mv);
                        assert(string_views(vars@) =~= before + mv);
                    }
                },
                other => {
                    let key = self.occurrence_key_of(other);
                    vars.push(key);
                    proof {
                        assert(s[i as int] == tc_view(items@[i as int]));
                        assert(item_vars(s[i as int]) == seq![occurrence_key(s[i as int])]);
                        assert(string_views(vars@) =~= before + seq![occurrence_key(s[i as int])]);
                    }
                },
            }
            i = i + 1;
        }
        proof {
            assert(s.subrange(0, items@.len() as int) =~= s);
        }
        vars
    }

    /// The types for which a component hidden by default is shown
    /// (`visible_types`).
    pub fn get_visible_types_for_component(&self, component: &TemplateComponent) -> (r: Vec<String>)
        ensures
            string_views(r@) == visible_types(tc_view(*component)),
    {
        let mut visible: Vec<String> = Vec::new();
        let hidden = component.rendering().suppress == Some(true);
        proof {
            lemma_component_view(*component);
        }
        if !hidden {
            proof {
                assert(string_views(visible@) =~= Seq::<Seq<char>>::empty());
            }
            return visible;
        }
        match component.overrides() {
            None => {
                proof {
                    assert(string_views(visible@) =~= Seq::<Seq<char>>::empty());
                }
                visible
            },
            Some(entries) => {
                let ghost es = ov_entries_view(entries@);
                proof {
                    lemma_ov_entries_view(entries@);
                    assert(es.subrange(0, 0) =~= Seq::<(SelV, OverrideV)>::empty());
                    assert(string_views(visible@) =~= Seq::<Seq<char>>::empty());
                }
                let mut i: usize = 0;
                while i < entries.len()
                    invariant
                        i <= entries@.len(),
                        es == ov_entries_view(entries@),
                        es.len() == entries@.len(),
                        forall|k: int| 0 <= k < entries@.len() ==> #[trigger] es[k] == (selector_view(entries@[k].0), ov_view(entries@[k].1)),
                        string_views(visible@) == shown_by(es.subrange(0, i as int)),
                    decreases entries@.len() - i,
                {
                    let ghost before = string_views(visible@);
                    proof {
                        let u = es.subrange(0, i + 1);
                        assert(u.drop_last() =~= es.subrange(0, i as int));
                        assert(u.last() == es[i as int]);
                    }
                    match &entries[i].1 {
                        ComponentOverride::Rendering(r) => {
                            if r.suppress != Some(true) {
                                match &entries[i].0 {
                                    TypeSelector::Single(s) => {
                                        visible.push(s.clone());
                                        proof {
                                            assert(string_views(visible@) =~= before + shown_types(es[i as int]));
                                        }
                                    },
                                    TypeSelector::Multiple(types) => {
                                        let mut j: usize = 0;
                                        while j < types.len()
                                            invariant
                                                j <= types@.len(),
                                                string_views(visible@) == before + string_views(types@.subrange(0, j as int)),
                                            decreases types@.len() - j,
                                        {
                                            let ghost old_v = visible@;
                                            let t = types[j].clone();
                                            visible.push(t);
                                            proof {
                                                assert(t@ == types@[j as int]@);
                                                assert(string_views(visible@) =~= string_views(old_v).push(t@));
                                                assert(types@.subrange(0, j + 1) =~= types@.subrange(0, j as int).push(types@[j as int]));
                                                assert(string_views(types@.subrange(0, j + 1)) =~= string_views(
                                                    types@.subrange(0, j as int),
                                                ).push(types@[j as int]@));
                                                assert(string_views(visible@) =~= before + string_views(
                                                    types@.subrange(0, j + 1),
                                                ));
                                            }
                                            j = j + 1;
                                        }
                                        proof {
                                            assert(types@.subrange(0, types@.len() as int) =~= types@);
                                            assert(string_views(types@) =~= types@.map_values(|x: String| x@));
                                        }
                                    },
                                }
                            } else {
                                proof {
                                    assert(string_views(visible@) =~= before + shown_types(es[i as int]));
                                }
                            }
                        },
                        ComponentOverride::Component(_) => {
                            proof {
                                assert(string_views(visible@) =~= before + shown_types(es[i as int]));
                            }
                        },
                    }
                    i = i + 1;
                }
                proof {
                    assert(es.subrange(0, entries@.len() as int) =~= es);
                }
                visible
            },
        }
    }

    /// Hides the standalone components whose variable a list already
    /// renders: by default where a list shown by default renders it, else
    /// for each type for which a list hidden by default shows it
    /// (`fixed_all`).
    pub fn fix_duplicate_variables(&self, components: &mut Vec<TemplateComponent>)
        ensures
            tcs_view(final(components)@) == fixed_all(tcs_view(old(components)@)),
    {
        let ghost s = tcs_view(components@);
        proof {
            lemma_tcs_view(components@);
        }
        let n = components.len();
        let mut facts: Vec<ListFacts> = Vec::new();
        let mut j: usize = 0;
        while j < n
            invariant
                n == components@.len(),
                s == tcs_view(components@),
                s.len() == n,
                forall|k: int| 0 <= k < n ==> #[trigger] s[k] == tc_view(components@[k]),
                j <= n,
                facts@.len() == j,
                forall|k: int| 0 <= k < j ==> facts_of(#[trigger] facts@[k], s[k]),
            decreases n - j,
        {
            let c = &components[j];
            let f = match c {
                TemplateComponent::List(list) => {
                    let rendering = self.get_component_rendering(c);
                    let shown = rendering.suppress != Some(true);
                    let vars = self.extract_list_vars(list);
                    let visible = if shown {
                        Vec::new()
                    } else {
                        self.get_visible_types_for_component(c)
                    };
                    ListFacts { is_list: true, shown, vars, visible }
                },
                _ => ListFacts { is_list: false, shown: false, vars: Vec::new(), visible: Vec::new() },
            };
            proof {
                assert(s[j as int] == tc_view(components@[j as int]));
            }
            facts.push(f);
            j = j + 1;
        }
        let mut out: Vec<TemplateComponent> = Vec::new();
        let mut i: usize = 0;
        while i < n
            invariant
                n == components@.len(),
                s == tcs_view(components@),
                s.len() == n,
                forall|k: int| 0 <= k < n ==> #[trigger] s[k] == tc_view(components@[k]),
                facts@.len() == n,
                forall|k: int| 0 <= k < n ==> facts_of(#[trigger] facts@[k], s[k]),
                i <= n,
                out@.len() == i,
                forall|k: int| 0 <= k < i ==> #[trigger] tc_view(out@[k]) == fixed_component(s[k], s),
            decreases n - i,
        {
            let mut c = copy_component(&components[i]);
            let ghost c0 = tc_view(c);
            proof {
                assert(c0 == s[i as int]);
            }
            match self.get_variable_key(&c) {
                None => {},
                Some(key) => {
                    let mut suppressed = self.get_component_rendering(&c);
                    suppressed.suppress = Some(true);
                    let ghost r = rendering_view(suppressed);
                    proof {
                        assert(r == with_suppress(tcv_rendering(c0), true));
                    }
                    if self.in_shown_list(&facts, &key, Ghost(s)) {
                        self.set_component_rendering(&mut c, suppressed);
                    } else {
                        let types = self.hidden_list_types(&facts, &key, Ghost(s));
                        let mut m: usize = 0;
                        while m < types.len()
                            invariant
                                m <= types@.len(),
                                tc_view(c) == overrides_for_names(c0, string_views(types@).subrange(0, m as int), r),
                                rendering_view(suppressed) == r,
                            decreases types@.len() - m,
                        {
                            let ghost before = tc_view(c);
                            let t = types[m].clone();
                            let rr = suppressed.clone();
                            self.add_override_to_component(&mut c, t, rr);
                            proof {
                                let u = string_views(types@).subrange(0, m + 1);
                                assert(u.drop_last() =~= string_views(types@).subrange(0, m as int));
                                assert(u.last() == types@[m as int]@);
                            }
                            m = m + 1;
                        }
                        proof {
                            assert(string_views(types@).subrange(0, types@.len() as int) =~= string_views(types@));
                        }
                    }
                },
            }
            out.push(c);
            i = i + 1;
        }
        proof {
            lemma_tcs_view(out@);
            assert(tcs_view(out@) =~= fixed_all(s));
        }
        *components = out;
    }

    /// Whether a list shown by default renders `key` (`in_shown_list`).
    fn in_shown_list(&self, facts: &Vec<ListFacts>, key: &String, Ghost(s): Ghost<Seq<TCV>>) -> (r: bool)
        requires
            facts@.len() == s.len(),
            forall|k: int| 0 <= k < s.len() ==> facts_of(#[trigger] facts@[k], s[k]),
        ensures
            r == in_shown_list(s, key@),
    {
        let mut j: usize = 0;
        while j < facts.len()
            invariant
                j <= facts@.len(),
                facts@.len() == s.len(),
                forall|k: int| 0 <= k < s.len() ==> facts_of(#[trigger] facts@[k], s[k]),
                forall|k: int| 0 <= k < j ==> !(is_shown_list(#[trigger] s[k]) && item_vars(s[k]).contains(key@)),
            decreases facts@.len() - j,
        {
            let f = &facts[j];
            if f.is_list && f.shown && contains_string(&f.vars, key) {
                proof {
                    assert(facts_of(facts@[j as int], s[j as int]));
                }
                return true;
            }
            proof {
                assert(facts_of(facts@[j as int], s[j as int]));
            }
            j = j + 1;
        }
        false
    }

    /// The types for which lists hidden by default show `key`
    /// (`hidden_list_types`).
    fn hidden_list_types(&self, facts: &Vec<ListFacts>, key: &String, Ghost(s): Ghost<Seq<TCV>>) -> (r: Vec<String>)
        requires
            facts@.len() == s.len(),
            forall|k: int| 0 <= k < s.len() ==> facts_of(#[trigger] facts@[k], s[k]),
        ensures
            string_views(r@) == hidden_list_types(s, key@),
    {
        let mut types: Vec<String> = Vec::new();
        let mut j: usize = 0;
        proof {
            assert(s.subrange(0, 0) =~= Seq::<TCV>::empty());
            assert(string_views(types@) =~= Seq::<Seq<char>>::empty());
        }
        while j < facts.len()
            invariant
                j <= facts@.len(),
                facts@.len() == s.len(),
                forall|k: int| 0 <= k < s.len() ==> facts_of(#[trigger] facts@[k], s[k]),
                string_views(types@) == hidden_list_types(s.subrange(0, j as int), key@),
            decreases facts@.len() - j,
        {
            let ghost before = string_views(types@);
            let f = &facts[j];
            proof {
                assert(facts_of(facts@[j as int], s[j as int]));
                let u = s.subrange(0, j + 1);
                assert(u.drop_last() =~= s.subrange(0, j as int));
                assert(u.last() == s[j as int]);
            }
            if f.is_list && !f.shown {
                let ghost vars = string_views(f.vars@);
                let ghost vis = string_views(f.visible@);
                let mut m: usize = 0;
                proof {
                    assert(vars.subrange(0, 0) =~= Seq::<Seq<char>>::empty());
                    assert(before + types_for(vars.subrange(0, 0), key@, vis) =~= before);
                }
                while m < f.vars.len()
                    invariant
                        m <= f.vars@.len(),
                        vars == string_views(f.vars@),
                        vis == string_views(f.visible@),
                        string_views(types@) == before + types_for(vars.subrange(0, m as int), key@, vis),
                    decreases f.vars@.len() - m,
                {
                    let ghost mid = string_views(types@);
                    proof {
                        let u = vars.subrange(0, m + 1);
                        assert(u.drop_last() =~= vars.subrange(0, m as int));
                        assert(u.last() == f.vars@[m as int]@);
                    }
                    if crate::text::str_eq(f.vars[m].as_str(), key.as_str()) {
                        let mut k: usize = 0;
                        while k < f.visible.len()
                            invariant
                                k <= f.visible@.len(),
                                vis == string_views(f.visible@),
                                string_views(types@) == mid + vis.subrange(0, k as int),
                            decreases f.visible@.len() - k,
                        {
                            let ghost old_v = types@;
                            let t = f.visible[k].clone();
                            types.push(t);
                            proof {
                                assert(string_views(types@) =~= string_views(old_v).push(t@));
                                assert(vis.subrange(0, k + 1) =~= vis.subrange(0, k as int).push(vis[k as int]));
                            }
                            k = k + 1;
                        }
                        proof {
                            assert(vis.subrange(0, vis.len() as int) =~= vis);
                            assert(string_views(types@) =~= before + types_for(vars.subrange(0, m + 1), key@, vis));
                        }
                    } else {
                        proof {
                            assert(string_views(types@) =~= before + types_for(vars.subrange(0, m + 1), key@, vis));
                        }
                    }
                    m = m + 1;
                }
                proof {
                    assert(vars.subrange(0, vars.len() as int) =~= vars);
                }
            }
            j = j + 1;
        }
        proof {
            assert(s.subrange(0, s.len() as int) =~= s);
        }
        types
    }
}

/// What the pass needs to know of one component: whether it is a list,
/// whether it is shown by default, the variables it renders and the types
/// for which it is shown.
struct ListFacts {
    is_list: bool,
    shown: bool,
    vars: Vec<String>,
    visible: Vec<String>,
}

/// `f` describes the component `c`.
spec fn facts_of(f: ListFacts, c: TCV) -> bool {
    &&& f.is_list == c is List
    &&& f.shown == is_shown_list(c)
    &&& f.is_list ==> string_views(f.vars@) == item_vars(c)
    &&& (f.is_list && !f.shown) ==> string_views(f.visible@) == visible_types(c)
}

/// Whether `v` holds a string equal to `k`.
fn contains_string(v: &Vec<String>, k: &String) -> (r: bool)
    ensures
        r == string_views(v@).contains(k@),
{
    let mut i: usize = 0;
    while i < v.len()
        invariant
            i <= v@.len(),
            forall|m: int| 0 <= m < i ==> (#[trigger] v@[m])@ != k@,
        decreases v@.len() - i,
    {
        if crate::text::str_eq(v[i].as_str(), k.as_str()) {
            proof {
                assert(string_views(v@)[i as int] == k@);
            }
            return true;
        }
        i = i + 1;
    }
    proof {
        assert forall|m: int| 0 <= m < string_views(v@).len() implies string_views(v@)[m] != k@ by {
            assert(string_views(v@)[m] == v@[m]@);
        }
    }
    false
}

} // verus!
