//! The older compilation path, which merges each component into the
//! template as it is compiled: a component already present is made
//! visible (or given overrides for the branch types it was found in),
//! and a new one is added hidden for all but those types.

use vstd::prelude::*;
use crate::legacy::ItemType;
use crate::passes::common::{find_selector, first_index, lemma_first_index, sel_index, single};
use crate::template::{ComponentOverride, TemplateComponent, TemplateList, TypeSelector};
use crate::template_compiler::collect::{tcv_rendering, with_rendering};
use crate::template_compiler::copy::copy_component;
use crate::template_compiler::merge::{item_for_types, override_for_type, with_suppress};
use crate::template_compiler::nodes::item_type_name;
use crate::template_compiler::{has_variable, same_variable, TemplateCompiler};
use crate::passes::common::tcv_overrides;
use crate::template_view::{
    lemma_ov_entries_view, lemma_tcs_view, ov_entries_view, ov_view, ovs_view, rendering_view, selector_view, tc_view,
    tcs_view, ListV, OverrideV, RenderingV, SelV, TCV,
};

verus! {

/// The rendering that `c` gives the type named `name`, made visible: the
/// one its override for the type sets, else its own; none when that
/// override replaces the whole component.
pub open spec fn type_rendering(c: TCV, name: Seq<char>) -> Option<RenderingV> {
    let found: Option<OverrideV> = match tcv_overrides(c) {
        Some(s) => if sel_index(s, single(name)) >= 0 {
            Some(s[sel_index(s, single(name))].1)
        } else {
            None
        },
        None => None,
    };
    match found {
        Some(OverrideV::Rendering(r)) => Some(with_suppress(r, false)),
        Some(OverrideV::Component(_)) => None,
        None => Some(with_suppress(tcv_rendering(c), false)),
    }
}

/// `e` with, for each of `types` in order, the rendering `c` gives it
/// (`type_rendering`) set as its override.
pub open spec fn overrides_from(e: TCV, c: TCV, types: Seq<ItemType>) -> TCV
    decreases types.len(),
{
    if types.len() == 0 {
        e
    } else {
        let e1 = overrides_from(e, c, types.drop_last());
        let name = item_type_name(types.last());
        match type_rendering(c, name) {
            Some(r) => override_for_type(e1, name, r),
            None => e1,
        }
    }
}

/// A component made visible by default if it was hidden.
pub open spec fn unsuppressed(e: TCV) -> TCV {
    if tcv_rendering(e).suppress == Some(true) {
        with_rendering(e, with_suppress(tcv_rendering(e), false))
    } else {
        e
    }
}

/// The component `e` after `c` is found again for `types` somewhere in
/// it: where `e` renders the same variable, made visible (no types) or
/// given overrides for the types; in a list, each item in turn.
pub open spec fn overrides_recursive(e: TCV, c: TCV, types: Seq<ItemType>) -> TCV
    decreases e, 1nat,
{
    if same_variable(e, c) {
        if types.len() == 0 {
            unsuppressed(e)
        } else {
            overrides_from(e, c, types)
        }
    } else {
        match e {
            TCV::List(l) => {
                proof {
                    assert(decreases_to!(e => e->List_0));
                    assert(decreases_to!(e->List_0 => e->List_0.items));
                }
                TCV::List(ListV { items: items_overrides_recursive(e->List_0.items, c, types), ..l })
            },
            _ => e,
        }
    }
}

/// The items of a list, each as `overrides_recursive` says.
pub open spec fn items_overrides_recursive(s: Seq<TCV>, c: TCV, types: Seq<ItemType>) -> Seq<TCV>
    decreases s, 0nat,
{
    if s.len() == 0 {
        Seq::empty()
    } else {
        items_overrides_recursive(s.drop_last(), c, types).push(overrides_recursive(s.last(), c, types))
    }
}

/// Whether `x` is where `c` is found: it renders the same variable, or it
/// is a list that holds it.
pub open spec fn upgrade_hit(x: TCV, c: TCV) -> bool {
    same_variable(x, c) || (x is List && has_variable(x->List_0.items, c))
}

/// A component `e` rendering the same variable as `c`, after `c` is found
/// again for `types`: with no types, made visible, and replaced by `c`
/// when both are dates and only `c` has a wrap; else with overrides for
/// the types.
pub open spec fn upgraded_existing(e: TCV, c: TCV, types: Seq<ItemType>) -> TCV {
    if types.len() == 0 {
        let e1 = unsuppressed(e);
        if e1 is Date && c is Date && tcv_rendering(e1).wrap is None && tcv_rendering(c).wrap is Some {
            c
        } else {
            e1
        }
    } else {
        overrides_from(e, c, types)
    }
}

/// The template `acc` after the component `c` found for `types` (none: for
/// every type): the first component where `c` is found is upgraded
/// (`upgraded_existing`, or `overrides_recursive` for a list that holds
/// it); otherwise `c` is added, as it is for every type, else hidden and
/// shown for each of the types (`item_for_types`).
pub open spec fn upgraded(acc: Seq<TCV>, c: TCV, types: Seq<ItemType>) -> Seq<TCV> {
    let j = first_index(acc, |x: TCV| upgrade_hit(x, c));
    if j < 0 {
        acc.push(
            if types.len() == 0 {
                c
            } else {
                item_for_types(c, types)
            },
        )
    } else if same_variable(acc[j], c) {
        acc.update(j, upgraded_existing(acc[j], c, types))
    } else {
        acc.update(j, overrides_recursive(acc[j], c, types))
    }
}

/// `acc` after each of `cs` in order (`upgraded`).
pub open spec fn upgraded_all(acc: Seq<TCV>, cs: Seq<TCV>, types: Seq<ItemType>) -> Seq<TCV>
    decreases cs.len(),
{
    if cs.len() == 0 {
        acc
    } else {
        upgraded(upgraded_all(acc, cs.drop_last(), types), cs.last(), types)
    }
}

/// Merging a component in changes one component of the template, the
/// first where it is found, and leaves the others as they are; only a
/// component found nowhere is added, at the end.
pub proof fn law_upgrade_touches_one(acc: Seq<TCV>, c: TCV, types: Seq<ItemType>)
    ensures
        ({
            let r = upgraded(acc, c, types);
            let j = first_index(acc, |x: TCV| upgrade_hit(x, c));
            if j < 0 {
                &&& r.len() == acc.len() + 1
                &&& r.subrange(0, acc.len() as int) == acc
                &&& forall|k: int| 0 <= k < acc.len() ==> !upgrade_hit(#[trigger] acc[k], c)
            } else {
                &&& r.len() == acc.len()
                &&& upgrade_hit(acc[j], c)
                &&& forall|k: int| 0 <= k < acc.len() && k != j ==> #[trigger] r[k] == acc[k]
            }
        }),
{
    let p = |x: TCV| upgrade_hit(x, c);
    lemma_first_index(acc, p);
    let j = first_index(acc, p);
    if j < 0 {
        assert(upgraded(acc, c, types).subrange(0, acc.len() as int) =~= acc);
        assert forall|k: int| 0 <= k < acc.len() implies !upgrade_hit(#[trigger] acc[k], c) by {
            assert(!p(acc[k]));
        }
    } else {
        assert(p(acc[j]));
    }
}

impl TemplateCompiler {
    /// The overrides `existing` gets when `new_comp` is found again for
    /// `current_types` (`overrides_from`).
    pub fn add_overrides_to_existing(
        &self,
        existing: &mut TemplateComponent,
        new_comp: &TemplateComponent,
        current_types: &Vec<ItemType>,
    )
        ensures
            tc_view(*final(existing)) == overrides_from(tc_view(*old(existing)), tc_view(*new_comp), current_types@),
    {
        let ghost start = tc_view(*existing);
        let ghost c = tc_view(*new_comp);
        let base_rendering = self.get_component_rendering(new_comp);
        let new_overrides = new_comp.overrides();
        proof {
            lemma_component_overrides_view(*new_comp);
        }
        let mut k: usize = 0;
        while k < current_types.len()
            invariant
                k <= current_types@.len(),
                c == tc_view(*new_comp),
                rendering_view(base_rendering) == tcv_rendering(c),
                new_overrides is Some <==> tcv_overrides(c) is Some,
                new_overrides is Some ==> tcv_overrides(c) == Some(ov_entries_view(new_overrides.unwrap()@)),
                tc_view(*existing) == overrides_from(start, c, current_types@.subrange(0, k as int)),
            decreases current_types@.len() - k,
        {
            proof {
                assert(current_types@.subrange(0, k + 1).drop_last() =~= current_types@.subrange(0, k as int));
            }
            let type_str = self.item_type_to_string(&current_types[k]);
            let ghost name = type_str@;
            let key = TypeSelector::Single(type_str.clone());
            proof {
                assert(selector_view(key) == single(name));
            }
            let found: Option<Option<crate::template::Rendering>> = match new_overrides {
                Some(entries) => match find_selector(entries, &key) {
                    Some(j) => {
                        proof {
                            lemma_ov_entries_view(entries@);
                            let es = ov_entries_view(entries@);
                            assert(tcv_overrides(c) == Some(es));
                            assert(es[j as int].1 == ov_view(entries@[j as int].1));
                        }
                        match &entries[j].1 {
                            ComponentOverride::Rendering(r) => Some(Some(r.clone())),
                            ComponentOverride::Component(_) => Some(None),
                        }
                    },
                    None => None,
                },
                None => None,
            };
            let rendering = match found {
                Some(Some(r)) => Some(r),
                Some(None) => None,
                None => Some(base_rendering.clone()),
            };
            proof {
                if rendering is Some {
                    assert(type_rendering(c, name) == Some(with_suppress(rendering_view(rendering->Some_0), false)));
                } else {
                    assert(type_rendering(c, name) is None);
                }
            }
            match rendering {
                Some(r) => {
                    let ghost r0 = rendering_view(r);
                    proof {
                        assert(type_rendering(c, name) == Some(with_suppress(r0, false)));
                    }
                    let mut r = r;
                    if r.suppress.is_none() || r.suppress == Some(true) {
                        r.suppress = Some(false);
                    }
                    proof {
                        assert(r.suppress == Some(false));
                        assert(rendering_view(r) == with_suppress(r0, false));
                    }
                    self.add_override_to_component(existing, type_str, r);
                },
                None => {},
            }
            k = k + 1;
        }
        proof {
            assert(current_types@.subrange(0, current_types@.len() as int) =~= current_types@);
        }
    }

    /// The component `component` after `new_comp` is found again for
    /// `current_types` somewhere in it (`overrides_recursive`).
    pub fn add_overrides_recursive(
        &self,
        component: TemplateComponent,
        new_comp: &TemplateComponent,
        current_types: &Vec<ItemType>,
    ) -> (r: TemplateComponent)
        ensures
            tc_view(r) == overrides_recursive(tc_view(component), tc_view(*new_comp), current_types@),
        decreases component, 1nat,
    {
        if self.same_variable(&component, new_comp) {
            let mut component = component;
            if current_types.len() == 0 {
                let mut rendering = self.get_component_rendering(&component);
                if rendering.suppress == Some(true) {
                    rendering.suppress = Some(false);
                    self.set_component_rendering(&mut component, rendering);
                }
            } else {
                self.add_overrides_to_existing(&mut component, new_comp, current_types);
            }
            return component;
        }
        match component {
            TemplateComponent::List(l) => {
                proof {
                    assert(decreases_to!(component => l));
                    assert(decreases_to!(l => l.items));
                    assert(decreases_to!(l.items => l.items@));
                }
                let TemplateList { items, delimiter, rendering, overrides } = l;
                let items = self.add_overrides_to_items(items, new_comp, current_types);
                TemplateComponent::List(TemplateList { items, delimiter, rendering, overrides })
            },
            other => other,
        }
    }

    /// The items of a list, each as `add_overrides_recursive` gives it.
    fn add_overrides_to_items(
        &self,
        items: Vec<TemplateComponent>,
        new_comp: &TemplateComponent,
        current_types: &Vec<ItemType>,
    ) -> (r: Vec<TemplateComponent>)
        ensures
            tcs_view(r@) == items_overrides_recursive(tcs_view(items@), tc_view(*new_comp), current_types@),
        decreases items@, 0nat,
    {
        let ghost s = items@;
        let mut items = items;
        match items.pop() {
            None => {
                assert(s =~= Seq::<TemplateComponent>::empty());
                Vec::new()
            },
            Some(last) => {
                proof {
                    assert(items@ =~= s.subrange(0, s.len() - 1));
                    assert(decreases_to!(s => items@));
                    assert(decreases_to!(s => s[s.len() - 1]));
                }
                let mut out = self.add_overrides_to_items(items, new_comp, current_types);
                let c = self.add_overrides_recursive(last, new_comp, current_types);
                let ghost before = out@;
                out.push(c);
                proof {
                    assert(out@.drop_last() =~= before);
                    assert(s.drop_last() =~= items@);
                    lemma_tcs_view(s);
                    assert(tcs_view(s).drop_last() =~= tcs_view(s.drop_last())) by {
                        lemma_tcs_view(s.drop_last());
                    }
                }
                out
            },
        }
    }

    /// Merges `new_component`, found for `current_types`, into the template
    /// `components` (`upgraded`).
    pub fn add_or_upgrade_component(
        &self,
        components: &mut Vec<TemplateComponent>,
        new_component: TemplateComponent,
        current_types: &Vec<ItemType>,
    )
        ensures
            tcs_view(final(components)@) == upgraded(
                tcs_view(old(components)@),
                tc_view(new_component),
                current_types@,
            ),
    {
        let ghost s = tcs_view(components@);
        let ghost c = tc_view(new_component);
        let ghost p = |x: TCV| upgrade_hit(x, c);
        proof {
            lemma_tcs_view(components@);
            lemma_first_index(s, p);
        }
        let mut existing_idx: Option<usize> = None;
        let mut in_list: Option<usize> = None;
        let mut i: usize = 0;
        while i < components.len()
            invariant_except_break
                existing_idx is None && in_list is None,
            invariant
                i <= components@.len(),
                s == tcs_view(components@),
                s.len() == components@.len(),
                forall|k: int| 0 <= k < components@.len() ==> #[trigger] s[k] == tc_view(components@[k]),
                c == tc_view(new_component),
                p == (|x: TCV| upgrade_hit(x, c)),
                forall|k: int| 0 <= k < i ==> !p(#[trigger] s[k]),
            ensures
                existing_idx is Some ==> in_list is None && existing_idx.unwrap() < s.len() && same_variable(
                    s[existing_idx.unwrap() as int],
                    c,
                ) && forall|k: int| 0 <= k < existing_idx.unwrap() ==> !p(#[trigger] s[k]),
                in_list is Some ==> existing_idx is None && in_list.unwrap() < s.len() && !same_variable(
                    s[in_list.unwrap() as int],
                    c,
                ) && p(s[in_list.unwrap() as int]) && forall|k: int| 0 <= k < in_list.unwrap() ==> !p(#[trigger] s[k]),
                existing_idx is None && in_list is None ==> forall|k: int| 0 <= k < s.len() ==> !p(#[trigger] s[k]),
            decreases components@.len() - i,
        {
            if self.same_variable(&components[i], &new_component) {
                existing_idx = Some(i);
                break;
            }
            let hit = match &components[i] {
                TemplateComponent::List(l) => self.has_variable_recursive(l.items.as_slice(), &new_component),
                _ => false,
            };
            if hit {
                proof {
                    assert(p(s[i as int]));
                }
                in_list = Some(i);
                break;
            }
            proof {
                assert(!p(s[i as int]));
            }
            i = i + 1;
        }
        match in_list {
            Some(idx) => {
                proof {
                    assert(p(s[idx as int]));
                    assert(first_index(s, p) == idx as int);
                }
                let current = copy_component(&components[idx]);
                let upgraded = self.add_overrides_recursive(current, &new_component, current_types);
                components.set(idx, upgraded);
                proof {
                    lemma_tcs_view(components@);
                    assert(tcs_view(components@) =~= s.update(idx as int, tc_view(upgraded)));
                }
                return;
            },
            None => {},
        }
        match existing_idx {
            Some(idx) => {
                proof {
                    assert(p(s[idx as int]));
                    assert(first_index(s, p) == idx as int);
                }
                let mut current = copy_component(&components[idx]);
                if current_types.len() == 0 {
                    let mut rendering = self.get_component_rendering(&current);
                    if rendering.suppress == Some(true) {
                        rendering.suppress = Some(false);
                        self.set_component_rendering(&mut current, rendering);
                    }
                    let replace = match (&current, &new_component) {
                        (TemplateComponent::Date(existing), TemplateComponent::Date(new)) => existing.rendering.wrap.is_none()
                            && new.rendering.wrap.is_some(),
                        _ => false,
                    };
                    if replace {
                        current = new_component;
                    }
                } else {
                    self.add_overrides_to_existing(&mut current, &new_component, current_types);
                }
                let ghost cv = tc_view(current);
                components.set(idx, current);
                proof {
                    lemma_tcs_view(components@);
                    assert(tcs_view(components@) =~= s.update(idx as int, cv));
                }
            },
            None => {
                proof {
                    assert(first_index(s, p) == -1);
                }
                let added = if current_types.len() == 0 {
                    new_component
                } else {
                    self.add_type_overrides_to_list_item(new_component, current_types)
                };
                let ghost av = tc_view(added);
                components.push(added);
                proof {
                    lemma_tcs_view(components@);
                    assert(tcs_view(components@) =~= s.push(av));
                }
            },
        }
    }
}

/// The overrides of a component, by their contents.
proof fn lemma_component_overrides_view(c: TemplateComponent)
    ensures
        tcv_overrides(tc_view(c)) == ovs_view(crate::template::component_overrides(c)),
{
}

} // verus!
