//! Reordering passes: serial components, pages, publisher place, chapter
//! parts and access components, and the propagation of type-specific
//! overrides within lists.

use vstd::prelude::*;
use crate::passes::common::{
    add_override, first_index, insert_override, is_contributor, is_date, is_number, is_title, is_variable,
    lemma_first_index, ov_insert, sel_index, single, single_selector, suppress_only, suppress_rendering,
    tcv_overrides, with_override, with_overrides,
};
use crate::passes::grouping::{volume_pred};
use crate::preset_detector::StylePreset;
use crate::template::{
    ComponentOverride, ContributorRole, DateVariable, NameOrder, NumberVariable, Rendering, SimpleVariable,
    TemplateComponent, TemplateList, TitleType, TypeSelector,
};
use crate::template_view::{
    lemma_ov_entries_view, lemma_tcs_view, lemma_tcs_view_step, no_rendering, ov_entries_view, ov_view, ovs_view,
    rendering_view, selector_view, tc_view, tcs_view, ListV, OverrideV, OverridesV, RenderingV, SelV, TCV,
};
use crate::text::to_owned_string;

verus! {

/// The test for the parent-serial title.
pub open spec fn serial_pred() -> spec_fn(TCV) -> bool {
    |c: TCV| is_title(c, TitleType::ParentSerial)
}

/// `s` with the first volume and the first parent-serial title swapped when
/// the volume comes first.
pub open spec fn serial_first(s: Seq<TCV>) -> Seq<TCV> {
    let v = first_index(s, volume_pred());
    let p = first_index(s, serial_pred());
    if v >= 0 && p >= 0 && v < p {
        s.update(v, s[p]).update(p, s[v])
    } else {
        s
    }
}

/// A list with its items passed through `serial_first`.
pub open spec fn serial_first_in(c: TCV) -> TCV {
    match c {
        TCV::List(l) => TCV::List(ListV { items: serial_first(l.items), ..l }),
        _ => c,
    }
}

/// `serial_first_in` applied to each component of `s`.
pub open spec fn serial_first_each(s: Seq<TCV>) -> Seq<TCV> {
    Seq::new(s.len(), |i: int| serial_first_in(s[i]))
}

/// The serial reordering of a top-level component: a list gets its own
/// items reordered, then each list among them gets its items reordered.
pub open spec fn serial_reordered(c: TCV) -> TCV {
    match c {
        TCV::List(l) => TCV::List(ListV { items: serial_first_each(serial_first(l.items)), ..l }),
        _ => c,
    }
}

fn find(items: &Vec<TemplateComponent>, which: u8) -> (r: Option<usize>)
    requires
        which < 8,
    ensures
        match r {
            Some(j) => j < items@.len() && j == first_index(tcs_view(items@), reorder_pred(which)),
            None => first_index(tcs_view(items@), reorder_pred(which)) == -1,
        },
{
    proof {
        lemma_tcs_view(items@);
        lemma_first_index(tcs_view(items@), reorder_pred(which));
    }
    let ghost s = tcs_view(items@);
    let mut i: usize = 0;
    while i < items.len()
        invariant
            which < 8,
            i <= items@.len(),
            s == tcs_view(items@),
            s.len() == items@.len(),
            forall|k: int| 0 <= k < items@.len() ==> #[trigger] s[k] == tc_view(items@[k]),
            forall|k: int| 0 <= k < i ==> !(reorder_pred(which))(#[trigger] s[k]),
        decreases items@.len() - i,
    {
        let hit = matches_pred(&items[i], which);
        assert(s[i as int] == tc_view(items@[i as int]));
        if hit {
            proof {
                lemma_first_index(s, reorder_pred(which));
            }
            return Some(i);
        }
        i = i + 1;
    }
    proof {
        lemma_first_index(s, reorder_pred(which));
    }
    None
}

/// Whether a list's direct items hold the publisher place.
pub open spec fn holds_publisher_place(c: TCV) -> bool {
    c is List && exists|j: int|
        0 <= j < c->List_0.items.len() && is_variable(#[trigger] c->List_0.items[j], SimpleVariable::PublisherPlace)
}

/// Whether a component is or holds the parent-serial title, at any depth.
pub open spec fn holds_serial(c: TCV) -> bool
    decreases c, 0nat,
{
    match c {
        TCV::List(_) => holds_serial_in(c->List_0.items),
        _ => is_title(c, TitleType::ParentSerial),
    }
}

/// Whether some component of `s` is or holds the parent-serial title.
pub open spec fn holds_serial_in(s: Seq<TCV>) -> bool
    decreases s, 1nat,
{
    if s.len() == 0 {
        false
    } else {
        holds_serial_in(s.drop_last()) || holds_serial(s.last())
    }
}

/// The tests `find` applies: 0 the volume, 1 the parent-serial title, 2 the
/// pages, 3 a component holding the parent-serial title, 4 a list holding
/// the publisher place, 5 the editor, 6 the parent-monograph title, 7 the
/// issue.
pub open spec fn reorder_pred(which: u8) -> spec_fn(TCV) -> bool {
    if which == 0 {
        volume_pred()
    } else if which == 1 {
        serial_pred()
    } else if which == 2 {
        |c: TCV| is_number(c, NumberVariable::Pages)
    } else if which == 3 {
        |c: TCV| holds_serial(c)
    } else if which == 4 {
        |c: TCV| holds_publisher_place(c)
    } else if which == 5 {
        |c: TCV| is_contributor(c, ContributorRole::Editor)
    } else if which == 6 {
        |c: TCV| is_title(c, TitleType::ParentMonograph)
    } else {
        |c: TCV| is_number(c, NumberVariable::Issue)
    }
}

fn holds_serial_exec(c: &TemplateComponent) -> (r: bool)
    ensures
        r == holds_serial(tc_view(*c)),
    decreases c,
{
    match c {
        TemplateComponent::List(l) => {
            let items = &l.items;
            let mut i: usize = 0;
            proof {
                assert(items@.subrange(0, 0) =~= Seq::<TemplateComponent>::empty());
            }
            while i < items.len()
                invariant
                    *c == TemplateComponent::List(*l),
                    l.items == *items,
                    i <= items@.len(),
                    !holds_serial_in(tcs_view(items@.subrange(0, i as int))),
                decreases items@.len() - i,
            {
                proof {
                    assert(decreases_to!(*c => *l));
                    assert(decreases_to!(*l => l.items));
                    assert(decreases_to!(l.items => l.items@));
                    assert(decreases_to!(l.items@ => l.items@[i as int]));
                }
                let hit = holds_serial_exec(&items[i]);
                let ghost t = items@.subrange(0, i + 1);
                proof {
                    assert(t.drop_last() =~= items@.subrange(0, i as int));
                    lemma_tcs_view_step(t);
                }
                if hit {
                    proof {
                        lemma_holds_serial_prefix(items@, i + 1);
                    }
                    return true;
                }
                i = i + 1;
            }
            proof {
                assert(items@.subrange(0, items@.len() as int) =~= items@);
            }
            false
        },
        TemplateComponent::Title(t) => t.title == TitleType::ParentSerial,
        _ => false,
    }
}

proof fn lemma_holds_serial_prefix(s: Seq<TemplateComponent>, k: int)
    requires
        0 <= k <= s.len(),
        holds_serial_in(tcs_view(s.subrange(0, k))),
    ensures
        holds_serial_in(tcs_view(s)),
    decreases s.len() - k,
{
    if k < s.len() {
        let t = s.subrange(0, k + 1);
        assert(t.drop_last() =~= s.subrange(0, k));
        lemma_tcs_view_step(t);
        lemma_holds_serial_prefix(s, k + 1);
    } else {
        assert(s.subrange(0, k) =~= s);
    }
}

fn matches_pred(c: &TemplateComponent, which: u8) -> (r: bool)
    requires
        which < 8,
    ensures
        r == (reorder_pred(which))(tc_view(*c)),
{
    if which == 3 {
        return holds_serial_exec(c);
    }
    match c {
        TemplateComponent::Number(n) => (which == 0 && n.number == NumberVariable::Volume) || (which == 2 && n.number
            == NumberVariable::Pages) || (which == 7 && n.number == NumberVariable::Issue),
        TemplateComponent::Title(t) => (which == 1 && t.title == TitleType::ParentSerial) || (which == 6 && t.title
            == TitleType::ParentMonograph),
        TemplateComponent::Contributor(x) => which == 5 && x.contributor == ContributorRole::Editor,
        TemplateComponent::List(l) => {
            if which != 4 {
                return false;
            }
            let items = &l.items;
            proof {
                lemma_tcs_view(items@);
                assert(tc_view(*c)->List_0.items == tcs_view(items@));
            }
            let mut j: usize = 0;
            while j < items.len()
                invariant
                    which == 4,
                    *c == TemplateComponent::List(*l),
                    l.items == *items,
                    tc_view(*c)->List_0.items == tcs_view(items@),
                    j <= items@.len(),
                    tcs_view(items@).len() == items@.len(),
                    forall|k: int| 0 <= k < items@.len() ==> #[trigger] tcs_view(items@)[k] == tc_view(items@[k]),
                    forall|k: int| 0 <= k < j ==> !is_variable(#[trigger] tcs_view(items@)[k], SimpleVariable::PublisherPlace),
                decreases items@.len() - j,
            {
                let hit = match &items[j] {
                    TemplateComponent::Variable(v) => v.variable == SimpleVariable::PublisherPlace,
                    _ => false,
                };
                if hit {
                    assert(is_variable(tcs_view(items@)[j as int], SimpleVariable::PublisherPlace));
                    assert(tc_view(*c)->List_0.items[j as int] == tcs_view(items@)[j as int]);
                    assert(holds_publisher_place(tc_view(*c)));
                    return true;
                }
                j = j + 1;
            }
            false
        },
        _ => false,
    }
}

fn swap_items(items: &mut Vec<TemplateComponent>, a: usize, b: usize)
    requires
        a < b < old(items)@.len(),
    ensures
        tcs_view(final(items)@) == tcs_view(old(items)@).update(a as int, tcs_view(old(items)@)[b as int]).update(
            b as int,
            tcs_view(old(items)@)[a as int],
        ),
{
    let ghost s = tcs_view(items@);
    proof {
        lemma_tcs_view(items@);
    }
    let y = items.remove(b);
    let x = items.remove(a);
    items.insert(a, y);
    items.insert(b, x);
    proof {
        lemma_tcs_view(items@);
        assert(tcs_view(items@) =~= s.update(a as int, s[b as int]).update(b as int, s[a as int]));
    }
}

fn serial_first_exec(items: &mut Vec<TemplateComponent>)
    ensures
        tcs_view(final(items)@) == serial_first(tcs_view(old(items)@)),
{
    let v = find(items, 0);
    let p = find(items, 1);
    match (v, p) {
        (Some(v), Some(p)) => {
            if v < p {
                swap_items(items, v, p);
            }
        },
        _ => {},
    }
}

/// Swaps the volume and the parent-serial title in `list` when the volume
/// comes first.
pub fn reorder_serial_components_in_list(list: &mut TemplateList)
    ensures
        tcs_view(final(list).items@) == serial_first(tcs_view(old(list).items@)),
        final(list).delimiter == old(list).delimiter,
        final(list).rendering == old(list).rendering,
        final(list).overrides == old(list).overrides,
{
    serial_first_exec(&mut list.items);
}

fn serial_first_each_exec(items: &mut Vec<TemplateComponent>)
    ensures
        tcs_view(final(items)@) == serial_first_each(tcs_view(old(items)@)),
{
    let ghost s = tcs_view(items@);
    proof {
        lemma_tcs_view(items@);
    }
    let n = items.len();
    let mut i: usize = 0;
    while i < n
        invariant
            n == items@.len(),
            i <= n,
            s.len() == n,
            tcs_view(items@).len() == n,
            forall|k: int| 0 <= k < n ==> #[trigger] tcs_view(items@)[k] == tc_view(items@[k]),
            forall|k: int| 0 <= k < i ==> #[trigger] tcs_view(items@)[k] == serial_first_in(s[k]),
            forall|k: int| i <= k < n ==> #[trigger] tcs_view(items@)[k] == s[k],
        decreases n - i,
    {
        let ghost prev = items@;
        assert(tcs_view(prev)[i as int] == s[i as int]);
        assert(tcs_view(prev)[i as int] == tc_view(prev[i as int]));
        let c = items.remove(i);
        assert(tc_view(c) == s[i as int]);
        let c2 = match c {
            TemplateComponent::List(l) => {
                let mut l = l;
                serial_first_exec(&mut l.items);
                TemplateComponent::List(l)
            },
            other => other,
        };
        assert(tc_view(c2) == serial_first_in(s[i as int]));
        items.insert(i, c2);
        proof {
            assert(items@ =~= prev.update(i as int, c2));
            lemma_tcs_view(items@);
            assert forall|k: int| 0 <= k < n && k != i implies #[trigger] tcs_view(items@)[k] == tcs_view(prev)[k] by {
                assert(items@[k] == prev[k]);
            }
        }
        i = i + 1;
    }
    proof {
        assert(tcs_view(items@) =~= serial_first_each(s));
    }
}

/// For each top-level list: the volume and the parent-serial title among its
/// items are swapped when the volume comes first, and the same is done
/// within each list among those items.
pub fn reorder_serial_components(components: &mut Vec<TemplateComponent>)
    ensures
        tcs_view(final(components)@) == Seq::new(
            old(components)@.len(),
            |i: int| serial_reordered(tcs_view(old(components)@)[i]),
        ),
{
    let ghost s = tcs_view(components@);
    proof {
        lemma_tcs_view(components@);
    }
    let n = components.len();
    let mut i: usize = 0;
    while i < n
        invariant
            n == components@.len(),
            i <= n,
            s.len() == n,
            tcs_view(components@).len() == n,
            forall|k: int| 0 <= k < n ==> #[trigger] tcs_view(components@)[k] == tc_view(components@[k]),
            forall|k: int| 0 <= k < i ==> #[trigger] tcs_view(components@)[k] == serial_reordered(s[k]),
            forall|k: int| i <= k < n ==> #[trigger] tcs_view(components@)[k] == s[k],
        decreases n - i,
    {
        let ghost prev = components@;
        assert(tcs_view(prev)[i as int] == s[i as int]);
        assert(tcs_view(prev)[i as int] == tc_view(prev[i as int]));
        let c = components.remove(i);
        assert(tc_view(c) == s[i as int]);
        let c2 = match c {
            TemplateComponent::List(l) => {
                let mut l = l;
                serial_first_exec(&mut l.items);
                serial_first_each_exec(&mut l.items);
                TemplateComponent::List(l)
            },
            other => other,
        };
        assert(tc_view(c2) == serial_reordered(s[i as int]));
        components.insert(i, c2);
        proof {
            assert(components@ =~= prev.update(i as int, c2));
            lemma_tcs_view(components@);
            assert forall|k: int| 0 <= k < n && k != i implies #[trigger] tcs_view(components@)[k] == tcs_view(prev)[k] by {
                assert(components@[k] == prev[k]);
            }
        }
        i = i + 1;
    }
    proof {
        assert(tcs_view(components@) =~= Seq::new(n as nat, |i: int| serial_reordered(s[i])));
    }
}

/// `s` with the pages moved to just after the first component that holds
/// the parent-serial title, when the pages come before it.
pub open spec fn pages_after_serial(s: Seq<TCV>) -> Seq<TCV> {
    let p = first_index(s, reorder_pred(2));
    let q = first_index(s, reorder_pred(3));
    if p >= 0 && q >= 0 && p < q {
        s.remove(p).insert(q, s[p])
    } else {
        s
    }
}

/// Moves the pages to just after the component that holds the parent-serial
/// title (the container-title list of a serial), when they come before it.
pub fn reorder_pages_for_serials(components: &mut Vec<TemplateComponent>)
    ensures
        tcs_view(final(components)@) == pages_after_serial(tcs_view(old(components)@)),
{
    let ghost s = tcs_view(components@);
    proof {
        lemma_tcs_view(components@);
    }
    let p = find(components, 2);
    let q = find(components, 3);
    match (p, q) {
        (Some(p), Some(q)) => {
            if p < q {
                let c = components.remove(p);
                components.insert(q, c);
                proof {
                    lemma_tcs_view(components@);
                    assert(tcs_view(components@) =~= s.remove(p as int).insert(q as int, s[p as int]));
                }
            }
        },
        _ => {},
    }
}

/// A list with its suffix set to `suffix`.
pub open spec fn with_suffix(c: TCV, suffix: Seq<char>) -> TCV {
    match c {
        TCV::List(l) => TCV::List(ListV { rendering: RenderingV { suffix: Some(suffix), ..l.rendering }, ..l }),
        _ => c,
    }
}

/// For Chicago: the list holding the publisher place, when it comes after
/// the parent-serial title, is moved to just after that title, with a space
/// as its suffix.
pub open spec fn publisher_place_after_serial(s: Seq<TCV>) -> Seq<TCV> {
    let pp = first_index(s, reorder_pred(4));
    let ps = first_index(s, reorder_pred(1));
    if pp >= 0 && ps >= 0 && pp > ps {
        s.remove(pp).insert(ps + 1, with_suffix(s[pp], " "@))
    } else {
        s
    }
}

/// For Chicago styles, moves the list that holds the publisher place to
/// just after the parent-serial title, with a space as its suffix.
pub fn reorder_publisher_place_for_chicago(components: &mut Vec<TemplateComponent>, style_preset: Option<StylePreset>)
    ensures
        style_preset != Some(StylePreset::Chicago) ==> *final(components) == *old(components),
        style_preset == Some(StylePreset::Chicago) ==> tcs_view(final(components)@) == publisher_place_after_serial(
            tcs_view(old(components)@),
        ),
{
    if style_preset != Some(StylePreset::Chicago) {
        return;
    }
    let ghost s = tcs_view(components@);
    proof {
        lemma_tcs_view(components@);
    }
    let pp = find(components, 4);
    let ps = find(components, 1);
    match (pp, ps) {
        (Some(pp), Some(ps)) => {
            if pp > ps {
                let c = components.remove(pp);
                let c2 = match c {
                    TemplateComponent::List(l) => {
                        let mut l = l;
                        l.rendering.suffix = Some(to_owned_string(" "));
                        TemplateComponent::List(l)
                    },
                    other => other,
                };
                assert(tc_view(c2) == with_suffix(s[pp as int], " "@));
                components.insert(ps + 1, c2);
                proof {
                    lemma_tcs_view(components@);
                    assert(tcs_view(components@) =~= s.remove(pp as int).insert(ps + 1, with_suffix(s[pp as int], " "@)));
                }
            }
        },
        _ => {},
    }
}

/// A rendering override with the given prefix and suffix.
pub open spec fn affix_override(prefix: Option<Seq<char>>, suffix: Option<Seq<char>>) -> OverrideV {
    OverrideV::Rendering(RenderingV { prefix, suffix, ..no_rendering() })
}

fn affix_rendering(prefix: Option<&str>, suffix: Option<&str>) -> (r: Rendering)
    ensures
        rendering_view(r) == (RenderingV {
            prefix: match prefix { Some(p) => Some(p@), None => None },
            suffix: match suffix { Some(p) => Some(p@), None => None },
            ..no_rendering()
        }),
{
    Rendering {
        emph: None,
        quote: None,
        strong: None,
        small_caps: None,
        prefix: match prefix {
            Some(p) => Some(to_owned_string(p)),
            None => None,
        },
        suffix: match suffix {
            Some(p) => Some(to_owned_string(p)),
            None => None,
        },
        inner_prefix: None,
        inner_suffix: None,
        wrap: None,
        suppress: None,
        initialize_with: None,
        strip_periods: None,
    }
}

/// A contributor with given-first name order.
pub open spec fn given_first(c: TCV) -> TCV {
    match c {
        TCV::Contributor(b, r, o) => TCV::Contributor(
            crate::template::TemplateContributor { name_order: Some(NameOrder::GivenFirst), ..b },
            r,
            o,
        ),
        _ => c,
    }
}

/// The APA chapter form of the editor: given-first names and "In " / ", "
/// around them for chapters and conference papers.
pub open spec fn apa_chapter_editor(c: TCV) -> TCV {
    with_override(
        with_override(given_first(c), single("chapter"@), affix_override(Some("In "@), Some(", "@))),
        single("paper-conference"@),
        affix_override(Some("In "@), Some(", "@)),
    )
}

/// For APA: the editor, when it comes after the parent-monograph title, is
/// moved to just before it in its APA chapter form.
pub open spec fn apa_chapters(s: Seq<TCV>) -> Seq<TCV> {
    let ed = first_index(s, reorder_pred(5));
    let pm = first_index(s, reorder_pred(6));
    if ed >= 0 && pm >= 0 && ed > pm {
        s.remove(ed).insert(pm, apa_chapter_editor(s[ed]))
    } else {
        s
    }
}

fn set_given_first(c: &mut TemplateComponent)
    ensures
        tc_view(*final(c)) == given_first(tc_view(*old(c))),
{
    match c {
        TemplateComponent::Contributor(x) => {
            x.name_order = Some(NameOrder::GivenFirst);
        },
        _ => {},
    }
}

/// For APA styles, moves the editor before the parent-monograph title, with
/// given-first names and "In " before and ", " after them for chapters and
/// conference papers.
pub fn reorder_chapters_for_apa(components: &mut Vec<TemplateComponent>, style_preset: Option<StylePreset>)
    ensures
        style_preset != Some(StylePreset::Apa) ==> *final(components) == *old(components),
        style_preset == Some(StylePreset::Apa) ==> tcs_view(final(components)@) == apa_chapters(tcs_view(old(components)@)),
{
    if style_preset != Some(StylePreset::Apa) {
        return;
    }
    let ghost s = tcs_view(components@);
    proof {
        lemma_tcs_view(components@);
    }
    let ed = find(components, 5);
    let pm = find(components, 6);
    match (ed, pm) {
        (Some(ed), Some(pm)) => {
            if ed > pm {
                let mut c = components.remove(ed);
                set_given_first(&mut c);
                add_override(
                    &mut c,
                    single_selector("chapter"),
                    ComponentOverride::Rendering(affix_rendering(Some("In "), Some(", "))),
                );
                add_override(
                    &mut c,
                    single_selector("paper-conference"),
                    ComponentOverride::Rendering(affix_rendering(Some("In "), Some(", "))),
                );
                assert(tc_view(c) == apa_chapter_editor(s[ed as int]));
                components.insert(pm, c);
                proof {
                    lemma_tcs_view(components@);
                    assert(tcs_view(components@) =~= apa_chapters(s));
                }
            }
        },
        _ => {},
    }
}

/// The Chicago chapter form of the parent-monograph title: "In " before and
/// ", " after it for chapters.
pub open spec fn chicago_chapter_title(c: TCV) -> TCV {
    match c {
        TCV::Title(..) => with_override(c, single("chapter"@), affix_override(Some("In "@), Some(", "@))),
        _ => c,
    }
}

/// The Chicago chapter form of the editor: given-first names and ". " after
/// them for chapters.
pub open spec fn chicago_chapter_editor(c: TCV) -> TCV {
    match c {
        TCV::Contributor(..) => with_override(given_first(c), single("chapter"@), affix_override(None, Some(". "@))),
        _ => c,
    }
}

/// For Chicago: when the editor comes before the parent-monograph title,
/// both are removed and put back at the editor's place, the title first,
/// in their Chicago chapter forms.
pub open spec fn chicago_chapters(s: Seq<TCV>) -> Seq<TCV> {
    let ed = first_index(s, reorder_pred(5));
    let pm = first_index(s, reorder_pred(6));
    if ed >= 0 && pm >= 0 && ed < pm {
        s.remove(ed).remove(pm - 1).insert(ed, chicago_chapter_title(s[pm])).insert(
            ed + 1,
            chicago_chapter_editor(s[ed]),
        )
    } else {
        s
    }
}

fn chicago_forms(title: TemplateComponent, editor: TemplateComponent) -> (r: (TemplateComponent, TemplateComponent))
    ensures
        tc_view(r.0) == chicago_chapter_title(tc_view(title)),
        tc_view(r.1) == chicago_chapter_editor(tc_view(editor)),
{
    let mut title = title;
    let mut editor = editor;
    match title {
        TemplateComponent::Title(_) => {
            add_override(
                &mut title,
                single_selector("chapter"),
                ComponentOverride::Rendering(affix_rendering(Some("In "), Some(", "))),
            );
        },
        _ => {},
    }
    match editor {
        TemplateComponent::Contributor(_) => {
            set_given_first(&mut editor);
            add_override(
                &mut editor,
                single_selector("chapter"),
                ComponentOverride::Rendering(affix_rendering(None, Some(". "))),
            );
        },
        _ => {},
    }
    (title, editor)
}

/// For Chicago styles, puts the parent-monograph title before the editor,
/// with "In " before and ", " after the title and ". " after the editor,
/// given first, for chapters.
pub fn reorder_chapters_for_chicago(components: &mut Vec<TemplateComponent>, style_preset: Option<StylePreset>)
    ensures
        style_preset != Some(StylePreset::Chicago) ==> *final(components) == *old(components),
        style_preset == Some(StylePreset::Chicago) ==> tcs_view(final(components)@) == chicago_chapters(
            tcs_view(old(components)@),
        ),
{
    if style_preset != Some(StylePreset::Chicago) {
        return;
    }
    let ghost s = tcs_view(components@);
    proof {
        lemma_tcs_view(components@);
    }
    let ed = find(components, 5);
    let pm = find(components, 6);
    match (ed, pm) {
        (Some(ed), Some(pm)) => {
            if ed < pm {
                let ghost c0 = components@;
                let editor = components.remove(ed);
                let title = components.remove(pm - 1);
                proof {
                    assert(tc_view(title) == s[pm as int]);
                    assert(tc_view(editor) == s[ed as int]);
                }
                let (title, editor) = chicago_forms(title, editor);
                let ghost c1 = components@;
                components.insert(ed, title);
                components.insert(ed + 1, editor);
                proof {
                    lemma_tcs_view(c0);
                    lemma_tcs_view(c1);
                    lemma_tcs_view(components@);
                    assert(tcs_view(components@) =~= chicago_chapters(s));
                }
            }
        },
        _ => {},
    }
}

// ---------------------------------------------------------------------------
// Propagation of overrides within lists
// ---------------------------------------------------------------------------

/// Whether a component carries overrides that propagation looks at: a
/// contributor, date, title, number or variable.
pub open spec fn is_leaf(c: TCV) -> bool {
    !(c is List) && !(c is Term)
}

/// The override entries of a leaf component (none for others).
pub open spec fn leaf_entries(c: TCV) -> Seq<(SelV, OverrideV)> {
    if is_leaf(c) && tcv_overrides(c) is Some {
        tcv_overrides(c).unwrap()
    } else {
        Seq::empty()
    }
}

/// `ks` followed by the selectors of `es` it lacks, in order.
pub open spec fn add_keys(ks: Seq<SelV>, es: Seq<(SelV, OverrideV)>) -> Seq<SelV>
    decreases es.len(),
{
    if es.len() == 0 {
        ks
    } else {
        let k2 = add_keys(ks, es.drop_last());
        if k2.contains(es.last().0) {
            k2
        } else {
            k2.push(es.last().0)
        }
    }
}

/// The selectors of the overrides of the leaf components of `s`, each once,
/// in order of first appearance.
pub open spec fn override_keys(s: Seq<TCV>) -> Seq<SelV>
    decreases s.len(),
{
    if s.len() == 0 {
        Seq::empty()
    } else {
        add_keys(override_keys(s.drop_last()), leaf_entries(s.last()))
    }
}

/// Override entries `o` with an unsuppressing entry added, in order, for
/// each selector of `ks` they lack.
pub open spec fn fill_missing(o: Seq<(SelV, OverrideV)>, ks: Seq<SelV>) -> Seq<(SelV, OverrideV)>
    decreases ks.len(),
{
    if ks.len() == 0 {
        o
    } else {
        let o2 = fill_missing(o, ks.drop_last());
        if sel_index(o2, ks.last()) >= 0 {
            o2
        } else {
            o2.push((ks.last(), OverrideV::Rendering(suppress_only(false))))
        }
    }
}

/// A leaf component with every selector of `ks` among its overrides.
pub open spec fn filled(c: TCV, ks: Seq<SelV>) -> TCV {
    if is_leaf(c) {
        with_overrides(
            c,
            Some(
                fill_missing(
                    match tcv_overrides(c) {
                        Some(o) => o,
                        None => Seq::empty(),
                    },
                    ks,
                ),
            ),
        )
    } else {
        c
    }
}

/// Overrides propagated among siblings: when some leaf component has an
/// override for a type, every leaf component gets one, unsuppressed where it
/// had none.
pub open spec fn propagated(s: Seq<TCV>) -> Seq<TCV> {
    let ks = override_keys(s);
    if ks.len() == 0 {
        s
    } else {
        Seq::new(s.len(), |i: int| filled(s[i], ks))
    }
}

/// A list with its items propagated.
pub open spec fn propagated_in(c: TCV) -> TCV {
    match c {
        TCV::List(l) => TCV::List(ListV { items: propagated(l.items), ..l }),
        _ => c,
    }
}

/// Propagation in a top-level list: its items, then the items of each list
/// among them.
pub open spec fn propagated_top(c: TCV) -> TCV {
    match c {
        TCV::List(l) => TCV::List(
            ListV { items: Seq::new(l.items.len(), |i: int| propagated_in(propagated(l.items)[i])), ..l },
        ),
        _ => c,
    }
}

fn copy_selector(k: &TypeSelector) -> (r: TypeSelector)
    ensures
        selector_view(r) == selector_view(*k),
{
    match k {
        TypeSelector::Single(x) => TypeSelector::Single(x.clone()),
        TypeSelector::Multiple(xs) => {
            let ys = crate::options::multilingual::copy_strings(xs);
            assert(ys@.map_values(|x: String| x@) =~= xs@.map_values(|x: String| x@));
            TypeSelector::Multiple(ys)
        },
    }
}

fn holds_key(ks: &Vec<TypeSelector>, k: &TypeSelector) -> (r: bool)
    ensures
        r == ks@.map_values(|x: TypeSelector| selector_view(x)).contains(selector_view(*k)),
{
    let ghost kv = ks@.map_values(|x: TypeSelector| selector_view(x));
    let mut i: usize = 0;
    while i < ks.len()
        invariant
            i <= ks@.len(),
            kv == ks@.map_values(|x: TypeSelector| selector_view(x)),
            forall|j: int| 0 <= j < i ==> kv[j] != selector_view(*k),
        decreases ks@.len() - i,
    {
        proof {
            crate::passes::common::lemma_same_selector(ks@[i as int], *k);
        }
        if ks[i].same_as(k) {
            assert(kv[i as int] == selector_view(*k));
            return true;
        }
        i = i + 1;
    }
    false
}


fn entries_of(c: &TemplateComponent) -> (r: Option<&Vec<(TypeSelector, ComponentOverride)>>)
    ensures
        match r {
            Some(v) => is_leaf(tc_view(*c)) && tcv_overrides(tc_view(*c)) == Some(ov_entries_view(v@)),
            None => leaf_entries(tc_view(*c)) == Seq::<(SelV, OverrideV)>::empty(),
        },
{
    let o = match c {
        TemplateComponent::Contributor(x) => &x.overrides,
        TemplateComponent::Date(x) => &x.overrides,
        TemplateComponent::Title(x) => &x.overrides,
        TemplateComponent::Number(x) => &x.overrides,
        TemplateComponent::Variable(x) => &x.overrides,
        _ => {
            return None;
        },
    };
    match o {
        Some(v) => Some(v),
        None => None,
    }
}

fn collect_keys(items: &Vec<TemplateComponent>) -> (r: Vec<TypeSelector>)
    ensures
        r@.map_values(|x: TypeSelector| selector_view(x)) == override_keys(tcs_view(items@)),
{
    let mut ks: Vec<TypeSelector> = Vec::new();
    let mut i: usize = 0;
    proof {
        assert(tcs_view(items@.subrange(0, 0)) =~= Seq::<TCV>::empty());
        assert(ks@.map_values(|x: TypeSelector| selector_view(x)) =~= Seq::<SelV>::empty());
    }
    while i < items.len()
        invariant
            i <= items@.len(),
            ks@.map_values(|x: TypeSelector| selector_view(x)) == override_keys(tcs_view(items@.subrange(0, i as int))),
        decreases items@.len() - i,
    {
        let ghost t = items@.subrange(0, i + 1);
        proof {
            assert(t.drop_last() =~= items@.subrange(0, i as int));
            lemma_tcs_view_step(t);
        }
        let ghost base = ks@.map_values(|x: TypeSelector| selector_view(x));
        match entries_of(&items[i]) {
            Some(es) => {
                proof {
                    lemma_ov_entries_view(es@);
                }
                let mut j: usize = 0;
                while j < es.len()
                    invariant
                        j <= es@.len(),
                        ov_entries_view(es@).len() == es@.len(),
                        forall|m: int| 0 <= m < es@.len() ==> #[trigger] ov_entries_view(es@)[m] == (
                            selector_view(es@[m].0),
                            ov_view(es@[m].1),
                        ),
                        ks@.map_values(|x: TypeSelector| selector_view(x)) == add_keys(
                            base,
                            ov_entries_view(es@).subrange(0, j as int),
                        ),
                    decreases es@.len() - j,
                {
                    let ghost e2 = ov_entries_view(es@).subrange(0, j + 1);
                    proof {
                        assert(e2.drop_last() =~= ov_entries_view(es@).subrange(0, j as int));
                        assert(e2.last().0 == selector_view(es@[j as int].0));
                    }
                    if !holds_key(&ks, &es[j].0) {
                        let ghost before = ks@;
                        ks.push(copy_selector(&es[j].0));
                        proof {
                            assert(ks@.map_values(|x: TypeSelector| selector_view(x)) =~= before.map_values(
                                |x: TypeSelector| selector_view(x),
                            ).push(selector_view(es@[j as int].0)));
                        }
                    }
                    j = j + 1;
                }
                proof {
                    assert(ov_entries_view(es@).subrange(0, es@.len() as int) =~= ov_entries_view(es@));
                }
            },
            None => {
                proof {
                    assert(add_keys(base, Seq::<(SelV, OverrideV)>::empty()) == base);
                }
            },
        }
        i = i + 1;
    }
    proof {
        assert(items@.subrange(0, items@.len() as int) =~= items@);
    }
    ks
}

fn fill_entries(entries: &mut Vec<(TypeSelector, ComponentOverride)>, ks: &Vec<TypeSelector>)
    ensures
        ov_entries_view(final(entries)@) == fill_missing(
            ov_entries_view(old(entries)@),
            ks@.map_values(|x: TypeSelector| selector_view(x)),
        ),
{
    let ghost kv = ks@.map_values(|x: TypeSelector| selector_view(x));
    let ghost o = ov_entries_view(entries@);
    let mut i: usize = 0;
    proof {
        assert(kv.subrange(0, 0) =~= Seq::<SelV>::empty());
    }
    while i < ks.len()
        invariant
            i <= ks@.len(),
            kv == ks@.map_values(|x: TypeSelector| selector_view(x)),
            o == ov_entries_view(old(entries)@),
            ov_entries_view(entries@) == fill_missing(o, kv.subrange(0, i as int)),
        decreases ks@.len() - i,
    {
        let ghost k2 = kv.subrange(0, i + 1);
        proof {
            assert(k2.drop_last() =~= kv.subrange(0, i as int));
            assert(k2.last() == selector_view(ks@[i as int]));
        }
        match crate::passes::common::find_selector(entries, &ks[i]) {
            Some(_) => {},
            None => {
                let ghost before = entries@;
                let e = (copy_selector(&ks[i]), ComponentOverride::Rendering(suppress_rendering(false)));
                entries.push(e);
                proof {
                    assert(entries@.drop_last() =~= before);
                    assert(ov_entries_view(entries@) == ov_entries_view(before).push(
                        (selector_view(e.0), ov_view(e.1)),
                    ));
                    assert(kv[i as int] == selector_view(ks@[i as int]));
                }
            },
        }
        i = i + 1;
    }
    proof {
        assert(kv.subrange(0, ks@.len() as int) =~= kv);
    }
}

fn fill_component(c: TemplateComponent, ks: &Vec<TypeSelector>) -> (r: TemplateComponent)
    ensures
        tc_view(r) == filled(tc_view(c), ks@.map_values(|x: TypeSelector| selector_view(x))),
{
    match c {
        TemplateComponent::Contributor(mut x) => {
            let mut e = match x.overrides {
                Some(v) => v,
                None => Vec::new(),
            };
            assert(ovs_view(x.overrides) is None ==> ov_entries_view(e@) == Seq::<(SelV, OverrideV)>::empty());
            fill_entries(&mut e, ks);
            x.overrides = Some(e);
            TemplateComponent::Contributor(x)
        },
        TemplateComponent::Date(mut x) => {
            let mut e = match x.overrides {
                Some(v) => v,
                None => Vec::new(),
            };
            assert(ovs_view(x.overrides) is None ==> ov_entries_view(e@) == Seq::<(SelV, OverrideV)>::empty());
            fill_entries(&mut e, ks);
            x.overrides = Some(e);
            TemplateComponent::Date(x)
        },
        TemplateComponent::Title(mut x) => {
            let mut e = match x.overrides {
                Some(v) => v,
                None => Vec::new(),
            };
            assert(ovs_view(x.overrides) is None ==> ov_entries_view(e@) == Seq::<(SelV, OverrideV)>::empty());
            fill_entries(&mut e, ks);
            x.overrides = Some(e);
            TemplateComponent::Title(x)
        },
        TemplateComponent::Number(mut x) => {
            let mut e = match x.overrides {
                Some(v) => v,
                None => Vec::new(),
            };
            assert(ovs_view(x.overrides) is None ==> ov_entries_view(e@) == Seq::<(SelV, OverrideV)>::empty());
            fill_entries(&mut e, ks);
            x.overrides = Some(e);
            TemplateComponent::Number(x)
        },
        TemplateComponent::Variable(mut x) => {
            let mut e = match x.overrides {
                Some(v) => v,
                None => Vec::new(),
            };
            assert(ovs_view(x.overrides) is None ==> ov_entries_view(e@) == Seq::<(SelV, OverrideV)>::empty());
            fill_entries(&mut e, ks);
            x.overrides = Some(e);
            TemplateComponent::Variable(x)
        },
        other => other,
    }
}

fn propagate_vec(items: &mut Vec<TemplateComponent>)
    ensures
        tcs_view(final(items)@) == propagated(tcs_view(old(items)@)),
{
    let ks = collect_keys(items);
    let ghost s = tcs_view(items@);
    let ghost kv = ks@.map_values(|x: TypeSelector| selector_view(x));
    if ks.len() == 0 {
        return;
    }
    proof {
        lemma_tcs_view(items@);
    }
    let n = items.len();
    let mut i: usize = 0;
    while i < n
        invariant
            n == items@.len(),
            i <= n,
            s.len() == n,
            kv == ks@.map_values(|x: TypeSelector| selector_view(x)),
            tcs_view(items@).len() == n,
            forall|k: int| 0 <= k < n ==> #[trigger] tcs_view(items@)[k] == tc_view(items@[k]),
            forall|k: int| 0 <= k < i ==> #[trigger] tcs_view(items@)[k] == filled(s[k], kv),
            forall|k: int| i <= k < n ==> #[trigger] tcs_view(items@)[k] == s[k],
        decreases n - i,
    {
        let ghost prev = items@;
        assert(tcs_view(prev)[i as int] == s[i as int]);
        assert(tcs_view(prev)[i as int] == tc_view(prev[i as int]));
        let c = items.remove(i);
        let c2 = fill_component(c, &ks);
        items.insert(i, c2);
        proof {
            assert(items@ =~= prev.update(i as int, c2));
            lemma_tcs_view(items@);
            assert forall|k: int| 0 <= k < n && k != i implies #[trigger] tcs_view(items@)[k] == tcs_view(prev)[k] by {
                assert(items@[k] == prev[k]);
            }
        }
        i = i + 1;
    }
    proof {
        assert(tcs_view(items@) =~= propagated(s));
    }
}

fn propagate_each(items: &mut Vec<TemplateComponent>)
    ensures
        tcs_view(final(items)@) == Seq::new(old(items)@.len(), |i: int| propagated_in(tcs_view(old(items)@)[i])),
{
    let ghost s = tcs_view(items@);
    proof {
        lemma_tcs_view(items@);
    }
    let n = items.len();
    let mut i: usize = 0;
    while i < n
        invariant
            n == items@.len(),
            i <= n,
            s.len() == n,
            tcs_view(items@).len() == n,
            forall|k: int| 0 <= k < n ==> #[trigger] tcs_view(items@)[k] == tc_view(items@[k]),
            forall|k: int| 0 <= k < i ==> #[trigger] tcs_view(items@)[k] == propagated_in(s[k]),
            forall|k: int| i <= k < n ==> #[trigger] tcs_view(items@)[k] == s[k],
        decreases n - i,
    {
        let ghost prev = items@;
        assert(tcs_view(prev)[i as int] == s[i as int]);
        assert(tcs_view(prev)[i as int] == tc_view(prev[i as int]));
        let c = items.remove(i);
        let c2 = match c {
            TemplateComponent::List(l) => {
                let mut l = l;
                propagate_vec(&mut l.items);
                TemplateComponent::List(l)
            },
            other => other,
        };
        assert(tc_view(c2) == propagated_in(s[i as int]));
        items.insert(i, c2);
        proof {
            assert(items@ =~= prev.update(i as int, c2));
            lemma_tcs_view(items@);
            assert forall|k: int| 0 <= k < n && k != i implies #[trigger] tcs_view(items@)[k] == tcs_view(prev)[k] by {
                assert(items@[k] == prev[k]);
            }
        }
        i = i + 1;
    }
    proof {
        assert(tcs_view(items@) =~= Seq::new(n as nat, |i: int| propagated_in(s[i])));
    }
}

/// Propagates type-specific overrides within each top-level list and within
/// each list directly in it: a type that has an override on one leaf
/// component gets an unsuppressing override on every other leaf component
/// that lacks one.
pub fn propagate_list_overrides(components: &mut Vec<TemplateComponent>)
    ensures
        tcs_view(final(components)@) == Seq::new(
            old(components)@.len(),
            |i: int| propagated_top(tcs_view(old(components)@)[i]),
        ),
{
    let ghost s = tcs_view(components@);
    proof {
        lemma_tcs_view(components@);
    }
    let n = components.len();
    let mut i: usize = 0;
    while i < n
        invariant
            n == components@.len(),
            i <= n,
            s.len() == n,
            tcs_view(components@).len() == n,
            forall|k: int| 0 <= k < n ==> #[trigger] tcs_view(components@)[k] == tc_view(components@[k]),
            forall|k: int| 0 <= k < i ==> #[trigger] tcs_view(components@)[k] == propagated_top(s[k]),
            forall|k: int| i <= k < n ==> #[trigger] tcs_view(components@)[k] == s[k],
        decreases n - i,
    {
        let ghost prev = components@;
        assert(tcs_view(prev)[i as int] == s[i as int]);
        assert(tcs_view(prev)[i as int] == tc_view(prev[i as int]));
        let c = components.remove(i);
        let c2 = match c {
            TemplateComponent::List(l) => {
                let mut l = l;
                let ghost v0 = tcs_view(l.items@);
                proof {
                    lemma_tcs_view(l.items@);
                }
                propagate_vec(&mut l.items);
                proof {
                    lemma_tcs_view(l.items@);
                    assert(propagated(v0).len() == v0.len());
                }
                propagate_each(&mut l.items);
                proof {
                    assert(tcs_view(l.items@) =~= Seq::new(v0.len(), |i: int| propagated_in(propagated(v0)[i])));
                }
                TemplateComponent::List(l)
            },
            other => other,
        };
        assert(tc_view(c2) == propagated_top(s[i as int]));
        components.insert(i, c2);
        proof {
            assert(components@ =~= prev.update(i as int, c2));
            lemma_tcs_view(components@);
            assert forall|k: int| 0 <= k < n && k != i implies #[trigger] tcs_view(components@)[k] == tcs_view(prev)[k] by {
                assert(components@[k] == prev[k]);
            }
        }
        i = i + 1;
    }
    proof {
        assert(tcs_view(components@) =~= Seq::new(n as nat, |i: int| propagated_top(s[i])));
    }
}

// ---------------------------------------------------------------------------
// Unsuppression, volume prefix and access components
// ---------------------------------------------------------------------------

/// The publisher and publisher-place variables unsuppressed for the type
/// `t`, at every depth.
pub open spec fn unsuppressed(s: Seq<TCV>, t: Seq<char>) -> Seq<TCV>
    decreases s, 0nat,
{
    if s.len() == 0 {
        Seq::empty()
    } else {
        unsuppressed(s.drop_last(), t).push(unsuppressed_item(s.last(), t))
    }
}

/// One component with the publisher variables unsuppressed for the type `t`.
pub open spec fn unsuppressed_item(c: TCV, t: Seq<char>) -> TCV
    decreases c, 1nat,
{
    match c {
        TCV::List(l) => TCV::List(ListV { items: unsuppressed(c->List_0.items, t), ..l }),
        _ => if is_variable(c, SimpleVariable::Publisher) || is_variable(c, SimpleVariable::PublisherPlace) {
            with_override(c, single(t), OverrideV::Rendering(suppress_only(false)))
        } else {
            c
        },
    }
}

fn unsuppress_vec(v: Vec<TemplateComponent>, item_type: &str) -> (r: Vec<TemplateComponent>)
    ensures
        tcs_view(r@) == unsuppressed(tcs_view(v@), item_type@),
    decreases v@, 0nat,
{
    let ghost s = v@;
    let mut v = v;
    match v.pop() {
        None => {
            assert(s =~= Seq::<TemplateComponent>::empty());
            Vec::new()
        },
        Some(last) => {
            proof {
                assert(v@ =~= s.subrange(0, s.len() - 1));
                assert(decreases_to!(s => v@));
                assert(decreases_to!(s => s[s.len() - 1]));
                lemma_tcs_view_step(s);
                assert(s.drop_last() =~= v@);
            }
            let mut out = unsuppress_vec(v, item_type);
            let c = unsuppress_component(last, item_type);
            let ghost before = out@;
            out.push(c);
            proof {
                assert(out@.drop_last() =~= before);
                lemma_tcs_view_step(out@);
            }
            out
        },
    }
}

fn unsuppress_component(c: TemplateComponent, item_type: &str) -> (r: TemplateComponent)
    ensures
        tc_view(r) == unsuppressed_item(tc_view(c), item_type@),
    decreases c, 1nat,
{
    match c {
        TemplateComponent::List(l) => {
            proof {
                assert(decreases_to!(c => l));
                assert(decreases_to!(l => l.items));
                assert(decreases_to!(l.items => l.items@));
            }
            let TemplateList { items, delimiter, rendering, overrides } = l;
            let items = unsuppress_vec(items, item_type);
            TemplateComponent::List(TemplateList { items, delimiter, rendering, overrides })
        },
        _ => {
            let mut c = c;
            let hit = match &c {
                TemplateComponent::Variable(v) => v.variable == SimpleVariable::Publisher || v.variable
                    == SimpleVariable::PublisherPlace,
                _ => false,
            };
            if hit {
                add_override(&mut c, single_selector(item_type), ComponentOverride::Rendering(suppress_rendering(false)));
            }
            c
        },
    }
}

/// Unsuppresses the publisher and publisher-place variables for the
/// reference type `item_type`, at every depth.
pub fn unsuppress_for_type(components: &mut Vec<TemplateComponent>, item_type: &str)
    ensures
        tcs_view(final(components)@) == unsuppressed(tcs_view(old(components)@), item_type@),
{
    let mut taken: Vec<TemplateComponent> = Vec::new();
    std::mem::swap(components, &mut taken);
    *components = unsuppress_vec(taken, item_type);
}

/// A volume with a space as its prefix when it has none.
pub open spec fn with_space_prefix(c: TCV) -> TCV {
    match c {
        TCV::Number(b, r, o) => if r.prefix is None {
            TCV::Number(b, RenderingV { prefix: Some(" "@), ..r }, o)
        } else {
            c
        },
        _ => c,
    }
}

/// Each volume right after the parent-serial title given a space prefix
/// when it has none.
pub open spec fn volume_prefixed(s: Seq<TCV>) -> Seq<TCV> {
    Seq::new(
        s.len(),
        |i: int| if i > 0 && is_title(s[i - 1], TitleType::ParentSerial) && is_number(s[i], NumberVariable::Volume) {
            with_space_prefix(s[i])
        } else {
            s[i]
        },
    )
}

/// Gives a space prefix to each volume that directly follows the
/// parent-serial title and has no prefix (numeric styles where journal and
/// volume are siblings).
pub fn add_volume_prefix_after_serial(components: &mut Vec<TemplateComponent>)
    ensures
        tcs_view(final(components)@) == volume_prefixed(tcs_view(old(components)@)),
{
    let ghost s = tcs_view(components@);
    proof {
        lemma_tcs_view(components@);
    }
    let n = components.len();
    if n == 0 {
        proof {
            assert(volume_prefixed(s) =~= s);
        }
        return;
    }
    let mut i: usize = 1;
    while i < n
        invariant
            n == components@.len(),
            1 <= i <= n,
            s.len() == n,
            tcs_view(components@).len() == n,
            forall|k: int| 0 <= k < n ==> #[trigger] tcs_view(components@)[k] == tc_view(components@[k]),
            forall|k: int| 0 <= k < i ==> #[trigger] tcs_view(components@)[k] == volume_prefixed(s)[k],
            forall|k: int| i <= k < n ==> #[trigger] tcs_view(components@)[k] == s[k],
            forall|k: int| 0 <= k < n ==> is_title(#[trigger] volume_prefixed(s)[k], TitleType::ParentSerial) == is_title(s[k], TitleType::ParentSerial),
        decreases n - i,
    {
        let prev_is_serial = title_is_serial(&components[i - 1]);
        proof {
            assert(tcs_view(components@)[i - 1] == tc_view(components@[i - 1]));
            assert(prev_is_serial == is_title(s[i - 1], TitleType::ParentSerial));
        }
        let ghost prev = components@;
        assert(tcs_view(prev)[i as int] == s[i as int]);
        assert(tcs_view(prev)[i as int] == tc_view(prev[i as int]));
        let c = components.remove(i);
        let c2 = if prev_is_serial {
            match c {
                TemplateComponent::Number(n) => {
                    if n.number == NumberVariable::Volume && n.rendering.prefix.is_none() {
                        let mut n = n;
                        n.rendering.prefix = Some(to_owned_string(" "));
                        TemplateComponent::Number(n)
                    } else {
                        TemplateComponent::Number(n)
                    }
                },
                other => other,
            }
        } else {
            c
        };
        assert(tc_view(c2) == volume_prefixed(s)[i as int]);
        components.insert(i, c2);
        proof {
            assert(components@ =~= prev.update(i as int, c2));
            lemma_tcs_view(components@);
            assert forall|k: int| 0 <= k < n && k != i implies #[trigger] tcs_view(components@)[k] == tcs_view(prev)[k] by {
                assert(components@[k] == prev[k]);
            }
        }
        i = i + 1;
    }
    proof {
        assert(volume_prefixed(s)[0] == s[0]);
        assert(tcs_view(components@) =~= volume_prefixed(s));
    }
}

fn title_is_serial(c: &TemplateComponent) -> (r: bool)
    ensures
        r == is_title(tc_view(*c), TitleType::ParentSerial),
{
    match c {
        TemplateComponent::Title(t) => t.title == TitleType::ParentSerial,
        _ => false,
    }
}

/// Whether a component is an access component: the DOI or URL, or a list
/// holding the URL or the accessed date.
pub open spec fn is_access(c: TCV) -> bool {
    ||| is_variable(c, SimpleVariable::Doi)
    ||| is_variable(c, SimpleVariable::Url)
    ||| (c is List && exists|j: int|
        0 <= j < c->List_0.items.len() && (is_variable(#[trigger] c->List_0.items[j], SimpleVariable::Url)
            || is_date(c->List_0.items[j], DateVariable::Accessed)))
}

/// The components of `s` that are access components (or, with `access`
/// false, that are not), in order.
pub open spec fn access_split(s: Seq<TCV>, access: bool) -> Seq<TCV>
    decreases s.len(),
{
    if s.len() == 0 {
        Seq::empty()
    } else if is_access(s.last()) == access {
        access_split(s.drop_last(), access).push(s.last())
    } else {
        access_split(s.drop_last(), access)
    }
}

fn is_access_exec(c: &TemplateComponent) -> (r: bool)
    ensures
        r == is_access(tc_view(*c)),
{
    match c {
        TemplateComponent::Variable(v) => v.variable == SimpleVariable::Doi || v.variable == SimpleVariable::Url,
        TemplateComponent::List(l) => {
            let items = &l.items;
            proof {
                lemma_tcs_view(items@);
                assert(tc_view(*c)->List_0.items == tcs_view(items@));
            }
            let mut j: usize = 0;
            while j < items.len()
                invariant
                    *c == TemplateComponent::List(*l),
                    l.items == *items,
                    tc_view(*c)->List_0.items == tcs_view(items@),
                    j <= items@.len(),
                    tcs_view(items@).len() == items@.len(),
                    forall|k: int| 0 <= k < items@.len() ==> #[trigger] tcs_view(items@)[k] == tc_view(items@[k]),
                    forall|k: int|
                        0 <= k < j ==> !(is_variable(#[trigger] tcs_view(items@)[k], SimpleVariable::Url) || is_date(
                            tcs_view(items@)[k],
                            DateVariable::Accessed,
                        )),
                decreases items@.len() - j,
            {
                let hit = match &items[j] {
                    TemplateComponent::Variable(v) => v.variable == SimpleVariable::Url,
                    TemplateComponent::Date(d) => d.date == DateVariable::Accessed,
                    _ => false,
                };
                if hit {
                    assert(tc_view(*c)->List_0.items[j as int] == tcs_view(items@)[j as int]);
                    return true;
                }
                j = j + 1;
            }
            false
        },
        _ => false,
    }
}

fn split_access(v: Vec<TemplateComponent>) -> (r: (Vec<TemplateComponent>, Vec<TemplateComponent>))
    ensures
        tcs_view(r.0@) == access_split(tcs_view(v@), false),
        tcs_view(r.1@) == access_split(tcs_view(v@), true),
    decreases v@.len(),
{
    let ghost s = v@;
    let mut v = v;
    match v.pop() {
        None => {
            assert(s =~= Seq::<TemplateComponent>::empty());
            (Vec::new(), Vec::new())
        },
        Some(last) => {
            proof {
                lemma_tcs_view_step(s);
                assert(s.drop_last() =~= v@);
            }
            let (mut rest, mut access) = split_access(v);
            if is_access_exec(&last) {
                let ghost before = access@;
                access.push(last);
                proof {
                    assert(access@.drop_last() =~= before);
                    lemma_tcs_view_step(access@);
                }
            } else {
                let ghost before = rest@;
                rest.push(last);
                proof {
                    assert(rest@.drop_last() =~= before);
                    lemma_tcs_view_step(rest@);
                }
            }
            (rest, access)
        },
    }
}

/// Moves the access components (DOI, URL, and lists holding the URL or the
/// accessed date) to the end, keeping the order within each part.
pub fn move_access_components_to_end(components: &mut Vec<TemplateComponent>)
    ensures
        tcs_view(final(components)@) == access_split(tcs_view(old(components)@), false) + access_split(
            tcs_view(old(components)@),
            true,
        ),
{
    let mut taken: Vec<TemplateComponent> = Vec::new();
    std::mem::swap(components, &mut taken);
    let (mut rest, mut access) = split_access(taken);
    let ghost a = rest@;
    let ghost b = access@;
    rest.append(&mut access);
    proof {
        crate::template_view::lemma_tcs_view_add(a, b);
    }
    *components = rest;
}

} // verus!
