//! A fixed order for bibliography components: the citation number, the
//! author, the date, the titles, then the rest.

use vstd::prelude::*;
use crate::template::{
    empty_rendering, ContributorRole, DateVariable, NumberVariable, Rendering, TemplateComponent, TemplateTitle,
    TitleType,
};
use crate::template_compiler::copy::copy_component;
use crate::template_compiler::merge::{
    lemma_stable_sorted, lemma_stable_sorted_ordered, positions, stable_sort_indices, stable_sorted,
};
use crate::template_compiler::{has_variable, TemplateCompiler};
use crate::template_view::{lemma_tcs_view, no_rendering, tc_view, tcs_view, TCV};

verus! {

/// A title component of the type `t`, everything else unset.
pub open spec fn title_probe(t: TitleType) -> TCV {
    TCV::Title(
        TemplateTitle { title: t, form: None, disambiguate_only: None, rendering: empty_rendering(), links: None, overrides: None },
        no_rendering(),
        None,
    )
}

/// The bibliography rank of a component: the citation number, the author,
/// the issued date (after the rest in numeric styles), the primary,
/// serial and monograph titles (a list by the first of these it holds),
/// other numbers, variables, contributors, dates, titles, other lists,
/// terms.
pub open spec fn bibliography_rank(c: TCV, is_numeric: bool) -> usize {
    match c {
        TCV::Number(n, _, _) => if n.number == NumberVariable::CitationNumber {
            0
        } else {
            6
        },
        TCV::Contributor(x, _, _) => if x.contributor == ContributorRole::Author {
            1
        } else {
            8
        },
        TCV::Date(d, _, _, _) => if d.date == DateVariable::Issued {
            if is_numeric {
                20
            } else {
                2
            }
        } else {
            9
        },
        TCV::Title(t, _, _) => if t.title == TitleType::Primary {
            3
        } else if t.title == TitleType::ParentSerial {
            4
        } else if t.title == TitleType::ParentMonograph {
            5
        } else {
            10
        },
        TCV::Variable(..) => 7,
        TCV::List(l) => if has_variable(l.items, title_probe(TitleType::Primary)) {
            3
        } else if has_variable(l.items, title_probe(TitleType::ParentSerial)) {
            4
        } else if has_variable(l.items, title_probe(TitleType::ParentMonograph)) {
            5
        } else {
            11
        },
        TCV::Term(..) => 99,
    }
}

/// Components sorted by bibliography rank, equal ranks in their order.
pub open spec fn sorted_for_bibliography(s: Seq<TCV>, is_numeric: bool) -> Seq<TCV> {
    let ranks = s.map_values(|c: TCV| bibliography_rank(c, is_numeric));
    stable_sorted(positions(s.len()), |i: usize| ranks[i as int]).map_values(|i: usize| s[i as int])
}

/// Whether a component is the citation number.
pub open spec fn is_citation_number(c: TCV) -> bool {
    c is Number && c->Number_0.number == NumberVariable::CitationNumber
}

/// Whether a component is the author.
pub open spec fn is_author_contributor(c: TCV) -> bool {
    c is Contributor && c->Contributor_0.contributor == ContributorRole::Author
}

/// Whether a component is the issued date.
pub open spec fn is_issued_date(c: TCV) -> bool {
    c is Date && c->Date_0.date == DateVariable::Issued
}

/// Whether a title type is the primary, serial or monograph title.
pub open spec fn is_main_title_type(t: TitleType) -> bool {
    t == TitleType::Primary || t == TitleType::ParentSerial || t == TitleType::ParentMonograph
}

/// Whether a component is a primary, serial or monograph title, or a list
/// holding one.
pub open spec fn holds_main_title(c: TCV) -> bool {
    ||| c is Title && is_main_title_type(c->Title_0.title)
    ||| c is List && (has_variable(c->List_0.items, title_probe(TitleType::Primary)) || has_variable(
        c->List_0.items,
        title_probe(TitleType::ParentSerial),
    ) || has_variable(c->List_0.items, title_probe(TitleType::ParentMonograph)))
}

/// Whether components are in bibliography order: the citation number, the
/// author, the issued date (at the end, before terms only, in numeric
/// styles), the main titles, the rest, terms last.
pub open spec fn in_bibliography_order(r: Seq<TCV>, is_numeric: bool) -> bool {
    forall|i: int, j: int|
        #![trigger r[i], r[j]]
        0 <= i < j < r.len() ==> {
            let a = r[i];
            let b = r[j];
            &&& is_citation_number(b) ==> is_citation_number(a)
            &&& is_author_contributor(b) ==> is_citation_number(a) || is_author_contributor(a)
            &&& !is_numeric && is_issued_date(b) ==> is_citation_number(a) || is_author_contributor(a)
                || is_issued_date(a)
            &&& is_numeric && is_issued_date(a) ==> is_issued_date(b) || b is Term
            &&& holds_main_title(b) ==> is_citation_number(a) || is_author_contributor(a) || (!is_numeric
                && is_issued_date(a)) || holds_main_title(a)
            &&& a is Term ==> b is Term
        }
}

/// Sorting for a bibliography puts the components in bibliography order,
/// and they are those given, each once.
pub proof fn law_bibliography_order(s: Seq<TCV>, is_numeric: bool)
    requires
        s.len() <= usize::MAX,
    ensures
        sorted_for_bibliography(s, is_numeric).len() == s.len(),
        forall|x: TCV| sorted_for_bibliography(s, is_numeric).contains(x) <==> s.contains(x),
        in_bibliography_order(sorted_for_bibliography(s, is_numeric), is_numeric),
{
    let ranks = s.map_values(|c: TCV| bibliography_rank(c, is_numeric));
    let key = |i: usize| ranks[i as int];
    let ps = positions(s.len());
    let order = stable_sorted(ps, key);
    lemma_stable_sorted(ps, key);
    lemma_stable_sorted_ordered(ps, key);
    let r = sorted_for_bibliography(s, is_numeric);
    assert(r == order.map_values(|i: usize| s[i as int]));
    assert forall|m: int| 0 <= m < order.len() implies (#[trigger] order[m]) < s.len() by {
        assert(order.contains(order[m]));
        assert(ps.contains(order[m]));
        let q = choose|q: int| 0 <= q < ps.len() && ps[q] == order[m];
        assert(ps[q] == q as usize);
    }
    assert forall|m: int| 0 <= m < r.len() implies bibliography_rank(#[trigger] r[m], is_numeric) == key(order[m]) by {
        assert(r[m] == s[order[m] as int]);
    }
    assert forall|i: int, j: int| #![trigger r[i], r[j]] 0 <= i < j < r.len() implies {
        let a = r[i];
        let b = r[j];
        &&& is_citation_number(b) ==> is_citation_number(a)
        &&& is_author_contributor(b) ==> is_citation_number(a) || is_author_contributor(a)
        &&& !is_numeric && is_issued_date(b) ==> is_citation_number(a) || is_author_contributor(a)
            || is_issued_date(a)
        &&& is_numeric && is_issued_date(a) ==> is_issued_date(b) || b is Term
        &&& holds_main_title(b) ==> is_citation_number(a) || is_author_contributor(a) || (!is_numeric
            && is_issued_date(a)) || holds_main_title(a)
        &&& a is Term ==> b is Term
    } by {
        assert(key(order[i]) <= key(order[j]));
        assert(bibliography_rank(r[i], is_numeric) <= bibliography_rank(r[j], is_numeric));
    }
    assert forall|x: TCV| r.contains(x) <==> s.contains(x) by {
        if r.contains(x) {
            let m = choose|m: int| 0 <= m < r.len() && r[m] == x;
            assert(s[order[m] as int] == x);
        }
        if s.contains(x) {
            let q = choose|q: int| 0 <= q < s.len() && s[q] == x;
            assert(ps[q] == q as usize);
            assert(ps.contains(q as usize));
            assert(order.contains(q as usize));
            let m = choose|m: int| 0 <= m < order.len() && order[m] == q as usize;
            assert(r[m] == x);
        }
    }
}

impl TemplateCompiler {
    fn title_probe_of(&self, t: TitleType) -> (r: TemplateComponent)
        ensures
            tc_view(r) == title_probe(t),
    {
        TemplateComponent::Title(
            TemplateTitle {
                title: t,
                form: None,
                disambiguate_only: None,
                rendering: Rendering::default(),
                links: None,
                overrides: None,
            },
        )
    }

    /// The bibliography rank of a component (`bibliography_rank`).
    fn bibliography_rank_of(&self, c: &TemplateComponent, is_numeric: bool) -> (r: usize)
        ensures
            r == bibliography_rank(tc_view(*c), is_numeric),
    {
        match c {
            TemplateComponent::Number(n) => if n.number == NumberVariable::CitationNumber {
                0
            } else {
                6
            },
            TemplateComponent::Contributor(x) => if x.contributor == ContributorRole::Author {
                1
            } else {
                8
            },
            TemplateComponent::Date(d) => if d.date == DateVariable::Issued {
                if is_numeric {
                    20
                } else {
                    2
                }
            } else {
                9
            },
            TemplateComponent::Title(t) => if t.title == TitleType::Primary {
                3
            } else if t.title == TitleType::ParentSerial {
                4
            } else if t.title == TitleType::ParentMonograph {
                5
            } else {
                10
            },
            TemplateComponent::Variable(_) => 7,
            TemplateComponent::List(l) => {
                if self.has_variable_recursive(l.items.as_slice(), &self.title_probe_of(TitleType::Primary)) {
                    3
                } else if self.has_variable_recursive(l.items.as_slice(), &self.title_probe_of(TitleType::ParentSerial)) {
                    4
                } else if self.has_variable_recursive(
                    l.items.as_slice(),
                    &self.title_probe_of(TitleType::ParentMonograph),
                ) {
                    5
                } else {
                    11
                }
            },
            TemplateComponent::Term(_) => 99,
        }
    }

    /// Sorts components for a bibliography by rank, keeping the order
    /// within each rank (`sorted_for_bibliography`).
    pub fn sort_bibliography_components(&self, components: &mut Vec<TemplateComponent>, is_numeric: bool)
        ensures
            tcs_view(final(components)@) == sorted_for_bibliography(tcs_view(old(components)@), is_numeric),
            in_bibliography_order(tcs_view(final(components)@), is_numeric),
    {
        let ghost s = tcs_view(components@);
        proof {
            lemma_tcs_view(components@);
        }
        let n = components.len();
        proof {
            law_bibliography_order(s, is_numeric);
        }
        let mut ranks: Vec<usize> = Vec::new();
        let mut idx: Vec<usize> = Vec::new();
        let mut i: usize = 0;
        while i < n
            invariant
                i <= n,
                n == components@.len(),
                s == tcs_view(components@),
                s.len() == n,
                forall|k: int| 0 <= k < n ==> #[trigger] s[k] == tc_view(components@[k]),
                ranks@ == s.map_values(|c: TCV| bibliography_rank(c, is_numeric)).subrange(0, i as int),
                idx@ == positions(s.len()).subrange(0, i as int),
            decreases n - i,
        {
            let r = self.bibliography_rank_of(&components[i], is_numeric);
            ranks.push(r);
            idx.push(i);
            proof {
                assert(ranks@ =~= s.map_values(|c: TCV| bibliography_rank(c, is_numeric)).subrange(0, i + 1));
                assert(idx@ =~= positions(s.len()).subrange(0, i + 1));
            }
            i = i + 1;
        }
        proof {
            assert(ranks@ =~= s.map_values(|c: TCV| bibliography_rank(c, is_numeric)));
            assert(idx@ =~= positions(s.len()));
        }
        let order = stable_sort_indices(&idx, &ranks);
        proof {
            lemma_stable_sorted(idx@, |e: usize| ranks@[e as int]);
            assert forall|j: int| 0 <= j < order@.len() implies order@[j] < n by {
                assert(order@.contains(order@[j]));
                assert(idx@.contains(order@[j]));
            }
        }
        let mut out: Vec<TemplateComponent> = Vec::new();
        let mut k: usize = 0;
        while k < order.len()
            invariant
                k <= order@.len(),
                n == components@.len(),
                s == tcs_view(components@),
                forall|k: int| 0 <= k < n ==> #[trigger] s[k] == tc_view(components@[k]),
                forall|j: int| 0 <= j < order@.len() ==> order@[j] < n,
                out@.len() == k,
                forall|j: int| 0 <= j < k ==> tc_view(#[trigger] out@[j]) == s[order@[j] as int],
            decreases order@.len() - k,
        {
            out.push(copy_component(&components[order[k]]));
            k = k + 1;
        }
        proof {
            lemma_tcs_view(out@);
            assert(tcs_view(out@) =~= sorted_for_bibliography(s, is_numeric));
        }
        *components = out;
    }
}

} // verus!
