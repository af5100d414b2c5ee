//! Contributors: simple, structured and multilingual names, and lists of them.

use vstd::prelude::*;
use crate::reference::types::{LangID, MultilingualString, ml_text, same_ml};
use crate::text::{append_str, opt_view, push_char};

verus! {

/// A contributor: a single string, a structured name, a multilingual name, or
/// a list of contributors.
#[derive(Debug, PartialEq)]
pub enum Contributor {
    SimpleName(SimpleName),
    StructuredName(StructuredName),
    Multilingual(MultilingualName),
    ContributorList(ContributorList),
}

/// A name in its original script with transliterations and translations,
/// each script or language at most once.
#[derive(Debug, PartialEq)]
pub struct MultilingualName {
    pub original: StructuredName,
    pub lang: Option<LangID>,
    pub transliterations: Vec<(String, StructuredName)>,
    pub translations: Vec<(LangID, StructuredName)>,
}

/// A simple name is just a string, with an optional location.
#[derive(Debug, PartialEq)]
pub struct SimpleName {
    pub name: MultilingualString,
    pub location: Option<String>,
}

/// A name broken down into its parts.
#[derive(Debug, PartialEq, Default)]
pub struct StructuredName {
    pub given: MultilingualString,
    pub family: MultilingualString,
    pub suffix: Option<String>,
    pub dropping_particle: Option<String>,
    pub non_dropping_particle: Option<String>,
}

/// A list of contributors.
#[derive(Debug, PartialEq)]
pub struct ContributorList(pub Vec<Contributor>);

/// Equality of structured names by contents.
pub open spec fn same_structured(a: StructuredName, b: StructuredName) -> bool {
    &&& same_ml(a.given, b.given)
    &&& same_ml(a.family, b.family)
    &&& a.suffix == b.suffix
    &&& a.dropping_particle == b.dropping_particle
    &&& a.non_dropping_particle == b.non_dropping_particle
}

/// Equality of keyed name lists by contents.
pub open spec fn same_keyed_names(a: Seq<(String, StructuredName)>, b: Seq<(String, StructuredName)>) -> bool {
    &&& a.len() == b.len()
    &&& forall|i: int| 0 <= i < a.len() ==> #[trigger] a[i].0 == b[i].0 && same_structured(a[i].1, b[i].1)
}

/// Equality of contributors by contents.
pub open spec fn same_contributor(a: Contributor, b: Contributor) -> bool
    decreases a,
{
    if a is ContributorList {
        let x = a->ContributorList_0.0@;
        let y = b->ContributorList_0.0@;
        &&& b is ContributorList
        &&& x.len() == y.len()
        &&& forall|i: int| 0 <= i < x.len() ==> same_contributor(#[trigger] x[i], y[i])
    } else {
        same_single_contributor(a, b)
    }
}

/// Equality of contributors other than lists by contents.
pub open spec fn same_single_contributor(a: Contributor, b: Contributor) -> bool {
    match (a, b) {
        (Contributor::SimpleName(x), Contributor::SimpleName(y)) => same_ml(x.name, y.name) && x.location
            == y.location,
        (Contributor::StructuredName(x), Contributor::StructuredName(y)) => same_structured(x, y),
        (Contributor::Multilingual(x), Contributor::Multilingual(y)) => {
            &&& same_structured(x.original, y.original)
            &&& x.lang == y.lang
            &&& same_keyed_names(x.transliterations@, y.transliterations@)
            &&& same_keyed_names(x.translations@, y.translations@)
        },
        _ => false,
    }
}

/// Equality of optional contributors by contents.
pub open spec fn same_opt_contributor(a: Option<Contributor>, b: Option<Contributor>) -> bool {
    match (a, b) {
        (Some(x), Some(y)) => same_contributor(x, y),
        (None, None) => true,
        _ => false,
    }
}

impl StructuredName {
    /// A copy with the same contents.
    pub fn copy(&self) -> (r: Self)
        ensures
            same_structured(r, *self),
    {
        StructuredName {
            given: self.given.copy(),
            family: self.family.copy(),
            suffix: self.suffix.clone(),
            dropping_particle: self.dropping_particle.clone(),
            non_dropping_particle: self.non_dropping_particle.clone(),
        }
    }
}

fn copy_keyed_names(v: &Vec<(String, StructuredName)>) -> (r: Vec<(String, StructuredName)>)
    ensures
        same_keyed_names(r@, v@),
{
    let mut out: Vec<(String, StructuredName)> = Vec::new();
    let mut i: usize = 0;
    while i < v.len()
        invariant
            i <= v@.len(),
            out@.len() == i,
            forall|k: int| 0 <= k < i ==> #[trigger] out@[k].0 == v@[k].0 && same_structured(out@[k].1, v@[k].1),
        decreases v@.len() - i,
    {
        out.push((v[i].0.clone(), v[i].1.copy()));
        i = i + 1;
    }
    out
}

impl Contributor {
    /// A copy with the same contents.
    pub fn copy(&self) -> (r: Self)
        ensures
            same_contributor(r, *self),
        decreases self,
    {
        match self {
            Contributor::SimpleName(n) => Contributor::SimpleName(
                SimpleName { name: n.name.copy(), location: n.location.clone() },
            ),
            Contributor::StructuredName(n) => Contributor::StructuredName(n.copy()),
            Contributor::Multilingual(m) => Contributor::Multilingual(
                MultilingualName {
                    original: m.original.copy(),
                    lang: m.lang.clone(),
                    transliterations: copy_keyed_names(&m.transliterations),
                    translations: copy_keyed_names(&m.translations),
                },
            ),
            Contributor::ContributorList(l) => {
                let v = &l.0;
                let mut out: Vec<Contributor> = Vec::new();
                let mut i: usize = 0;
                while i < v.len()
                    invariant
                        *self == Contributor::ContributorList(*l),
                        l.0 == *v,
                        i <= v@.len(),
                        out@.len() == i,
                        forall|k: int| 0 <= k < i ==> same_contributor(#[trigger] out@[k], v@[k]),
                    decreases v@.len() - i,
                {
                    proof {
                        assert(decreases_to!(*self => self->ContributorList_0));
                        assert(decreases_to!(self->ContributorList_0 => self->ContributorList_0.0));
                        assert(decreases_to!(*v => v@));
                        assert(decreases_to!(v@ => v@[i as int]));
                    }
                    let c = v[i].copy();
                    out.push(c);
                    i = i + 1;
                }
                let r = Contributor::ContributorList(ContributorList(out));
                proof {
                    let x = r->ContributorList_0.0@;
                    let y = self->ContributorList_0.0@;
                    assert(x == out@ && y == v@);
                    assert(forall|k: int| 0 <= k < x.len() ==> same_contributor(#[trigger] x[k], y[k]));
                }
                r
            },
        }
    }
}

/// A copy of an optional contributor.
pub fn copy_opt_contributor(c: &Option<Contributor>) -> (r: Option<Contributor>)
    ensures
        same_opt_contributor(r, *c),
{
    match c {
        None => None,
        Some(x) => Some(x.copy()),
    }
}

/// A flattened name for internal processing.
#[derive(Debug, Clone, Default, PartialEq, Eq)]
pub struct FlatName {
    pub family: Option<String>,
    pub given: Option<String>,
    pub suffix: Option<String>,
    pub dropping_particle: Option<String>,
    pub non_dropping_particle: Option<String>,
    pub literal: Option<String>,
}

/// The contents of a flat name, strings by their views.
pub struct FlatNameView {
    pub family: Option<Seq<char>>,
    pub given: Option<Seq<char>>,
    pub suffix: Option<Seq<char>>,
    pub dropping_particle: Option<Seq<char>>,
    pub non_dropping_particle: Option<Seq<char>>,
    pub literal: Option<Seq<char>>,
}

impl View for FlatName {
    type V = FlatNameView;

    open spec fn view(&self) -> FlatNameView {
        FlatNameView {
            family: opt_view(self.family),
            given: opt_view(self.given),
            suffix: opt_view(self.suffix),
            dropping_particle: opt_view(self.dropping_particle),
            non_dropping_particle: opt_view(self.non_dropping_particle),
            literal: opt_view(self.literal),
        }
    }
}

/// The views of a sequence of flat names.
pub open spec fn flat_views(s: Seq<FlatName>) -> Seq<FlatNameView> {
    s.map_values(|f: FlatName| f@)
}

/// The flat name of a structured name.
pub open spec fn flat_of_structured(n: StructuredName) -> FlatNameView {
    FlatNameView {
        family: Some(ml_text(n.family)),
        given: Some(ml_text(n.given)),
        suffix: opt_view(n.suffix),
        dropping_particle: opt_view(n.dropping_particle),
        non_dropping_particle: opt_view(n.non_dropping_particle),
        literal: None,
    }
}

/// The flat names of a contributor, lists flattened in order.
pub open spec fn flat_names(c: Contributor) -> Seq<FlatNameView>
    decreases c, 1nat,
{
    match c {
        Contributor::SimpleName(n) => seq![
            FlatNameView {
                family: None,
                given: None,
                suffix: None,
                dropping_particle: None,
                non_dropping_particle: None,
                literal: Some(ml_text(n.name)),
            },
        ],
        Contributor::StructuredName(n) => seq![flat_of_structured(n)],
        Contributor::Multilingual(m) => seq![flat_of_structured(m.original)],
        Contributor::ContributorList(_) => flat_names_all(c->ContributorList_0.0@),
    }
}

/// The flat names of a sequence of contributors, concatenated in order.
pub open spec fn flat_names_all(s: Seq<Contributor>) -> Seq<FlatNameView>
    decreases s, 0nat,
{
    if s.len() == 0 {
        Seq::empty()
    } else {
        flat_names_all(s.drop_last()) + flat_names(s.last())
    }
}

fn flat_structured(n: &StructuredName) -> (r: FlatName)
    ensures
        r@ == flat_of_structured(*n),
{
    FlatName {
        given: Some(n.given.text()),
        family: Some(n.family.text()),
        suffix: n.suffix.clone(),
        dropping_particle: n.dropping_particle.clone(),
        non_dropping_particle: n.non_dropping_particle.clone(),
        literal: None,
    }
}

fn append_flat(out: &mut Vec<FlatName>, more: Vec<FlatName>)
    ensures
        flat_views(final(out)@) == flat_views(old(out)@) + flat_views(more@),
{
    let ghost start = out@;
    let ghost added = more@;
    let mut more = more;
    out.append(&mut more);
    assert(flat_views(start + added) =~= flat_views(start) + flat_views(added));
}

impl Contributor {
    /// The flat names of this contributor: one for a single name, those of
    /// each member, in order, for a list.
    pub fn to_names_vec(&self) -> (r: Vec<FlatName>)
        ensures
            flat_views(r@) == flat_names(*self),
        decreases self,
    {
        match self {
            Contributor::SimpleName(n) => {
                let f = FlatName {
                    family: None,
                    given: None,
                    suffix: None,
                    dropping_particle: None,
                    non_dropping_particle: None,
                    literal: Some(n.name.text()),
                };
                let r = vec![f];
                assert(flat_views(r@) =~= flat_names(*self));
                r
            },
            Contributor::StructuredName(n) => {
                let r = vec![flat_structured(n)];
                assert(flat_views(r@) =~= flat_names(*self));
                r
            },
            Contributor::Multilingual(m) => {
                let r = vec![flat_structured(&m.original)];
                assert(flat_views(r@) =~= flat_names(*self));
                r
            },
            Contributor::ContributorList(l) => {
                let v = &l.0;
                let mut out: Vec<FlatName> = Vec::new();
                let mut i: usize = 0;
                while i < v.len()
                    invariant
                        *self == Contributor::ContributorList(*l),
                        l.0 == *v,
                        i <= v@.len(),
                        flat_views(out@) == flat_names_all(v@.subrange(0, i as int)),
                    decreases v@.len() - i,
                {
                    proof {
                        assert(decreases_to!(*self => self->ContributorList_0));
                        assert(decreases_to!(self->ContributorList_0 => self->ContributorList_0.0));
                        assert(decreases_to!(*v => v@));
                        assert(decreases_to!(v@ => v@[i as int]));
                    }
                    let more = v[i].to_names_vec();
                    append_flat(&mut out, more);
                    proof {
                        let s = v@.subrange(0, i + 1);
                        assert(s.drop_last() =~= v@.subrange(0, i as int));
                        assert(s.last() == v@[i as int]);
                    }
                    i = i + 1;
                }
                assert(v@.subrange(0, v@.len() as int) =~= v@);
                out
            },
        }
    }

    /// The name as a single string: the string of a simple name, or the
    /// original given and family names joined by a space; `None` for a
    /// structured name or a list.
    pub fn name(&self) -> (r: Option<String>)
        ensures
            opt_view(r) == contributor_name(*self),
    {
        match self {
            Contributor::SimpleName(n) => Some(n.name.text()),
            Contributor::Multilingual(m) => {
                let mut s = m.original.given.text();
                push_char(&mut s, ' ');
                let f = m.original.family.text();
                let s = append_str(s, f.as_str());
                Some(s)
            },
            _ => None,
        }
    }

    /// The location of a simple name; `None` for any other contributor.
    pub fn location(&self) -> (r: Option<String>)
        ensures
            r == contributor_location(*self),
    {
        match self {
            Contributor::SimpleName(n) => n.location.clone(),
            _ => None,
        }
    }
}

/// The single-string name of a contributor, as `Contributor::name` gives it.
pub open spec fn contributor_name(c: Contributor) -> Option<Seq<char>> {
    match c {
        Contributor::SimpleName(n) => Some(ml_text(n.name)),
        Contributor::Multilingual(m) => Some(ml_text(m.original.given) + seq![' '] + ml_text(m.original.family)),
        _ => None,
    }
}

/// The location of a contributor, as `Contributor::location` gives it.
pub open spec fn contributor_location(c: Contributor) -> Option<String> {
    match c {
        Contributor::SimpleName(n) => n.location,
        _ => None,
    }
}

impl FlatName {
    /// The family name, else the literal name, else the empty string.
    pub fn family_or_literal(&self) -> (r: &str)
        ensures
            r@ == (match self.family {
                Some(f) => f@,
                None => match self.literal {
                    Some(l) => l@,
                    None => Seq::<char>::empty(),
                },
            }),
    {
        if let Some(f) = &self.family {
            f.as_str()
        } else if let Some(l) = &self.literal {
            l.as_str()
        } else {
            proof {
                reveal_strlit("");
            }
            ""
        }
    }
}

} // verus!
