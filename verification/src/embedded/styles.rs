//! Names and aliases of the built-in (embedded) styles.

use vstd::prelude::*;
use crate::text::str_eq;

verus! {

/// All embedded style names, ordered by corpus impact.
pub open spec fn embedded_style_names() -> Seq<Seq<char>> {
    seq![
        "apa-7th"@,
        "elsevier-harvard"@,
        "elsevier-with-titles"@,
        "elsevier-vancouver"@,
        "springer-basic-author-date"@,
        "springer-vancouver-brackets"@,
        "springer-basic-brackets"@,
        "american-medical-association"@,
        "ieee"@,
        "taylor-and-francis-chicago-author-date"@,
        "chicago-shortened-notes-bibliography"@,
        "modern-language-association"@,
    ]
}

/// Short aliases and the embedded style names they stand for.
pub open spec fn embedded_style_aliases() -> Seq<(Seq<char>, Seq<char>)> {
    seq![
        ("apa"@, "apa-7th"@),
        ("mla"@, "modern-language-association"@),
        ("ieee"@, "ieee"@),
        ("ama"@, "american-medical-association"@),
        ("chicago"@, "chicago-shortened-notes-bibliography"@),
        ("chicago-author-date"@, "taylor-and-francis-chicago-author-date"@),
        ("vancouver"@, "elsevier-vancouver"@),
        ("harvard"@, "elsevier-harvard"@),
    ]
}

/// The full style name that `name` denotes: itself when it is an embedded
/// style name, else the target of the first alias equal to it.
pub open spec fn resolved_style_name(name: Seq<char>) -> Option<Seq<char>> {
    if embedded_style_names().contains(name) {
        Some(name)
    } else if exists|i: int| 0 <= i < embedded_style_aliases().len() && embedded_style_aliases()[i].0 == name {
        let i = choose|i: int| 0 <= i < embedded_style_aliases().len() && embedded_style_aliases()[i].0 == name
            && forall|j: int| 0 <= j < i ==> embedded_style_aliases()[j].0 != name;
        Some(embedded_style_aliases()[i].1)
    } else {
        None
    }
}

/// Every alias stands for an embedded style name.
proof fn lemma_alias_targets_embedded()
    ensures
        forall|i: int| 0 <= i < embedded_style_aliases().len() ==> embedded_style_names().contains(
            #[trigger] embedded_style_aliases()[i].1,
        ),
{
    let n = embedded_style_names();
    let a = embedded_style_aliases();
    assert(a[0].1 == n[0]);
    assert(a[1].1 == n[11]);
    assert(a[2].1 == n[8]);
    assert(a[3].1 == n[7]);
    assert(a[4].1 == n[10]);
    assert(a[5].1 == n[9]);
    assert(a[6].1 == n[3]);
    assert(a[7].1 == n[1]);
}

proof fn lemma_first_alias(a: Seq<(Seq<char>, Seq<char>)>, name: Seq<char>, k: int)
    requires
        0 <= k <= a.len(),
        forall|j: int| 0 <= j < k ==> a[j].0 != name,
        exists|i: int| k <= i < a.len() && a[i].0 == name,
    ensures
        exists|i: int| 0 <= i < a.len() && a[i].0 == name && forall|j: int| 0 <= j < i ==> a[j].0 != name,
    decreases a.len() - k,
{
    if a[k].0 != name {
        lemma_first_alias(a, name, k + 1);
    }
}

/// A name resolves to an embedded style name, which resolves to itself.
pub proof fn law_resolved_is_embedded(name: Seq<char>)
    ensures
        resolved_style_name(name) is Some ==> embedded_style_names().contains(resolved_style_name(name).unwrap())
            && resolved_style_name(resolved_style_name(name).unwrap()) == resolved_style_name(name),
{
    lemma_alias_targets_embedded();
    let a = embedded_style_aliases();
    if !embedded_style_names().contains(name) && exists|i: int| 0 <= i < a.len() && a[i].0 == name {
        lemma_first_alias(a, name, 0);
        let i = choose|i: int| 0 <= i < a.len() && a[i].0 == name && forall|j: int| 0 <= j < i ==> a[j].0 != name;
        assert(embedded_style_names().contains(a[i].1));
    }
}

/// Resolve a style name or alias to the full embedded style name.
pub fn resolve_embedded_style_name(name: &str) -> (r: Option<&'static str>)
    ensures
        r is Some <==> resolved_style_name(name@) is Some,
        r is Some ==> r.unwrap()@ == resolved_style_name(name@).unwrap(),
{
    let names: [&'static str; 12] = [
        "apa-7th",
        "elsevier-harvard",
        "elsevier-with-titles",
        "elsevier-vancouver",
        "springer-basic-author-date",
        "springer-vancouver-brackets",
        "springer-basic-brackets",
        "american-medical-association",
        "ieee",
        "taylor-and-francis-chicago-author-date",
        "chicago-shortened-notes-bibliography",
        "modern-language-association",
    ];
    let aliases: [(&'static str, &'static str); 8] = [
        ("apa", "apa-7th"),
        ("mla", "modern-language-association"),
        ("ieee", "ieee"),
        ("ama", "american-medical-association"),
        ("chicago", "chicago-shortened-notes-bibliography"),
        ("chicago-author-date", "taylor-and-francis-chicago-author-date"),
        ("vancouver", "elsevier-vancouver"),
        ("harvard", "elsevier-harvard"),
    ];
    let ghost name_views = names@.map_values(|s: &str| s@);
    let ghost alias_views = aliases@.map_values(|p: (&str, &str)| (p.0@, p.1@));
    assert(name_views =~= embedded_style_names());
    assert(alias_views =~= embedded_style_aliases());
    let mut i: usize = 0;
    while i < 12
        invariant
            i <= 12,
            name_views == names@.map_values(|s: &str| s@),
            name_views == embedded_style_names(),
            forall|k: int| 0 <= k < i ==> names@[k]@ != name@,
        decreases 12 - i,
    {
        if str_eq(names[i], name) {
            assert(name_views[i as int] == name@);
            return Some(names[i]);
        }
        i = i + 1;
    }
    assert(!embedded_style_names().contains(name@)) by {
        if embedded_style_names().contains(name@) {
            let k = choose|k: int| 0 <= k < 12 && embedded_style_names()[k] == name@;
            assert(name_views[k] == names@[k]@);
        }
    }
    let mut j: usize = 0;
    while j < 8
        invariant
            j <= 8,
            !embedded_style_names().contains(name@),
            alias_views == aliases@.map_values(|p: (&str, &str)| (p.0@, p.1@)),
            alias_views == embedded_style_aliases(),
            forall|k: int| 0 <= k < j ==> aliases@[k].0@ != name@,
        decreases 8 - j,
    {
        if str_eq(aliases[j].0, name) {
            assert(alias_views[j as int].0 == name@);
            assert(forall|k: int| 0 <= k < j ==> alias_views[k].0 != name@);
            return Some(aliases[j].1);
        }
        j = j + 1;
    }
    assert forall|k: int| 0 <= k < 8 implies embedded_style_aliases()[k].0 != name@ by {
        assert(alias_views[k].0 == aliases@[k].0@);
    }
    None
}

} // verus!
