//! Title formatting configuration.

use vstd::prelude::*;
use crate::options::custom::{copy_custom, custom_view, JsonValue};
use crate::presets::{title_preset_holds, TitlePreset};
use crate::template::{empty_rendering, Rendering};
use crate::text::str_eq;

verus! {

/// Rendering options for titles.
#[derive(Debug, PartialEq, Default)]
pub struct TitleRendering {
    pub emph: Option<bool>,
    pub quote: Option<bool>,
    pub strong: Option<bool>,
    pub small_caps: Option<bool>,
    pub prefix: Option<String>,
    pub suffix: Option<String>,
    /// Per-language renderings, each language tag at most once.
    pub locale_overrides: Option<Vec<(String, TitleRendering)>>,
}

/// Equality of title renderings by contents, language overrides included.
pub open spec fn same_title_rendering(a: TitleRendering, b: TitleRendering) -> bool
    decreases a,
{
    &&& a.emph == b.emph
    &&& a.quote == b.quote
    &&& a.strong == b.strong
    &&& a.small_caps == b.small_caps
    &&& a.prefix == b.prefix
    &&& a.suffix == b.suffix
    &&& (a.locale_overrides is Some <==> b.locale_overrides is Some)
    &&& (a.locale_overrides is Some ==> {
        let x = a.locale_overrides.unwrap()@;
        let y = b.locale_overrides.unwrap()@;
        &&& x.len() == y.len()
        &&& forall|i: int|
            0 <= i < x.len() ==> #[trigger] x[i].0@ == y[i].0@ && same_title_rendering(x[i].1, y[i].1)
    })
}

impl TitleRendering {
    /// A copy with the same contents.
    pub fn copy(&self) -> (r: Self)
        ensures
            same_title_rendering(r, *self),
        decreases self,
    {
        let locale_overrides = match &self.locale_overrides {
            None => None,
            Some(v) => {
                let mut out: Vec<(String, TitleRendering)> = Vec::new();
                let mut i: usize = 0;
                while i < v.len()
                    invariant
                        self.locale_overrides == Some(*v),
                        i <= v@.len(),
                        out@.len() == i,
                        forall|k: int|
                            0 <= k < i ==> #[trigger] out@[k].0@ == v@[k].0@ && same_title_rendering(
                                out@[k].1,
                                v@[k].1,
                            ),
                    decreases v@.len() - i,
                {
                    let e = &v[i];
                    proof {
                        assert(decreases_to!(*self => self.locale_overrides));
                        assert(decreases_to!(self.locale_overrides => self.locale_overrides->Some_0));
                        assert(decreases_to!(*v => v@));
                        assert(decreases_to!(v@ => v@[i as int]));
                        assert(decreases_to!(v@[i as int] => v@[i as int].1));
                    }
                    out.push((e.0.clone(), e.1.copy()));
                    i = i + 1;
                }
                Some(out)
            },
        };
        TitleRendering {
            emph: self.emph,
            quote: self.quote,
            strong: self.strong,
            small_caps: self.small_caps,
            prefix: self.prefix.clone(),
            suffix: self.suffix.clone(),
            locale_overrides,
        }
    }
}

/// A title rendering with only the given emphasis and quote flags set.
pub open spec fn is_flag_rendering(t: TitleRendering, emph: Option<bool>, quote: Option<bool>) -> bool {
    t.emph == emph && t.quote == quote && t.strong is None && t.small_caps is None
        && t.prefix is None && t.suffix is None && t.locale_overrides is None
}

/// Index of the first entry of `s` whose key is `k`, or -1.
pub open spec fn first_key_index<V>(s: Seq<(String, V)>, k: Seq<char>) -> int
    decreases s.len(),
{
    if s.len() == 0 {
        -1
    } else {
        let j = first_key_index(s.drop_last(), k);
        if j >= 0 {
            j
        } else if s.last().0@ == k {
            s.len() - 1
        } else {
            -1
        }
    }
}

proof fn lemma_first_key_index<V>(s: Seq<(String, V)>, k: Seq<char>)
    ensures
        -1 <= first_key_index(s, k) < s.len(),
        first_key_index(s, k) >= 0 ==> s[first_key_index(s, k)].0@ == k,
        first_key_index(s, k) >= 0 ==> forall|i: int| 0 <= i < first_key_index(s, k) ==> s[i].0@ != k,
        first_key_index(s, k) == -1 ==> forall|i: int| 0 <= i < s.len() ==> s[i].0@ != k,
    decreases s.len(),
{
    if s.len() > 0 {
        lemma_first_key_index(s.drop_last(), k);
        assert forall|i: int| 0 <= i < s.len() - 1 implies s.drop_last()[i] == s[i] by {}
    }
}

/// Whether no key occurs twice among the entries, as in a map.
pub open spec fn keys_unique<V>(s: Seq<(String, V)>) -> bool {
    forall|i: int, j: int| 0 <= i < j < s.len() ==> #[trigger] s[i].0@ != #[trigger] s[j].0@
}

/// When no key occurs twice, the entry found for a key is its only entry,
/// wherever it stands.
pub proof fn law_unique_keys_find_their_entry<V>(s: Seq<(String, V)>, i: int)
    requires
        keys_unique(s),
        0 <= i < s.len(),
    ensures
        first_key_index(s, s[i].0@) == i,
{
    lemma_first_key_index(s, s[i].0@);
    let j = first_key_index(s, s[i].0@);
    if j != i {
        if j < i {
            assert(s[j].0@ != s[i].0@);
        }
    }
}

/// Finds the entry for the key `k` (the first one with that key).
pub fn find_entry<'a, V>(entries: &'a Vec<(String, V)>, k: &str) -> (r: Option<&'a V>)
    ensures
        first_key_index(entries@, k@) == -1 ==> r is None,
        first_key_index(entries@, k@) >= 0 ==> r is Some && *r.unwrap()
            == entries@[first_key_index(entries@, k@)].1,
{
    proof {
        lemma_first_key_index(entries@, k@);
    }
    let mut i: usize = 0;
    while i < entries.len()
        invariant
            i <= entries@.len(),
            forall|j: int| 0 <= j < i ==> entries@[j].0@ != k@,
            -1 <= first_key_index(entries@, k@) < entries@.len(),
            first_key_index(entries@, k@) >= 0 ==> entries@[first_key_index(entries@, k@)].0@ == k@,
            first_key_index(entries@, k@) >= 0 ==> forall|j: int|
                0 <= j < first_key_index(entries@, k@) ==> entries@[j].0@ != k@,
            first_key_index(entries@, k@) == -1 ==> forall|j: int|
                0 <= j < entries@.len() ==> entries@[j].0@ != k@,
        decreases entries@.len() - i,
    {
        if str_eq(entries[i].0.as_str(), k) {
            return Some(&entries[i].1);
        }
        i = i + 1;
    }
    None
}

/// The part of a language tag before its first hyphen (the whole tag if it
/// has none).
pub open spec fn primary_subtag(s: Seq<char>) -> Seq<char>
    decreases s.len(),
{
    if s.len() == 0 {
        s
    } else if s[0] == '-' {
        Seq::empty()
    } else {
        seq![s[0]] + primary_subtag(s.drop_first())
    }
}

proof fn lemma_primary_subtag(s: Seq<char>, i: int)
    requires
        0 <= i <= s.len(),
        forall|k: int| 0 <= k < i ==> s[k] != '-',
        i == s.len() || s[i] == '-',
    ensures
        primary_subtag(s) == s.subrange(0, i),
    decreases i,
{
    if i > 0 {
        assert forall|k: int| 0 <= k < i - 1 implies s.drop_first()[k] != '-' by {
            assert(s.drop_first()[k] == s[k + 1]);
        }
        lemma_primary_subtag(s.drop_first(), i - 1);
        assert(s.subrange(0, i) =~= seq![s[0]] + s.drop_first().subrange(0, i - 1));
    } else {
        assert(s.subrange(0, 0) =~= Seq::<char>::empty());
    }
}

/// The part of `s` before its first hyphen (`s.split('-').next()`).
pub fn first_subtag(s: &str) -> (r: &str)
    ensures
        r@ == primary_subtag(s@),
{
    let n = s.unicode_len();
    let mut i: usize = 0;
    while i < n && s.get_char(i) != '-'
        invariant
            n == s@.len(),
            i <= n,
            forall|k: int| 0 <= k < i ==> s@[k] != '-',
        decreases n - i,
    {
        i = i + 1;
    }
    proof {
        lemma_primary_subtag(s@, i as int);
    }
    s.substring_char(0, i)
}

/// The override entry chosen for `language`: the exact tag, else its primary
/// subtag; `-1` when neither has an entry.
pub open spec fn chosen_override_index(s: Seq<(String, TitleRendering)>, language: Seq<char>) -> int {
    if first_key_index(s, language) >= 0 {
        first_key_index(s, language)
    } else {
        first_key_index(s, primary_subtag(language))
    }
}

impl TitleRendering {
    /// The equivalent component rendering.
    pub fn to_rendering(&self) -> (r: Rendering)
        ensures
            r == (Rendering {
                emph: self.emph,
                quote: self.quote,
                strong: self.strong,
                small_caps: self.small_caps,
                prefix: self.prefix,
                suffix: self.suffix,
                ..empty_rendering()
            }),
    {
        let mut r = Rendering::default();
        r.emph = self.emph;
        r.quote = self.quote;
        r.strong = self.strong;
        r.small_caps = self.small_caps;
        r.prefix = self.prefix.clone();
        r.suffix = self.suffix.clone();
        r
    }

    /// The language-specific override for `language`: the entry for the exact
    /// tag, else the entry for its primary subtag.
    pub fn locale_override(&self, language: Option<&str>) -> (r: Option<&TitleRendering>)
        ensures
            (self.locale_overrides is None || language is None) ==> r is None,
            self.locale_overrides is Some && language is Some ==> {
                let s = self.locale_overrides.unwrap()@;
                let i = chosen_override_index(s, language.unwrap()@);
                &&& (i == -1 ==> r is None)
                &&& (i >= 0 ==> r is Some && *r.unwrap() == s[i].1)
            },
    {
        let overrides = match &self.locale_overrides {
            Some(o) => o,
            None => return None,
        };
        let language = match language {
            Some(l) => l,
            None => return None,
        };
        match find_entry(overrides, language) {
            Some(t) => Some(t),
            None => find_entry(overrides, first_subtag(language)),
        }
    }
}

/// Title formatting configuration by title type.
#[derive(Debug, PartialEq, Default)]
pub struct TitlesConfig {
    /// Mapping of reference types to title categories, each type at most once.
    pub type_mapping: Vec<(String, String)>,
    /// Formatting for component titles (articles, chapters).
    pub component: Option<TitleRendering>,
    /// Formatting for monograph titles (books).
    pub monograph: Option<TitleRendering>,
    /// Formatting for monograph containers (book containing chapters).
    pub container_monograph: Option<TitleRendering>,
    /// Formatting for periodical titles (journals, magazines).
    pub periodical: Option<TitleRendering>,
    /// Formatting for serial titles (series).
    pub serial: Option<TitleRendering>,
    /// Default formatting for all titles.
    pub default: Option<TitleRendering>,
    /// Free-form extension values, keyed by name.
    pub custom: Option<Vec<(String, JsonValue)>>,
}

/// Title config: either a preset name or explicit configuration.
#[derive(Debug, PartialEq)]
pub enum TitlesConfigEntry {
    /// A named preset (e.g., "apa", "chicago", "humanities", "scientific").
    Preset(TitlePreset),
    /// Explicit title configuration.
    Explicit(Box<TitlesConfig>),
}

impl TitlesConfigEntry {
    /// Resolve a preset entry to its concrete `TitlesConfig`; an explicit
    /// entry is returned as it is.
    pub fn resolve(self) -> (r: TitlesConfig)
        ensures
            match self {
                TitlesConfigEntry::Preset(p) => title_preset_holds(r, p),
                TitlesConfigEntry::Explicit(c) => r == *c,
            },
    {
        match self {
            TitlesConfigEntry::Preset(preset) => preset.config(),
            TitlesConfigEntry::Explicit(config) => *config,
        }
    }
}


/// Equality of optional title renderings by contents.
pub open spec fn same_opt_title_rendering(a: Option<TitleRendering>, b: Option<TitleRendering>) -> bool {
    (a is Some <==> b is Some) && (a is Some ==> same_title_rendering(a.unwrap(), b.unwrap()))
}

/// Equality of title configurations by contents.
pub open spec fn same_titles_config(a: TitlesConfig, b: TitlesConfig) -> bool {
    &&& a.type_mapping@.len() == b.type_mapping@.len()
    &&& forall|i: int| 0 <= i < a.type_mapping@.len() ==> #[trigger] a.type_mapping@[i] == b.type_mapping@[i]
    &&& same_opt_title_rendering(a.component, b.component)
    &&& same_opt_title_rendering(a.monograph, b.monograph)
    &&& same_opt_title_rendering(a.container_monograph, b.container_monograph)
    &&& same_opt_title_rendering(a.periodical, b.periodical)
    &&& same_opt_title_rendering(a.serial, b.serial)
    &&& same_opt_title_rendering(a.default, b.default)
    &&& custom_view(a.custom) == custom_view(b.custom)
}

fn copy_opt_title_rendering(o: &Option<TitleRendering>) -> (r: Option<TitleRendering>)
    ensures
        same_opt_title_rendering(r, *o),
{
    match o {
        Some(t) => Some(t.copy()),
        None => None,
    }
}

impl TitlesConfig {
    /// A copy with the same contents.
    pub fn copy(&self) -> (r: Self)
        ensures
            same_titles_config(r, *self),
    {
        let mut type_mapping: Vec<(String, String)> = Vec::new();
        let mut i: usize = 0;
        while i < self.type_mapping.len()
            invariant
                i <= self.type_mapping@.len(),
                type_mapping@.len() == i,
                forall|k: int| 0 <= k < i ==> #[trigger] type_mapping@[k] == self.type_mapping@[k],
            decreases self.type_mapping@.len() - i,
        {
            let e = &self.type_mapping[i];
            type_mapping.push((e.0.clone(), e.1.clone()));
            i = i + 1;
        }
        TitlesConfig {
            type_mapping,
            component: copy_opt_title_rendering(&self.component),
            monograph: copy_opt_title_rendering(&self.monograph),
            container_monograph: copy_opt_title_rendering(&self.container_monograph),
            periodical: copy_opt_title_rendering(&self.periodical),
            serial: copy_opt_title_rendering(&self.serial),
            default: copy_opt_title_rendering(&self.default),
            custom: copy_custom(&self.custom),
        }
    }
}

} // verus!

verus! {

impl Clone for TitleRendering {
    fn clone(&self) -> (r: Self)
        ensures
            same_title_rendering(r, *self),
    {
        self.copy()
    }
}

impl Clone for TitlesConfig {
    fn clone(&self) -> (r: Self)
        ensures
            same_titles_config(r, *self),
    {
        self.copy()
    }
}

} // verus!
