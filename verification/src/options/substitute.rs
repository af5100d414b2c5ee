//! Substitution rules for missing author data.

use vstd::prelude::*;
use crate::presets::{substitute_preset_role_form, substitute_preset_template, SubstitutePreset};

verus! {

/// Fields that can be used as author substitutes.
#[derive(Debug, Clone, Copy, PartialEq, Eq, Structural)]
pub enum SubstituteKey {
    Editor,
    Title,
    Translator,
}

/// Explicit substitution configuration.
#[derive(Debug, Clone, PartialEq)]
pub struct Substitute {
    /// Form to use for contributor roles when substituting.
    pub contributor_role_form: Option<String>,
    /// Ordered list of fields to try as substitutes.
    pub template: Vec<SubstituteKey>,
    /// Type-specific substitution lists, each type name at most once.
    pub overrides: Vec<(String, Vec<SubstituteKey>)>,
}

/// Equality of two override lists by contents.
pub open spec fn same_key_overrides(
    a: Seq<(String, Vec<SubstituteKey>)>,
    b: Seq<(String, Vec<SubstituteKey>)>,
) -> bool {
    a.len() == b.len() && forall|i: int|
        0 <= i < a.len() ==> #[trigger] a[i].0@ == b[i].0@ && a[i].1@ == b[i].1@
}

/// Equality of substitution configurations by contents.
pub open spec fn same_substitute(a: Substitute, b: Substitute) -> bool {
    &&& (a.contributor_role_form is Some <==> b.contributor_role_form is Some)
    &&& (a.contributor_role_form is Some ==> a.contributor_role_form.unwrap()@
        == b.contributor_role_form.unwrap()@)
    &&& a.template@ == b.template@
    &&& same_key_overrides(a.overrides@, b.overrides@)
}

/// The default substitution order: editor, title, translator.
pub open spec fn standard_substitute_order() -> Seq<SubstituteKey> {
    seq![SubstituteKey::Editor, SubstituteKey::Title, SubstituteKey::Translator]
}

fn copy_keys(v: &Vec<SubstituteKey>) -> (r: Vec<SubstituteKey>)
    ensures
        r@ == v@,
{
    let mut out: Vec<SubstituteKey> = Vec::new();
    let mut i: usize = 0;
    while i < v.len()
        invariant
            i <= v@.len(),
            out@ =~= v@.subrange(0, i as int),
        decreases v@.len() - i,
    {
        out.push(v[i]);
        i = i + 1;
    }
    out
}

impl Default for Substitute {
    fn default() -> (r: Self)
        ensures
            r.contributor_role_form is None,
            r.template@ == standard_substitute_order(),
            r.overrides@.len() == 0,
    {
        let mut template: Vec<SubstituteKey> = Vec::new();
        template.push(SubstituteKey::Editor);
        template.push(SubstituteKey::Title);
        template.push(SubstituteKey::Translator);
        proof {
            assert(template@ =~= standard_substitute_order());
        }
        Substitute { contributor_role_form: None, template, overrides: Vec::new() }
    }
}

impl Substitute {
    /// A copy with the same contents.
    pub fn copy(&self) -> (r: Self)
        ensures
            same_substitute(r, *self),
    {
        let mut overrides: Vec<(String, Vec<SubstituteKey>)> = Vec::new();
        let mut i: usize = 0;
        while i < self.overrides.len()
            invariant
                i <= self.overrides@.len(),
                overrides@.len() == i,
                forall|k: int|
                    0 <= k < i ==> #[trigger] overrides@[k].0@ == self.overrides@[k].0@
                        && overrides@[k].1@ == self.overrides@[k].1@,
            decreases self.overrides@.len() - i,
        {
            let entry = &self.overrides[i];
            overrides.push((entry.0.clone(), copy_keys(&entry.1)));
            i = i + 1;
        }
        Substitute {
            contributor_role_form: self.contributor_role_form.clone(),
            template: copy_keys(&self.template),
            overrides,
        }
    }
}

/// Substitution rules: a named preset or explicit configuration.
#[derive(Debug, Clone, PartialEq)]
pub enum SubstituteConfig {
    /// A named preset (e.g., "standard", "editor-first", "title-first").
    Preset(SubstitutePreset),
    /// Explicit substitution configuration.
    Explicit(Substitute),
}

impl Default for SubstituteConfig {
    fn default() -> (r: Self)
        ensures
            r matches SubstituteConfig::Explicit(s) && s.contributor_role_form is None
                && s.template@ == standard_substitute_order() && s.overrides@.len() == 0,
    {
        SubstituteConfig::Explicit(Substitute::default())
    }
}

impl SubstituteConfig {
    /// Resolve this config to a concrete `Substitute`.
    pub fn resolve(&self) -> (r: Substitute)
        ensures
            match self {
                SubstituteConfig::Preset(p) => {
                    &&& r.template@ == substitute_preset_template(*p)
                    &&& r.overrides@.len() == 0
                    &&& (r.contributor_role_form is Some <==> substitute_preset_role_form(*p) is Some)
                    &&& (r.contributor_role_form is Some ==> r.contributor_role_form.unwrap()@
                        == substitute_preset_role_form(*p).unwrap())
                },
                SubstituteConfig::Explicit(c) => same_substitute(r, *c),
            },
    {
        match self {
            SubstituteConfig::Preset(preset) => preset.config(),
            SubstituteConfig::Explicit(config) => config.copy(),
        }
    }
}


/// Equality of substitution settings by contents.
pub open spec fn same_substitute_config(a: SubstituteConfig, b: SubstituteConfig) -> bool {
    match (a, b) {
        (SubstituteConfig::Preset(x), SubstituteConfig::Preset(y)) => x == y,
        (SubstituteConfig::Explicit(x), SubstituteConfig::Explicit(y)) => same_substitute(x, y),
        _ => false,
    }
}

impl SubstituteConfig {
    /// A copy with the same contents.
    pub fn copy(&self) -> (r: Self)
        ensures
            same_substitute_config(r, *self),
    {
        match self {
            SubstituteConfig::Preset(p) => SubstituteConfig::Preset(*p),
            SubstituteConfig::Explicit(c) => SubstituteConfig::Explicit(c.copy()),
        }
    }
}

} // verus!
