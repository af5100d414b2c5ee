//! Multilingual rendering options.

use vstd::prelude::*;
use crate::template::same_strings;

verus! {

/// Multilingual rendering options.
#[derive(Debug, Clone, PartialEq, Default)]
pub struct MultilingualConfig {
    /// Preferred rendering mode for titles.
    pub title_mode: Option<MultilingualMode>,
    /// Preferred rendering mode for names.
    pub name_mode: Option<MultilingualMode>,
    /// Preferred script for transliterations (e.g., "Latn").
    pub preferred_script: Option<String>,
    /// Ordered priority list of BCP 47 transliteration tags.
    pub preferred_transliteration: Option<Vec<String>>,
    /// Script-specific behaviour, each script at most once.
    pub scripts: Vec<(String, ScriptConfig)>,
}

/// Rendering modes for multilingual content.
#[derive(Debug, Clone, Copy, PartialEq, Eq, Structural)]
pub enum MultilingualMode {
    /// Use original script.
    Primary,
    /// Use transliteration.
    Transliterated,
    /// Use translation matching style locale.
    Translated,
    /// Combine multiple views.
    Combined,
}

/// Configuration for specific scripts.
#[derive(Debug, Clone, PartialEq, Default)]
pub struct ScriptConfig {
    /// Whether to use native ordering for this script.
    pub use_native_ordering: bool,
    /// Custom delimiter for this script.
    pub delimiter: Option<String>,
}


/// Equality of multilingual settings by contents.
pub open spec fn same_multilingual(a: MultilingualConfig, b: MultilingualConfig) -> bool {
    &&& a.title_mode == b.title_mode
    &&& a.name_mode == b.name_mode
    &&& a.preferred_script == b.preferred_script
    &&& (a.preferred_transliteration is Some <==> b.preferred_transliteration is Some)
    &&& (a.preferred_transliteration is Some ==> same_strings(
        a.preferred_transliteration.unwrap()@,
        b.preferred_transliteration.unwrap()@,
    ))
    &&& a.scripts@ == b.scripts@
}

/// A copy of a vector of strings.
pub fn copy_strings(v: &Vec<String>) -> (r: Vec<String>)
    ensures
        r@ == v@,
{
    let mut out: Vec<String> = Vec::new();
    let mut i: usize = 0;
    while i < v.len()
        invariant
            i <= v@.len(),
            out@ =~= v@.subrange(0, i as int),
        decreases v@.len() - i,
    {
        out.push(v[i].clone());
        i = i + 1;
    }
    assert(out@ =~= v@);
    out
}

impl ScriptConfig {
    /// A copy with the same contents.
    pub fn copy(&self) -> (r: Self)
        ensures
            r == *self,
    {
        ScriptConfig { use_native_ordering: self.use_native_ordering, delimiter: self.delimiter.clone() }
    }
}

impl MultilingualConfig {
    /// A copy with the same contents.
    pub fn copy(&self) -> (r: Self)
        ensures
            same_multilingual(r, *self),
    {
        let mut scripts: Vec<(String, ScriptConfig)> = Vec::new();
        let mut i: usize = 0;
        while i < self.scripts.len()
            invariant
                i <= self.scripts@.len(),
                scripts@ =~= self.scripts@.subrange(0, i as int),
            decreases self.scripts@.len() - i,
        {
            let e = &self.scripts[i];
            scripts.push((e.0.clone(), e.1.copy()));
            i = i + 1;
        }
        assert(scripts@ =~= self.scripts@);
        MultilingualConfig {
            title_mode: self.title_mode,
            name_mode: self.name_mode,
            preferred_script: self.preferred_script.clone(),
            preferred_transliteration: match &self.preferred_transliteration {
                Some(v) => Some(copy_strings(v)),
                None => None,
            },
            scripts,
        }
    }
}

} // verus!
