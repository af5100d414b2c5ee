//! Where the migration takes its templates from: hand-authored styles,
//! cached inferred fragments, live inference, or the template compiler.
//! Reading and running things stays with the caller; this module decides
//! which sources a mode allows and names the cache files.

use vstd::prelude::*;
use crate::text::{append_str, str_eq, to_owned_string};

verus! {

/// Template source preference.
#[derive(Debug, Clone, Copy, PartialEq, Eq, Structural)]
pub enum TemplateMode {
    /// Prefer hand-authored, then inferred.
    Auto,
    /// Use hand-authored templates only.
    Hand,
    /// Use inferred templates only.
    Inferred,
    /// Disable template resolution and use the template compiler only.
    Xml,
}

/// The mode a name stands for, if any.
pub open spec fn mode_named(s: Seq<char>) -> Option<TemplateMode> {
    if s == "auto"@ {
        Some(TemplateMode::Auto)
    } else if s == "hand"@ {
        Some(TemplateMode::Hand)
    } else if s == "inferred"@ {
        Some(TemplateMode::Inferred)
    } else if s == "xml"@ {
        Some(TemplateMode::Xml)
    } else {
        None
    }
}

/// The message for a name that is no mode.
pub open spec fn invalid_mode_message(s: Seq<char>) -> Seq<char> {
    "invalid template mode '"@ + s + "': expected auto|hand|inferred|xml"@
}

impl TemplateMode {
    /// Reads a mode from its name: `auto`, `hand`, `inferred` or `xml`.
    pub fn parse(s: &str) -> (r: Result<TemplateMode, String>)
        ensures
            match mode_named(s@) {
                Some(m) => r == Ok::<TemplateMode, String>(m),
                None => r is Err && r->Err_0@ == invalid_mode_message(s@),
            },
    {
        if str_eq(s, "auto") {
            Ok(TemplateMode::Auto)
        } else if str_eq(s, "hand") {
            Ok(TemplateMode::Hand)
        } else if str_eq(s, "inferred") {
            Ok(TemplateMode::Inferred)
        } else if str_eq(s, "xml") {
            Ok(TemplateMode::Xml)
        } else {
            let msg = append_str(to_owned_string("invalid template mode '"), s);
            Err(append_str(msg, "': expected auto|hand|inferred|xml"))
        }
    }

    /// Whether hand-authored templates are looked for (auto and hand).
    pub fn uses_hand_authored(self) -> (r: bool)
        ensures
            r == (self == TemplateMode::Auto || self == TemplateMode::Hand),
    {
        matches!(self, TemplateMode::Auto | TemplateMode::Hand)
    }

    /// Whether inferred templates are looked for (auto and inferred).
    pub fn uses_inferred(self) -> (r: bool)
        ensures
            r == (self == TemplateMode::Auto || self == TemplateMode::Inferred),
    {
        matches!(self, TemplateMode::Auto | TemplateMode::Inferred)
    }

    /// Whether a template may be inferred live when no cache has one
    /// (auto only: inferred mode reads the cache alone).
    pub fn allows_live_inference(self) -> (r: bool)
        ensures
            r == (self == TemplateMode::Auto),
    {
        matches!(self, TemplateMode::Auto)
    }

    /// Whether template resolution is off (xml).
    pub fn is_xml_only(self) -> (r: bool)
        ensures
            r == (self == TemplateMode::Xml),
    {
        matches!(self, TemplateMode::Xml)
    }
}

impl std::str::FromStr for TemplateMode {
    type Err = String;

    fn from_str(s: &str) -> Result<Self, Self::Err> {
        TemplateMode::parse(s)
    }
}

/// Template section to resolve.
#[derive(Debug, Clone, Copy, PartialEq, Eq, Structural)]
pub enum TemplateSection {
    Bibliography,
    Citation,
}

/// The name of a section.
pub open spec fn section_name(s: TemplateSection) -> Seq<char> {
    match s {
        TemplateSection::Bibliography => "bibliography"@,
        TemplateSection::Citation => "citation"@,
    }
}

/// The cache file names looked at for a section, in order; the second
/// name of the bibliography is the older naming without the section.
pub open spec fn cache_names(s: TemplateSection, style: Seq<char>) -> Seq<Seq<char>> {
    match s {
        TemplateSection::Bibliography => seq![style + ".bibliography.json"@, style + ".json"@],
        TemplateSection::Citation => seq![style + ".citation.json"@],
    }
}

impl TemplateSection {
    /// The name of the section (`section_name`).
    pub fn as_str(self) -> (r: &'static str)
        ensures
            r@ == section_name(self),
    {
        match self {
            TemplateSection::Bibliography => "bibliography",
            TemplateSection::Citation => "citation",
        }
    }

    /// The cache file names looked at for the section, in order
    /// (`cache_names`); the caller joins them to the cache directory.
    pub fn cache_candidates(self, style_name: &str) -> (r: Vec<String>)
        ensures
            r@.len() == cache_names(self, style_name@).len(),
            forall|i: int| 0 <= i < r@.len() ==> #[trigger] r@[i]@ == cache_names(self, style_name@)[i],
    {
        let mut v: Vec<String> = Vec::new();
        match self {
            TemplateSection::Bibliography => {
                v.push(append_str(to_owned_string(style_name), ".bibliography.json"));
                v.push(append_str(to_owned_string(style_name), ".json"));
            },
            TemplateSection::Citation => {
                v.push(append_str(to_owned_string(style_name), ".citation.json"));
            },
        }
        v
    }

    /// The cache file name a live inference is written to:
    /// `{style}.{section}.json`.
    pub fn cache_output_name(self, style_name: &str) -> (r: String)
        ensures
            r@ == style_name@ + "."@ + section_name(self) + ".json"@,
    {
        let s = append_str(to_owned_string(style_name), ".");
        let s = append_str(s, self.as_str());
        append_str(s, ".json")
    }
}

/// How a template was resolved.
#[derive(Debug, Clone)]
pub enum TemplateSource {
    /// From a hand-authored YAML file at the path.
    HandAuthored(String),
    /// From a cached inferred JSON file at the path.
    InferredCached(String),
    /// From live inference (then cached).
    InferredLive,
    /// The template compiler's fallback.
    XmlCompiled,
}

/// The text that describes a source.
pub open spec fn source_text(s: TemplateSource) -> Seq<char> {
    match s {
        TemplateSource::HandAuthored(p) => "hand-authored ("@ + p@ + ")"@,
        TemplateSource::InferredCached(p) => "cached inferred ("@ + p@ + ")"@,
        TemplateSource::InferredLive => "live inferred"@,
        TemplateSource::XmlCompiled => "XML compiled"@,
    }
}

impl TemplateSource {
    /// A text that describes the source (`source_text`).
    pub fn describe(&self) -> (r: String)
        ensures
            r@ == source_text(*self),
    {
        match self {
            TemplateSource::HandAuthored(p) => {
                let s = append_str(to_owned_string("hand-authored ("), p.as_str());
                append_str(s, ")")
            },
            TemplateSource::InferredCached(p) => {
                let s = append_str(to_owned_string("cached inferred ("), p.as_str());
                append_str(s, ")")
            },
            TemplateSource::InferredLive => to_owned_string("live inferred"),
            TemplateSource::XmlCompiled => to_owned_string("XML compiled"),
        }
    }
}

} // verus!
