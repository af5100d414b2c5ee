//! Provenance tracking for variable migration.
//!
//! Tracks the journey of a variable through the compilation pipeline:
//! CSL source, macro expansion, upsampling, compression, compilation.

use vstd::prelude::*;
use crate::text::{append_str, decimal, push_decimal, to_owned_string};
use crate::vecs::copy_pairs;

verus! {

/// A location in the source CSL document.
#[derive(Debug, PartialEq, Eq)]
pub struct SourceLocation {
    pub line: usize,
    pub column: usize,
    /// For example "macro 'label-volume'" or "bibliography layout".
    pub context: String,
}

impl SourceLocation {
    /// A copy with the same contents.
    pub fn copy(&self) -> (r: Self)
        ensures
            r == *self,
    {
        SourceLocation { line: self.line, column: self.column, context: self.context.clone() }
    }
}

/// A transformation event in the pipeline.
#[derive(Debug)]
pub enum TransformationEvent {
    /// Found in a source CSL element.
    SourceElement {
        location: SourceLocation,
        /// "text", "number", "date", etc.
        element_type: String,
        /// The element's attributes, each name at most once.
        attributes: Vec<(String, String)>,
    },
    /// Expanded from a macro.
    MacroExpansion { macro_name: String, source: SourceLocation },
    /// Upsampled to the CSLN representation.
    Upsampled { from_type: String, to_type: String },
    /// Merged with other nodes.
    Merged { with: Vec<SourceLocation>, reason: String },
    /// Placed in the final template.
    TemplatePlacement {
        index: usize,
        /// For example "bibliography.template[4]".
        position: String,
        component_type: String,
    },
    /// A type-specific override was applied.
    TypeOverride { item_type: String, override_reason: String },
}

/// Equality of events by contents.
pub open spec fn same_event(a: TransformationEvent, b: TransformationEvent) -> bool {
    match (a, b) {
        (
            TransformationEvent::SourceElement { location: l1, element_type: t1, attributes: a1 },
            TransformationEvent::SourceElement { location: l2, element_type: t2, attributes: a2 },
        ) => l1 == l2 && t1 == t2 && a1@ == a2@,
        (
            TransformationEvent::MacroExpansion { macro_name: m1, source: s1 },
            TransformationEvent::MacroExpansion { macro_name: m2, source: s2 },
        ) => m1 == m2 && s1 == s2,
        (
            TransformationEvent::Upsampled { from_type: f1, to_type: t1 },
            TransformationEvent::Upsampled { from_type: f2, to_type: t2 },
        ) => f1 == f2 && t1 == t2,
        (
            TransformationEvent::Merged { with: w1, reason: r1 },
            TransformationEvent::Merged { with: w2, reason: r2 },
        ) => w1@ == w2@ && r1 == r2,
        (
            TransformationEvent::TemplatePlacement { index: i1, position: p1, component_type: c1 },
            TransformationEvent::TemplatePlacement { index: i2, position: p2, component_type: c2 },
        ) => i1 == i2 && p1 == p2 && c1 == c2,
        (
            TransformationEvent::TypeOverride { item_type: t1, override_reason: r1 },
            TransformationEvent::TypeOverride { item_type: t2, override_reason: r2 },
        ) => t1 == t2 && r1 == r2,
        _ => false,
    }
}

fn copy_locations(v: &Vec<SourceLocation>) -> (r: Vec<SourceLocation>)
    ensures
        r@ == v@,
{
    let mut out: Vec<SourceLocation> = Vec::new();
    let mut i: usize = 0;
    while i < v.len()
        invariant
            i <= v@.len(),
            out@ =~= v@.subrange(0, i as int),
        decreases v@.len() - i,
    {
        out.push(v[i].copy());
        i = i + 1;
    }
    assert(out@ =~= v@);
    out
}

impl TransformationEvent {
    /// A copy with the same contents.
    pub fn copy(&self) -> (r: Self)
        ensures
            same_event(r, *self),
    {
        match self {
            TransformationEvent::SourceElement { location, element_type, attributes } => {
                TransformationEvent::SourceElement {
                    location: location.copy(),
                    element_type: element_type.clone(),
                    attributes: copy_pairs(attributes),
                }
            },
            TransformationEvent::MacroExpansion { macro_name, source } => {
                TransformationEvent::MacroExpansion { macro_name: macro_name.clone(), source: source.copy() }
            },
            TransformationEvent::Upsampled { from_type, to_type } => {
                TransformationEvent::Upsampled { from_type: from_type.clone(), to_type: to_type.clone() }
            },
            TransformationEvent::Merged { with, reason } => {
                TransformationEvent::Merged { with: copy_locations(with), reason: reason.clone() }
            },
            TransformationEvent::TemplatePlacement { index, position, component_type } => {
                TransformationEvent::TemplatePlacement {
                    index: *index,
                    position: position.clone(),
                    component_type: component_type.clone(),
                }
            },
            TransformationEvent::TypeOverride { item_type, override_reason } => {
                TransformationEvent::TypeOverride {
                    item_type: item_type.clone(),
                    override_reason: override_reason.clone(),
                }
            },
        }
    }
}

/// The text of a source location: "line L, column C (context)".
pub open spec fn location_text(l: SourceLocation) -> Seq<char> {
    "line "@ + decimal(l.line as nat) + ", column "@ + decimal(l.column as nat) + " ("@ + l.context@ + ")"@
}

/// The text of an event, one line without its end.
pub open spec fn event_text(e: TransformationEvent) -> Seq<char> {
    match e {
        TransformationEvent::SourceElement { location, element_type, .. } => element_type@
            + " element at "@ + location_text(location),
        TransformationEvent::MacroExpansion { macro_name, source } => "Expanded from macro '"@
            + macro_name@ + "' at "@ + location_text(source),
        TransformationEvent::Upsampled { from_type, to_type } => "Upsampled from "@ + from_type@ + " to "@
            + to_type@,
        TransformationEvent::Merged { with, reason } => "Merged ("@ + reason@ + ") with "@ + decimal(
            with@.len(),
        ) + " location(s)"@,
        TransformationEvent::TemplatePlacement { index, position, component_type } => component_type@
            + " component at index "@ + decimal(index as nat) + " in "@ + position@,
        TransformationEvent::TypeOverride { item_type, override_reason } => "Type override for "@
            + item_type@ + ": "@ + override_reason@,
    }
}

/// Appends the text of a source location to `s`.
pub fn push_location(s: String, l: &SourceLocation) -> (r: String)
    ensures
        r@ == s@ + location_text(*l),
{
    let ghost s0 = s@;
    let mut s = append_str(s, "line ");
    push_decimal(&mut s, l.line);
    let mut s = append_str(s, ", column ");
    push_decimal(&mut s, l.column);
    let s = append_str(s, " (");
    let s = append_str(s, l.context.as_str());
    let r = append_str(s, ")");
    assert(r@ =~= s0 + location_text(*l));
    r
}

impl TransformationEvent {
    /// Appends the text of this event to `s`.
    pub fn push_text(&self, s: String) -> (r: String)
        ensures
            r@ == s@ + event_text(*self),
    {
        let ghost s0 = s@;
        let r = match self {
            TransformationEvent::SourceElement { location, element_type, .. } => {
                let s = append_str(s, element_type.as_str());
                let s = append_str(s, " element at ");
                push_location(s, location)
            },
            TransformationEvent::MacroExpansion { macro_name, source } => {
                let s = append_str(s, "Expanded from macro '");
                let s = append_str(s, macro_name.as_str());
                let s = append_str(s, "' at ");
                push_location(s, source)
            },
            TransformationEvent::Upsampled { from_type, to_type } => {
                let s = append_str(s, "Upsampled from ");
                let s = append_str(s, from_type.as_str());
                let s = append_str(s, " to ");
                append_str(s, to_type.as_str())
            },
            TransformationEvent::Merged { with, reason } => {
                let s = append_str(s, "Merged (");
                let s = append_str(s, reason.as_str());
                let mut s = append_str(s, ") with ");
                push_decimal(&mut s, with.len());
                append_str(s, " location(s)")
            },
            TransformationEvent::TemplatePlacement { index, position, component_type } => {
                let s = append_str(s, component_type.as_str());
                let mut s = append_str(s, " component at index ");
                push_decimal(&mut s, *index);
                let s = append_str(s, " in ");
                append_str(s, position.as_str())
            },
            TransformationEvent::TypeOverride { item_type, override_reason } => {
                let s = append_str(s, "Type override for ");
                let s = append_str(s, item_type.as_str());
                let s = append_str(s, ": ");
                append_str(s, override_reason.as_str())
            },
        };
        assert(r@ =~= s0 + event_text(*self));
        r
    }
}

/// The provenance of a single variable: its name and its events in order.
#[derive(Debug)]
pub struct VariableProvenance {
    pub variable_name: String,
    pub events: Vec<TransformationEvent>,
}

/// Equality of event sequences by contents.
pub open spec fn same_events(a: Seq<TransformationEvent>, b: Seq<TransformationEvent>) -> bool {
    a.len() == b.len() && forall|i: int| 0 <= i < a.len() ==> same_event(#[trigger] a[i], b[i])
}

impl VariableProvenance {
    /// A copy with the same contents.
    pub fn copy(&self) -> (r: Self)
        ensures
            r.variable_name == self.variable_name,
            same_events(r.events@, self.events@),
    {
        let mut events: Vec<TransformationEvent> = Vec::new();
        let mut i: usize = 0;
        while i < self.events.len()
            invariant
                i <= self.events@.len(),
                events@.len() == i,
                forall|k: int| 0 <= k < i ==> same_event(#[trigger] events@[k], self.events@[k]),
            decreases self.events@.len() - i,
        {
            events.push(self.events[i].copy());
            i = i + 1;
        }
        VariableProvenance { variable_name: self.variable_name.clone(), events }
    }
}

/// Index of the record of the variable named `name`, or -1.
pub open spec fn record_index(vars: Seq<VariableProvenance>, name: Seq<char>) -> int
    decreases vars.len(),
{
    if vars.len() == 0 {
        -1
    } else {
        let j = record_index(vars.drop_last(), name);
        if j >= 0 {
            j
        } else if vars.last().variable_name@ == name {
            vars.len() - 1
        } else {
            -1
        }
    }
}

proof fn lemma_record_index(vars: Seq<VariableProvenance>, name: Seq<char>)
    ensures
        -1 <= record_index(vars, name) < vars.len(),
        record_index(vars, name) >= 0 ==> vars[record_index(vars, name)].variable_name@ == name,
        record_index(vars, name) >= 0 ==> forall|i: int|
            0 <= i < record_index(vars, name) ==> vars[i].variable_name@ != name,
        record_index(vars, name) == -1 ==> forall|i: int| 0 <= i < vars.len() ==> vars[i].variable_name@ != name,
    decreases vars.len(),
{
    if vars.len() > 0 {
        lemma_record_index(vars.drop_last(), name);
        assert forall|i: int| 0 <= i < vars.len() - 1 implies vars.drop_last()[i] == vars[i] by {}
    }
}

/// Whether `new` is `old` with one event appended to the record of `name`,
/// the record created last when `name` had none; the last event of that
/// record is then `e`.
pub open spec fn appended_event(
    old_vars: Seq<VariableProvenance>,
    new_vars: Seq<VariableProvenance>,
    name: Seq<char>,
    e: TransformationEvent,
) -> bool {
    let j = record_index(old_vars, name);
    if j >= 0 {
        &&& new_vars.len() == old_vars.len()
        &&& forall|k: int| 0 <= k < old_vars.len() && k != j ==> #[trigger] new_vars[k] == old_vars[k]
        &&& new_vars[j].variable_name == old_vars[j].variable_name
        &&& new_vars[j].events@ == old_vars[j].events@.push(e)
    } else {
        &&& new_vars.len() == old_vars.len() + 1
        &&& new_vars.drop_last() == old_vars
        &&& new_vars.last().variable_name@ == name
        &&& new_vars.last().events@ == seq![e]
    }
}

/// Whether no two records share a variable name.
pub open spec fn names_unique(vars: Seq<VariableProvenance>) -> bool {
    forall|i: int, j: int|
        0 <= i < j < vars.len() ==> #[trigger] vars[i].variable_name@ != #[trigger] vars[j].variable_name@
}

/// Tracks the provenance of variables: one record per variable name, in the
/// order the names were first recorded. A disabled tracker records nothing.
pub struct ProvenanceTracker {
    variables: Vec<VariableProvenance>,
    enabled: bool,
}

impl ProvenanceTracker {
    /// The records, in the order their variables were first recorded.
    pub closed spec fn records(&self) -> Seq<VariableProvenance> {
        self.variables@
    }

    /// Whether the tracker records events.
    pub closed spec fn is_enabled(&self) -> bool {
        self.enabled
    }

    /// Whether no two records share a variable name, and a disabled
    /// tracker holds no record.
    pub closed spec fn wf(&self) -> bool {
        &&& names_unique(self.variables@)
        &&& !self.enabled ==> self.variables@.len() == 0
    }

    /// A tracker with no records, enabled or not.
    pub fn new(enabled: bool) -> (r: Self)
        ensures
            r.wf(),
            r.records().len() == 0,
            r.is_enabled() == enabled,
    {
        ProvenanceTracker { variables: Vec::new(), enabled }
    }

    fn record(&mut self, var_name: &str, event: TransformationEvent)
        requires
            old(self).wf(),
        ensures
            final(self).wf(),
            final(self).is_enabled() == old(self).is_enabled(),
            old(self).is_enabled() ==> appended_event(old(self).records(), final(self).records(), var_name@, event),
            !old(self).is_enabled() ==> final(self).records() == old(self).records(),
    {
        if !self.enabled {
            return;
        }
        proof {
            lemma_record_index(self.variables@, var_name@);
        }
        let ghost old_vars = self.variables@;
        let mut i: usize = 0;
        while i < self.variables.len()
            invariant
                self.variables@ == old_vars,
                self.enabled,
                old(self).enabled,
                old_vars == old(self).variables@,
                names_unique(old_vars),
                i <= old_vars.len(),
                forall|k: int| 0 <= k < i ==> old_vars[k].variable_name@ != var_name@,
            decreases old_vars.len() - i,
        {
            if crate::text::str_eq(self.variables[i].variable_name.as_str(), var_name) {
                proof {
                    lemma_record_index(old_vars, var_name@);
                    assert(record_index(old_vars, var_name@) == i);
                }
                let mut rec = self.variables.remove(i);
                rec.events.push(event);
                self.variables.insert(i, rec);
                proof {
                    let nv = self.variables@;
                    assert forall|k: int| 0 <= k < old_vars.len() && k != i implies #[trigger] nv[k]
                        == old_vars[k] by {}
                    assert forall|a: int, b: int| 0 <= a < b < nv.len() implies #[trigger] nv[a].variable_name@
                        != #[trigger] nv[b].variable_name@ by {
                        assert(nv[a].variable_name == old_vars[a].variable_name);
                        assert(nv[b].variable_name == old_vars[b].variable_name);
                    }
                }
                return;
            }
            i = i + 1;
        }
        let mut events: Vec<TransformationEvent> = Vec::new();
        events.push(event);
        self.variables.push(VariableProvenance { variable_name: to_owned_string(var_name), events });
        proof {
            let nv = self.variables@;
            assert(nv.drop_last() =~= old_vars);
            assert(events@ =~= seq![event]);
            assert forall|a: int, b: int| 0 <= a < b < nv.len() implies #[trigger] nv[a].variable_name@
                != #[trigger] nv[b].variable_name@ by {
                if b == nv.len() - 1 {
                    assert(nv[a] == old_vars[a]);
                } else {
                    assert(nv[a] == old_vars[a] && nv[b] == old_vars[b]);
                }
            }
        }
    }

    /// Records that `var_name` was found in a source element.
    pub fn record_source_element(
        &mut self,
        var_name: &str,
        location: SourceLocation,
        element_type: &str,
        attributes: Vec<(String, String)>,
    )
        requires
            old(self).wf(),
        ensures
            final(self).wf(),
            final(self).is_enabled() == old(self).is_enabled(),
            old(self).is_enabled() ==> exists|t: String|
                t@ == element_type@ && appended_event(
                    old(self).records(),
                    final(self).records(),
                    var_name@,
                    TransformationEvent::SourceElement { location, element_type: t, attributes },
                ),
            !old(self).is_enabled() ==> final(self).records() == old(self).records(),
    {
        let t = to_owned_string(element_type);
        self.record(var_name, TransformationEvent::SourceElement { location, element_type: t, attributes });
    }

    /// Records that `var_name` was expanded from the macro `macro_name`.
    pub fn record_macro_expansion(&mut self, var_name: &str, macro_name: &str, source: SourceLocation)
        requires
            old(self).wf(),
        ensures
            final(self).wf(),
            final(self).is_enabled() == old(self).is_enabled(),
            old(self).is_enabled() ==> exists|m: String|
                m@ == macro_name@ && appended_event(
                    old(self).records(),
                    final(self).records(),
                    var_name@,
                    TransformationEvent::MacroExpansion { macro_name: m, source },
                ),
            !old(self).is_enabled() ==> final(self).records() == old(self).records(),
    {
        let m = to_owned_string(macro_name);
        self.record(var_name, TransformationEvent::MacroExpansion { macro_name: m, source });
    }

    /// Records that `var_name` was upsampled from one node type to another.
    pub fn record_upsampling(&mut self, var_name: &str, from_type: &str, to_type: &str)
        requires
            old(self).wf(),
        ensures
            final(self).wf(),
            final(self).is_enabled() == old(self).is_enabled(),
            old(self).is_enabled() ==> exists|f: String, t: String|
                f@ == from_type@ && t@ == to_type@ && appended_event(
                    old(self).records(),
                    final(self).records(),
                    var_name@,
                    TransformationEvent::Upsampled { from_type: f, to_type: t },
                ),
            !old(self).is_enabled() ==> final(self).records() == old(self).records(),
    {
        let f = to_owned_string(from_type);
        let t = to_owned_string(to_type);
        self.record(var_name, TransformationEvent::Upsampled { from_type: f, to_type: t });
    }

    /// Records that `var_name` was merged with nodes at other locations.
    pub fn record_merge(&mut self, var_name: &str, with_locations: Vec<SourceLocation>, reason: &str)
        requires
            old(self).wf(),
        ensures
            final(self).wf(),
            final(self).is_enabled() == old(self).is_enabled(),
            old(self).is_enabled() ==> exists|r: String|
                r@ == reason@ && appended_event(
                    old(self).records(),
                    final(self).records(),
                    var_name@,
                    TransformationEvent::Merged { with: with_locations, reason: r },
                ),
            !old(self).is_enabled() ==> final(self).records() == old(self).records(),
    {
        let r = to_owned_string(reason);
        self.record(var_name, TransformationEvent::Merged { with: with_locations, reason: r });
    }

    /// Records that `var_name` was placed in a template.
    pub fn record_template_placement(
        &mut self,
        var_name: &str,
        index: usize,
        position: &str,
        component_type: &str,
    )
        requires
            old(self).wf(),
        ensures
            final(self).wf(),
            final(self).is_enabled() == old(self).is_enabled(),
            old(self).is_enabled() ==> exists|p: String, c: String|
                p@ == position@ && c@ == component_type@ && appended_event(
                    old(self).records(),
                    final(self).records(),
                    var_name@,
                    TransformationEvent::TemplatePlacement { index, position: p, component_type: c },
                ),
            !old(self).is_enabled() ==> final(self).records() == old(self).records(),
    {
        let p = to_owned_string(position);
        let c = to_owned_string(component_type);
        self.record(var_name, TransformationEvent::TemplatePlacement { index, position: p, component_type: c });
    }

    /// Records that a type-specific override was applied to `var_name`.
    pub fn record_type_override(&mut self, var_name: &str, item_type: &str, reason: &str)
        requires
            old(self).wf(),
        ensures
            final(self).wf(),
            final(self).is_enabled() == old(self).is_enabled(),
            old(self).is_enabled() ==> exists|t: String, r: String|
                t@ == item_type@ && r@ == reason@ && appended_event(
                    old(self).records(),
                    final(self).records(),
                    var_name@,
                    TransformationEvent::TypeOverride { item_type: t, override_reason: r },
                ),
            !old(self).is_enabled() ==> final(self).records() == old(self).records(),
    {
        let t = to_owned_string(item_type);
        let r = to_owned_string(reason);
        self.record(var_name, TransformationEvent::TypeOverride { item_type: t, override_reason: r });
    }

    /// A copy of the record of `var_name`; `None` when the tracker is
    /// disabled or has no record of it.
    pub fn get_provenance(&self, var_name: &str) -> (r: Option<VariableProvenance>)
        ensures
            !self.is_enabled() || record_index(self.records(), var_name@) < 0 ==> r is None,
            self.is_enabled() && record_index(self.records(), var_name@) >= 0 ==> r is Some && {
                let p = self.records()[record_index(self.records(), var_name@)];
                &&& r.unwrap().variable_name == p.variable_name
                &&& same_events(r.unwrap().events@, p.events@)
            },
    {
        if !self.enabled {
            return None;
        }
        proof {
            lemma_record_index(self.variables@, var_name@);
        }
        let mut i: usize = 0;
        while i < self.variables.len()
            invariant
                self.enabled,
                i <= self.variables@.len(),
                forall|k: int| 0 <= k < i ==> self.variables@[k].variable_name@ != var_name@,
            decreases self.variables@.len() - i,
        {
            if crate::text::str_eq(self.variables[i].variable_name.as_str(), var_name) {
                proof {
                    lemma_record_index(self.variables@, var_name@);
                    assert(record_index(self.variables@, var_name@) == i);
                }
                return Some(self.variables[i].copy());
            }
            i = i + 1;
        }
        None
    }

    /// The record of `var_name`; `None` when the tracker is disabled or has
    /// no record of it.
    pub(crate) fn provenance_ref(&self, var_name: &str) -> (r: Option<&VariableProvenance>)
        ensures
            !self.is_enabled() || record_index(self.records(), var_name@) < 0 ==> r is None,
            self.is_enabled() && record_index(self.records(), var_name@) >= 0 ==> r is Some
                && *r.unwrap() == self.records()[record_index(self.records(), var_name@)],
    {
        if !self.enabled {
            return None;
        }
        let mut i: usize = 0;
        while i < self.variables.len()
            invariant
                self.enabled,
                i <= self.variables@.len(),
                forall|k: int| 0 <= k < i ==> self.variables@[k].variable_name@ != var_name@,
            decreases self.variables@.len() - i,
        {
            if crate::text::str_eq(self.variables[i].variable_name.as_str(), var_name) {
                proof {
                    lemma_record_index(self.variables@, var_name@);
                    assert(record_index(self.variables@, var_name@) == i);
                }
                return Some(&self.variables[i]);
            }
            i = i + 1;
        }
        proof {
            lemma_record_index(self.variables@, var_name@);
        }
        None
    }

    /// The names of all recorded variables, in the order they were first
    /// recorded.
    pub fn get_all_variables(&self) -> (r: Vec<String>)
        ensures
            r@.len() == self.records().len(),
            forall|i: int| 0 <= i < r@.len() ==> #[trigger] r@[i] == self.records()[i].variable_name,
            self.wf() ==> forall|i: int, j: int| 0 <= i < j < r@.len() ==> #[trigger] r@[i]@ != #[trigger] r@[j]@,
            self.wf() && !self.is_enabled() ==> r@.len() == 0,
    {
        let mut out: Vec<String> = Vec::new();
        let mut i: usize = 0;
        while i < self.variables.len()
            invariant
                i <= self.variables@.len(),
                out@.len() == i,
                forall|k: int| 0 <= k < i ==> #[trigger] out@[k] == self.variables@[k].variable_name,
            decreases self.variables@.len() - i,
        {
            out.push(self.variables[i].variable_name.clone());
            i = i + 1;
        }
        proof {
            if self.wf() {
                assert forall|a: int, b: int| 0 <= a < b < out@.len() implies #[trigger] out@[a]@ != #[trigger] out@[b]@ by {
                    assert(out@[a] == self.variables@[a].variable_name);
                    assert(out@[b] == self.variables@[b].variable_name);
                }
            }
        }
        out
    }
}

/// Recording an event makes it the last event of the variable's record:
/// a lookup of the variable then finds the record, ending with that event.
pub proof fn law_recorded_event_found(
    old_vars: Seq<VariableProvenance>,
    new_vars: Seq<VariableProvenance>,
    name: Seq<char>,
    e: TransformationEvent,
)
    requires
        appended_event(old_vars, new_vars, name, e),
    ensures
        record_index(new_vars, name) >= 0,
        new_vars[record_index(new_vars, name)].events@.len() > 0,
        new_vars[record_index(new_vars, name)].events@.last() == e,
{
    lemma_record_index(old_vars, name);
    lemma_record_index(new_vars, name);
    let j = record_index(old_vars, name);
    if j >= 0 {
        assert(new_vars[j].variable_name@ == name);
        assert forall|i: int| 0 <= i < j implies new_vars[i].variable_name@ != name by {
            assert(new_vars[i] == old_vars[i]);
        }
        assert(record_index(new_vars, name) == j);
    } else {
        assert(new_vars.drop_last() == old_vars);
        assert(record_index(new_vars.drop_last(), name) == -1);
    }
}


/// Recording an event for `name` leaves the record of every other variable
/// as it was: a lookup of another name finds the same record (or none, as
/// before).
pub proof fn law_other_records_unchanged(
    old_vars: Seq<VariableProvenance>,
    new_vars: Seq<VariableProvenance>,
    name: Seq<char>,
    e: TransformationEvent,
    other: Seq<char>,
)
    requires
        appended_event(old_vars, new_vars, name, e),
        other != name,
    ensures
        record_index(new_vars, other) == record_index(old_vars, other),
        record_index(old_vars, other) >= 0 ==> new_vars[record_index(new_vars, other)]
            == old_vars[record_index(old_vars, other)],
{
    lemma_record_index(old_vars, name);
    lemma_record_index(old_vars, other);
    lemma_record_index(new_vars, other);
    let j = record_index(old_vars, name);
    let k = record_index(old_vars, other);
    let kn = record_index(new_vars, other);
    if j >= 0 {
        assert(new_vars[j].variable_name@ == name);
        if k >= 0 {
            assert(k != j);
            assert(new_vars[k] == old_vars[k]);
            assert forall|i: int| 0 <= i < k implies new_vars[i].variable_name@ != other by {
                if i != j {
                    assert(new_vars[i] == old_vars[i]);
                }
            }
            if kn != k {
                if kn < k {
                    if kn != j {
                        assert(new_vars[kn] == old_vars[kn]);
                    }
                }
            }
        } else {
            if kn >= 0 {
                if kn != j {
                    assert(new_vars[kn] == old_vars[kn]);
                }
            }
        }
    } else {
        assert(new_vars.drop_last() == old_vars);
        assert(new_vars.last().variable_name@ == name);
        assert forall|i: int| 0 <= i < old_vars.len() implies new_vars[i] == old_vars[i] by {
            assert(new_vars.drop_last()[i] == new_vars[i]);
        }
        if kn >= 0 {
            assert(kn < old_vars.len()) by {
                if kn == old_vars.len() {
                    assert(new_vars[kn] == new_vars.last());
                }
            }
        }
    }
}

/// Recording an event for `name` gives its record the events it had (none
/// for a new record) followed by that event, earlier events in their order.
pub proof fn law_recorded_events_appended(
    old_vars: Seq<VariableProvenance>,
    new_vars: Seq<VariableProvenance>,
    name: Seq<char>,
    e: TransformationEvent,
)
    requires
        appended_event(old_vars, new_vars, name, e),
    ensures
        record_index(new_vars, name) >= 0,
        new_vars[record_index(new_vars, name)].variable_name@ == name,
        new_vars[record_index(new_vars, name)].events@ == (if record_index(old_vars, name) >= 0 {
            old_vars[record_index(old_vars, name)].events@
        } else {
            Seq::empty()
        }).push(e),
{
    law_recorded_event_found(old_vars, new_vars, name, e);
    lemma_record_index(old_vars, name);
    lemma_record_index(new_vars, name);
    let j = record_index(old_vars, name);
    if j >= 0 {
        assert forall|i: int| 0 <= i < j implies new_vars[i].variable_name@ != name by {
            assert(new_vars[i] == old_vars[i]);
        }
        assert(new_vars[j].variable_name@ == name);
        assert(record_index(new_vars, name) == j);
    } else {
        assert(new_vars.drop_last() == old_vars);
        assert(record_index(new_vars.drop_last(), name) == -1);
        assert(seq![e] =~= Seq::<TransformationEvent>::empty().push(e));
    }
}


/// Whether some record of `vars` is for the variable `n`.
pub open spec fn has_record(vars: Seq<VariableProvenance>, n: Seq<char>) -> bool {
    exists|i: int| 0 <= i < vars.len() && #[trigger] vars[i].variable_name@ == n
}

/// Recording one event keeps names unique and adds `name` to the names.
proof fn lemma_record_step(
    old_vars: Seq<VariableProvenance>,
    new_vars: Seq<VariableProvenance>,
    name: Seq<char>,
    e: TransformationEvent,
)
    requires
        appended_event(old_vars, new_vars, name, e),
        names_unique(old_vars),
    ensures
        names_unique(new_vars),
        forall|n: Seq<char>| has_record(new_vars, n) <==> (has_record(old_vars, n) || n == name),
{
    lemma_record_index(old_vars, name);
    let j = record_index(old_vars, name);
    if j >= 0 {
        assert forall|a: int, b: int| 0 <= a < b < new_vars.len() implies #[trigger] new_vars[a].variable_name@
            != #[trigger] new_vars[b].variable_name@ by {
            assert(new_vars[a].variable_name == old_vars[a].variable_name);
            assert(new_vars[b].variable_name == old_vars[b].variable_name);
        }
        assert forall|n: Seq<char>| has_record(new_vars, n) <==> (has_record(old_vars, n) || n == name) by {
            if has_record(new_vars, n) {
                let i = choose|i: int| 0 <= i < new_vars.len() && #[trigger] new_vars[i].variable_name@ == n;
                assert(new_vars[i].variable_name == old_vars[i].variable_name);
            }
            if has_record(old_vars, n) {
                let i = choose|i: int| 0 <= i < old_vars.len() && #[trigger] old_vars[i].variable_name@ == n;
                assert(new_vars[i].variable_name == old_vars[i].variable_name);
            }
            if n == name {
                assert(new_vars[j].variable_name@ == name);
            }
        }
    } else {
        assert forall|i: int| 0 <= i < old_vars.len() implies new_vars[i] == old_vars[i] by {
            assert(new_vars.drop_last()[i] == new_vars[i]);
        }
        assert(new_vars[new_vars.len() - 1] == new_vars.last());
        assert forall|a: int, b: int| 0 <= a < b < new_vars.len() implies #[trigger] new_vars[a].variable_name@
            != #[trigger] new_vars[b].variable_name@ by {
            if b == new_vars.len() - 1 {
                assert(new_vars[a] == old_vars[a]);
            } else {
                assert(new_vars[a] == old_vars[a] && new_vars[b] == old_vars[b]);
            }
        }
        assert forall|n: Seq<char>| has_record(new_vars, n) <==> (has_record(old_vars, n) || n == name) by {
            if has_record(new_vars, n) {
                let i = choose|i: int| 0 <= i < new_vars.len() && #[trigger] new_vars[i].variable_name@ == n;
                if i < old_vars.len() {
                    assert(new_vars[i] == old_vars[i]);
                }
            }
            if has_record(old_vars, n) {
                let i = choose|i: int| 0 <= i < old_vars.len() && #[trigger] old_vars[i].variable_name@ == n;
                assert(new_vars[i] == old_vars[i]);
            }
            if n == name {
                assert(new_vars[new_vars.len() - 1].variable_name@ == name);
            }
        }
    }
}

/// Whether `states` is a run of recordings: each state is the one before
/// with one event recorded for `names[k]`.
pub open spec fn recording_run(states: Seq<Seq<VariableProvenance>>, names: Seq<Seq<char>>) -> bool {
    &&& states.len() == names.len() + 1
    &&& forall|k: int| 0 <= k < names.len() ==> #[trigger] step_recorded(states, names, k)
}

/// Whether step `k` of a run records some event for `names[k]`.
pub open spec fn step_recorded(states: Seq<Seq<VariableProvenance>>, names: Seq<Seq<char>>, k: int) -> bool {
    exists|e: TransformationEvent| #[trigger] appended_event(states[k], states[k + 1], names[k], e)
}

/// After a run of recordings from a fresh tracker, the tracker lists each
/// recorded name exactly once and no other, and a lookup of a listed name
/// finds its record.
pub proof fn law_recording_run_names(states: Seq<Seq<VariableProvenance>>, names: Seq<Seq<char>>)
    requires
        recording_run(states, names),
        states[0].len() == 0,
    ensures
        names_unique(states.last()),
        forall|n: Seq<char>| has_record(states.last(), n) <==> names.contains(n),
        forall|i: int|
            0 <= i < states.last().len() ==> record_index(states.last(), #[trigger] states.last()[i].variable_name@) == i,
    decreases names.len(),
{
    if names.len() == 0 {
        assert forall|n: Seq<char>| has_record(states.last(), n) <==> names.contains(n) by {}
    } else {
        let k = names.len() - 1;
        let ps = states.drop_last();
        let pn = names.drop_last();
        assert forall|m: int| 0 <= m < pn.len() implies #[trigger] step_recorded(ps, pn, m) by {
            assert(ps[m] == states[m] && ps[m + 1] == states[m + 1] && pn[m] == names[m]);
            assert(step_recorded(states, names, m));
        }
        law_recording_run_names(ps, pn);
        assert(ps.last() == states[k]);
        assert(step_recorded(states, names, k));
        let e = choose|e: TransformationEvent| #[trigger] appended_event(states[k], states[k + 1], names[k], e);
        lemma_record_step(states[k], states[k + 1], names[k], e);
        assert(states.last() == states[k + 1]);
        assert forall|n: Seq<char>| has_record(states.last(), n) <==> names.contains(n) by {
            if names.contains(n) {
                let m = choose|m: int| 0 <= m < names.len() && names[m] == n;
                if m < k {
                    assert(pn[m] == n);
                }
            }
            if pn.contains(n) {
                let m = choose|m: int| 0 <= m < pn.len() && pn[m] == n;
                assert(names[m] == n);
            }
        }
    }
    let last = states.last();
    assert forall|i: int| 0 <= i < last.len() implies record_index(last, #[trigger] last[i].variable_name@) == i by {
        lemma_record_index(last, last[i].variable_name@);
    }
}

} // verus!
