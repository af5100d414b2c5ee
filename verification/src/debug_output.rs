//! Formats provenance debug output for display.

use vstd::prelude::*;
use crate::provenance::{event_text, record_index, ProvenanceTracker, TransformationEvent, VariableProvenance};
use crate::sorting::{
    lemma_lex_le_antisym, lemma_lex_le_refl, lemma_lex_le_total, lemma_lex_le_trans, lex_le, sort_strings,
    views,
};
use vstd::relations::{sorted_by, total_ordering};
use vstd::seq_lib::lemma_sorted_unique;
use crate::text::{append_str, decimal, push_decimal, to_owned_string};

verus! {

/// Number of source-element events in `s`.
pub open spec fn source_count(s: Seq<TransformationEvent>) -> nat
    decreases s.len(),
{
    if s.len() == 0 {
        0
    } else {
        source_count(s.drop_last()) + if s.last() is SourceElement { 1nat } else { 0nat }
    }
}

/// Number of template-placement events in `s`.
pub open spec fn placement_count(s: Seq<TransformationEvent>) -> nat
    decreases s.len(),
{
    if s.len() == 0 {
        0
    } else {
        placement_count(s.drop_last()) + if s.last() is TemplatePlacement { 1nat } else { 0nat }
    }
}

/// Whether an event is a transformation: neither a source element nor a
/// template placement.
pub open spec fn is_transformation(e: TransformationEvent) -> bool {
    !(e is SourceElement) && !(e is TemplatePlacement)
}

/// Number of transformation events in `s`.
pub open spec fn transformation_count(s: Seq<TransformationEvent>) -> nat
    decreases s.len(),
{
    if s.len() == 0 {
        0
    } else {
        transformation_count(s.drop_last()) + if is_transformation(s.last()) { 1nat } else { 0nat }
    }
}

/// The numbered lines of the source-element events of `s`.
pub open spec fn source_lines(s: Seq<TransformationEvent>) -> Seq<char>
    decreases s.len(),
{
    if s.len() == 0 {
        Seq::empty()
    } else if s.last() is SourceElement {
        source_lines(s.drop_last()) + "  "@ + decimal(source_count(s.drop_last()) + 1) + ". "@ + event_text(
            s.last(),
        ) + "\n"@
    } else {
        source_lines(s.drop_last())
    }
}

/// The bulleted lines of the transformation events of `s`.
pub open spec fn transformation_lines(s: Seq<TransformationEvent>) -> Seq<char>
    decreases s.len(),
{
    if s.len() == 0 {
        Seq::empty()
    } else if is_transformation(s.last()) {
        transformation_lines(s.drop_last()) + "  - "@ + event_text(s.last()) + "\n"@
    } else {
        transformation_lines(s.drop_last())
    }
}

/// The bulleted lines of the template-placement events of `s`.
pub open spec fn placement_lines(s: Seq<TransformationEvent>) -> Seq<char>
    decreases s.len(),
{
    if s.len() == 0 {
        Seq::empty()
    } else if s.last() is TemplatePlacement {
        placement_lines(s.drop_last()) + "  - "@ + event_text(s.last()) + "\n"@
    } else {
        placement_lines(s.drop_last())
    }
}

/// The report on one variable from its parts: name, event lines by kind,
/// number of events and counts by kind. Each section appears only when it has
/// events, and the summary follows the placements.
pub open spec fn report_parts(
    name: Seq<char>,
    sl: Seq<char>,
    tl: Seq<char>,
    pl: Seq<char>,
    total: nat,
    cs: nat,
    ct: nat,
    cp: nat,
) -> Seq<char> {
    "Variable: "@ + name + "\n"@ + "\n"@ + (if cs > 0 {
        "Source CSL nodes:\n"@ + sl + "\n"@
    } else {
        Seq::empty()
    }) + (if ct > 0 {
        "Transformations:\n"@ + tl + "\n"@
    } else {
        Seq::empty()
    }) + (if cp > 0 {
        "Compiled to:\n"@ + pl + "\nSummary:\n"@ + "  Total transformations: "@ + decimal(total) + "\n"@
            + "  Source nodes found: "@ + decimal(cs) + "\n"@ + "  Template placements: "@ + decimal(cp) + "\n"@
    } else {
        Seq::empty()
    })
}

/// The report on one variable with the given events: its name, then the
/// source nodes, the transformations and the template placements, each
/// section only when it has events, and a summary after the placements.
pub open spec fn variable_report(name: Seq<char>, events: Seq<TransformationEvent>) -> Seq<char> {
    report_parts(
        name,
        source_lines(events),
        transformation_lines(events),
        placement_lines(events),
        events.len(),
        source_count(events),
        transformation_count(events),
        placement_count(events),
    )
}

/// The numbered lines of `names`.
pub open spec fn numbered_names(names: Seq<Seq<char>>) -> Seq<char>
    decreases names.len(),
{
    if names.len() == 0 {
        Seq::empty()
    } else {
        numbered_names(names.drop_last()) + "  "@ + decimal(names.len()) + ". "@ + names.last() + "\n"@
    }
}

/// The list of available variables, given their names in order.
pub open spec fn available_text(names: Seq<Seq<char>>) -> Seq<char> {
    if names.len() == 0 {
        "  (none tracked)\n"@
    } else {
        numbered_names(names)
    }
}

/// Whether `s` is in lexicographic order.
pub open spec fn lex_sorted(s: Seq<Seq<char>>) -> bool {
    forall|i: int, j: int| 0 <= i < j < s.len() ==> lex_le(#[trigger] s[i], #[trigger] s[j])
}

/// The names of the records of a tracker, in record order.
pub open spec fn record_names(t: ProvenanceTracker) -> Seq<Seq<char>> {
    t.records().map_values(|p: VariableProvenance| p.variable_name@)
}

/// Whether `s` holds the names of the records of `t`, sorted.
pub open spec fn sorted_names_of(t: ProvenanceTracker, s: Seq<Seq<char>>) -> bool {
    lex_sorted(s) && s.to_multiset() == record_names(t).to_multiset()
}

/// The report that `format_variable` gives for `name`.
pub open spec fn format_variable_text(t: ProvenanceTracker, name: Seq<char>, sorted: Seq<Seq<char>>) -> Seq<char> {
    let j = record_index(t.records(), name);
    if t.is_enabled() && j >= 0 {
        variable_report(name, t.records()[j].events@)
    } else {
        "Variable '"@ + name + "' not found in provenance.\n\nAvailable variables:\n"@ + available_text(sorted)
    }
}

proof fn lemma_sorted_names_unique(t: ProvenanceTracker, a: Seq<Seq<char>>, b: Seq<Seq<char>>)
    requires
        sorted_names_of(t, a),
        sorted_names_of(t, b),
    ensures
        a == b,
{
    let leq = |x: Seq<char>, y: Seq<char>| lex_le(x, y);
    assert forall|x: Seq<char>| #[trigger] leq(x, x) by {
        lemma_lex_le_refl(x);
    }
    assert forall|x: Seq<char>, y: Seq<char>| #[trigger] leq(x, y) && #[trigger] leq(y, x) implies x == y by {
        lemma_lex_le_antisym(x, y);
    }
    assert forall|x: Seq<char>, y: Seq<char>, z: Seq<char>| #[trigger] leq(x, y) && #[trigger] leq(y, z) implies leq(
        x,
        z,
    ) by {
        lemma_lex_le_trans(x, y, z);
    }
    assert forall|x: Seq<char>, y: Seq<char>| #[trigger] leq(x, y) || #[trigger] leq(y, x) by {
        lemma_lex_le_total(x, y);
    }
    assert(total_ordering(leq));
    assert(sorted_by(a, leq));
    assert(sorted_by(b, leq));
    lemma_sorted_unique(a, b, leq);
}

/// Formats provenance reports.
pub struct DebugOutputFormatter;

fn push_str(s: String, t: &str) -> (r: String)
    ensures
        r@ == s@ + t@,
{
    append_str(s, t)
}

fn sorted_names(tracker: &ProvenanceTracker) -> (r: Vec<String>)
    ensures
        sorted_names_of(*tracker, views(r@)),
{
    let names = tracker.get_all_variables();
    assert(views(names@) =~= record_names(*tracker));
    let r = sort_strings(names);
    proof {
        assert forall|i: int, j: int| 0 <= i < j < views(r@).len() implies lex_le(
            #[trigger] views(r@)[i],
            #[trigger] views(r@)[j],
        ) by {
            assert(views(r@)[i] == r@[i]@ && views(r@)[j] == r@[j]@);
        }
    }
    r
}

fn event_lines(events: &Vec<TransformationEvent>) -> (r: (String, String, String, usize, usize, usize))
    ensures
        r.0@ == source_lines(events@),
        r.1@ == transformation_lines(events@),
        r.2@ == placement_lines(events@),
        r.3 == source_count(events@),
        r.4 == transformation_count(events@),
        r.5 == placement_count(events@),
{
    let mut sources = String::new();
    let mut transformations = String::new();
    let mut placements = String::new();
    let mut cs: usize = 0;
    let mut ct: usize = 0;
    let mut cp: usize = 0;
    let mut i: usize = 0;
    while i < events.len()
        invariant
            i <= events@.len(),
            cs == source_count(events@.subrange(0, i as int)),
            ct == transformation_count(events@.subrange(0, i as int)),
            cp == placement_count(events@.subrange(0, i as int)),
            cs + ct + cp == i,
            sources@ == source_lines(events@.subrange(0, i as int)),
            transformations@ == transformation_lines(events@.subrange(0, i as int)),
            placements@ == placement_lines(events@.subrange(0, i as int)),
        decreases events@.len() - i,
    {
        let e = &events[i];
        proof {
            let s = events@.subrange(0, i + 1);
            assert(s.drop_last() =~= events@.subrange(0, i as int));
            assert(s.last() == *e);
        }
        match e {
            TransformationEvent::SourceElement { .. } => {
                let t = push_str(sources, "  ");
                let mut t = t;
                push_decimal(&mut t, cs + 1);
                let t = push_str(t, ". ");
                let t = e.push_text(t);
                sources = push_str(t, "\n");
                cs = cs + 1;
            },
            TransformationEvent::TemplatePlacement { .. } => {
                let t = push_str(placements, "  - ");
                let t = e.push_text(t);
                placements = push_str(t, "\n");
                cp = cp + 1;
            },
            _ => {
                let t = push_str(transformations, "  - ");
                let t = e.push_text(t);
                transformations = push_str(t, "\n");
                ct = ct + 1;
            },
        }
        proof {
            let s = events@.subrange(0, i + 1);
            assert(sources@ =~= source_lines(s));
            assert(transformations@ =~= transformation_lines(s));
            assert(placements@ =~= placement_lines(s));
        }
        i = i + 1;
    }
    proof {
        assert(events@.subrange(0, events@.len() as int) =~= events@);
    }
    (sources, transformations, placements, cs, ct, cp)
}

fn section(out: String, present: bool, header: &str, lines: &str) -> (r: String)
    ensures
        r@ == out@ + (if present { header@ + lines@ + "\n"@ } else { Seq::empty() }),
{
    if present {
        let out2 = push_str(out, header);
        let out3 = push_str(out2, lines);
        let r = push_str(out3, "\n");
        assert(r@ =~= out@ + (header@ + lines@ + "\n"@));
        r
    } else {
        assert(out@ =~= out@ + Seq::<char>::empty());
        out
    }
}

/// The placements section with the summary.
pub open spec fn placements_section(pl: Seq<char>, total: nat, cs: nat, cp: nat) -> Seq<char> {
    "Compiled to:\n"@ + pl + "\nSummary:\n"@ + "  Total transformations: "@ + decimal(total) + "\n"@
        + "  Source nodes found: "@ + decimal(cs) + "\n"@ + "  Template placements: "@ + decimal(cp) + "\n"@
}

fn summary(out: String, lines: &str, total: usize, cs: usize, cp: usize) -> (r: String)
    ensures
        r@ == out@ + placements_section(lines@, total as nat, cs as nat, cp as nat),
{
    let o = push_str(out, "Compiled to:\n");
    let o = push_str(o, lines);
    let o = push_str(o, "\nSummary:\n");
    let mut o = push_str(o, "  Total transformations: ");
    push_decimal(&mut o, total);
    let o = push_str(o, "\n");
    let mut o = push_str(o, "  Source nodes found: ");
    push_decimal(&mut o, cs);
    let o = push_str(o, "\n");
    let mut o = push_str(o, "  Template placements: ");
    push_decimal(&mut o, cp);
    let r = push_str(o, "\n");
    assert(r@ =~= out@ + placements_section(lines@, total as nat, cs as nat, cp as nat));
    r
}

fn report(name: &str, p: &VariableProvenance) -> (r: String)
    ensures
        r@ == variable_report(name@, p.events@),
{
    let (sources, transformations, placements, cs, ct, cp) = event_lines(&p.events);
    let out = push_str(String::new(), "Variable: ");
    let out = push_str(out, name);
    let out = push_str(out, "\n");
    let out = push_str(out, "\n");
    let ghost head = out@;
    let out = section(out, cs > 0, "Source CSL nodes:\n", sources.as_str());
    let out = section(out, ct > 0, "Transformations:\n", transformations.as_str());
    let ghost mid = out@;
    let out = if cp > 0 {
        summary(out, placements.as_str(), p.events.len(), cs, cp)
    } else {
        out
    };
    proof {
        assert(head =~= "Variable: "@ + name@ + "\n"@ + "\n"@);
        let e = p.events@;
        let a = if cs > 0 { "Source CSL nodes:\n"@ + sources@ + "\n"@ } else { Seq::empty() };
        let b = if ct > 0 { "Transformations:\n"@ + transformations@ + "\n"@ } else { Seq::empty() };
        let c = if cp > 0 { placements_section(placements@, e.len(), cs as nat, cp as nat) } else { Seq::empty() };
        assert(out@ =~= head + a + b + c);
        assert(report_parts(name@, sources@, transformations@, placements@, e.len(), cs as nat, ct as nat, cp as nat)
            =~= head + a + b + c);
    }
    out
}

fn available(names: &Vec<String>) -> (r: String)
    ensures
        r@ == available_text(views(names@)),
{
    if names.len() == 0 {
        return to_owned_string("  (none tracked)\n");
    }
    let mut out = String::new();
    let mut i: usize = 0;
    while i < names.len()
        invariant
            i <= names@.len(),
            out@ == numbered_names(views(names@).subrange(0, i as int)),
        decreases names@.len() - i,
    {
        out = push_str(out, "  ");
        push_decimal(&mut out, i + 1);
        out = push_str(out, ". ");
        out = push_str(out, names[i].as_str());
        out = push_str(out, "\n");
        proof {
            let s = views(names@).subrange(0, i + 1);
            assert(s.drop_last() =~= views(names@).subrange(0, i as int));
            assert(out@ =~= numbered_names(s));
        }
        i = i + 1;
    }
    proof {
        assert(views(names@).subrange(0, names@.len() as int) =~= views(names@));
    }
    out
}

/// The report on all variables, given their names in order.
pub open spec fn all_variables_text(t: ProvenanceTracker, sorted: Seq<Seq<char>>) -> Seq<char> {
    if sorted.len() == 0 {
        "No variables tracked.\n"@
    } else {
        "Tracked "@ + decimal(sorted.len()) + " variables:\n\n"@ + variable_sections(t, sorted, sorted.len())
    }
}

/// The reports on the first `n` of `names`, separated by a rule.
pub open spec fn variable_sections(t: ProvenanceTracker, names: Seq<Seq<char>>, n: nat) -> Seq<char>
    decreases n,
{
    if n == 0 {
        Seq::empty()
    } else {
        variable_sections(t, names, (n - 1) as nat) + (if n > 1 {
            "\n"@ + "---\n\n"@
        } else {
            Seq::empty()
        }) + format_variable_text(t, names[n - 1], names)
    }
}

impl DebugOutputFormatter {
    /// The report on `var_name`: its events by kind with a summary, or, when
    /// it has no record, a notice and the sorted list of recorded variables.
    pub fn format_variable(tracker: &ProvenanceTracker, var_name: &str) -> (r: String)
        ensures
            forall|s: Seq<Seq<char>>| sorted_names_of(*tracker, s) ==> r@ == format_variable_text(
                *tracker,
                var_name@,
                s,
            ),
    {
        match tracker.provenance_ref(var_name) {
            Some(p) => report(var_name, p),
            None => {
                let out = push_str(String::new(), "Variable '");
                let out = push_str(out, var_name);
                let out = push_str(out, "' not found in provenance.\n\nAvailable variables:\n");
                let list = Self::format_available_variables(tracker);
                let r = push_str(out, list.as_str());
                r
            },
        }
    }

    /// The sorted, numbered list of recorded variables, or "(none tracked)".
    pub fn format_available_variables(tracker: &ProvenanceTracker) -> (r: String)
        ensures
            forall|s: Seq<Seq<char>>| sorted_names_of(*tracker, s) ==> r@ == available_text(s),
    {
        let names = sorted_names(tracker);
        let r = available(&names);
        proof {
            assert forall|s: Seq<Seq<char>>| sorted_names_of(*tracker, s) implies r@ == available_text(s) by {
                lemma_sorted_names_unique(*tracker, s, views(names@));
            }
        }
        r
    }

    /// The reports on all recorded variables in sorted order, or "No
    /// variables tracked."
    pub fn format_all_variables(tracker: &ProvenanceTracker) -> (r: String)
        ensures
            forall|s: Seq<Seq<char>>| sorted_names_of(*tracker, s) ==> r@ == all_variables_text(*tracker, s),
    {
        let names = sorted_names(tracker);
        let ghost sv = views(names@);
        if names.len() == 0 {
            let r = to_owned_string("No variables tracked.\n");
            proof {
                assert forall|s: Seq<Seq<char>>| sorted_names_of(*tracker, s) implies r@ == all_variables_text(
                    *tracker,
                    s,
                ) by {
                    lemma_sorted_names_unique(*tracker, s, sv);
                }
            }
            return r;
        }
        let mut out = push_str(String::new(), "Tracked ");
        push_decimal(&mut out, names.len());
        out = push_str(out, " variables:\n\n");
        let ghost head = out@;
        let mut i: usize = 0;
        while i < names.len()
            invariant
                i <= names@.len(),
                sv == views(names@),
                sorted_names_of(*tracker, sv),
                out@ == head + variable_sections(*tracker, sv, i as nat),
            decreases names@.len() - i,
        {
            if i > 0 {
                out = push_str(out, "\n");
                out = push_str(out, "---\n\n");
            }
            let part = Self::format_variable(tracker, names[i].as_str());
            let ghost before = out@;
            out = push_str(out, part.as_str());
            proof {
                assert(sv[i as int] == names@[i as int]@);
                assert(part@ == format_variable_text(*tracker, sv[i as int], sv));
                assert(out@ =~= head + variable_sections(*tracker, sv, (i + 1) as nat));
            }
            i = i + 1;
        }
        let r = out;
        proof {
            assert forall|s: Seq<Seq<char>>| sorted_names_of(*tracker, s) implies r@ == all_variables_text(
                *tracker,
                s,
            ) by {
                lemma_sorted_names_unique(*tracker, s, sv);
                assert(r@ =~= all_variables_text(*tracker, sv));
            }
        }
        r
    }
}

} // verus!
