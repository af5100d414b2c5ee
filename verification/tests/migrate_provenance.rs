use citum_core::debug_output::DebugOutputFormatter;
use citum_core::provenance::{ProvenanceTracker, SourceLocation};

#[test]
fn test_provenance_tracking() {
    let mut tracker = ProvenanceTracker::new(true);
    let loc = SourceLocation {
        line: 42,
        column: 10,
        context: "macro 'label-volume'".to_string(),
    };

    tracker.record_source_element("volume", loc.copy(), "text", Vec::new());

    let prov = tracker.get_provenance("volume").unwrap();
    assert_eq!(prov.variable_name, "volume");
    assert_eq!(prov.events.len(), 1);
}

#[test]
fn test_disabled_tracking() {
    let mut tracker = ProvenanceTracker::new(false);
    let loc = SourceLocation {
        line: 42,
        column: 10,
        context: "test".to_string(),
    };

    tracker.record_source_element("volume", loc, "text", Vec::new());

    assert!(tracker.get_provenance("volume").is_none());
}

#[test]
fn test_format_variable() {
    let mut tracker = ProvenanceTracker::new(true);
    let loc = SourceLocation {
        line: 42,
        column: 10,
        context: "macro 'label-volume'".to_string(),
    };

    tracker.record_source_element("volume", loc, "text", Vec::new());

    tracker.record_upsampling("volume", "Text", "Variable");
    tracker.record_template_placement("volume", 4, "bibliography.template", "Number");

    let output = DebugOutputFormatter::format_variable(&tracker, "volume");
    assert!(output.contains("Variable: volume"));
    assert!(output.contains("Source CSL nodes"));
    assert!(output.contains("Transformations"));
    assert!(output.contains("Compiled to"));
}

#[test]
fn test_format_unknown_variable() {
    let tracker = ProvenanceTracker::new(true);
    let output = DebugOutputFormatter::format_variable(&tracker, "unknown");
    assert!(output.contains("Variable 'unknown' not found"));
}

fn here(line: usize) -> SourceLocation {
    SourceLocation { line, column: 1, context: "bibliography layout".to_string() }
}

#[test]
fn test_record_appends_and_leaves_others() {
    let mut tracker = ProvenanceTracker::new(true);
    tracker.record_source_element("volume", here(1), "text", Vec::new());
    tracker.record_source_element("issue", here(2), "text", Vec::new());
    let issue_before = tracker.get_provenance("issue").unwrap();
    tracker.record_macro_expansion("volume", "label-volume", here(3));
    tracker.record_upsampling("volume", "text", "number");
    let volume = tracker.get_provenance("volume").unwrap();
    assert_eq!(volume.events.len(), 3);
    let issue_after = tracker.get_provenance("issue").unwrap();
    assert_eq!(issue_after.variable_name, issue_before.variable_name);
    assert_eq!(issue_after.events.len(), issue_before.events.len());
    assert_eq!(tracker.get_all_variables(), vec!["volume".to_string(), "issue".to_string()]);
}

#[test]
fn test_disabled_tracker_lists_nothing() {
    let mut tracker = ProvenanceTracker::new(false);
    tracker.record_merge("volume", vec![here(1)], "duplicate");
    tracker.record_template_placement("volume", 0, "bibliography", "number");
    assert!(tracker.get_all_variables().is_empty());
    assert!(tracker.get_provenance("volume").is_none());
}

#[test]
fn test_recording_run_lists_each_name_once() {
    let mut tracker = ProvenanceTracker::new(true);
    tracker.record_source_element("title", here(1), "text", Vec::new());
    tracker.record_upsampling("author", "names", "contributor");
    tracker.record_upsampling("title", "text", "title");
    tracker.record_source_element("issued", here(4), "date", Vec::new());
    tracker.record_macro_expansion("author", "author-short", here(5));
    let names = tracker.get_all_variables();
    assert_eq!(names, vec!["title".to_string(), "author".to_string(), "issued".to_string()]);
    for name in &names {
        assert!(tracker.get_provenance(name).is_some());
    }
    assert_eq!(tracker.get_provenance("title").unwrap().events.len(), 2);
    assert_eq!(tracker.get_provenance("author").unwrap().events.len(), 2);
}
