use citum_core::citation_analysis::{
    extract_citation_delimiter, CslBranch, CslChoose, CslGroup, CslLayout, CslMacro, CslNames, CslNode, CslText,
};

fn group(delimiter: &str, children: Vec<CslNode>) -> CslNode {
    CslNode::Group(CslGroup { delimiter: Some(delimiter.to_string()), prefix: None, suffix: None, children })
}

fn call(name: &str) -> CslNode {
    CslNode::Text(CslText { macro_name: Some(name.to_string()), suffix: None })
}

fn names() -> CslNode {
    CslNode::Names(CslNames { children: Vec::new() })
}

fn layout_of(children: Vec<CslNode>) -> CslLayout {
    CslLayout { prefix: None, suffix: None, children }
}

#[test]
fn test_flat_group_delimiter() {
    let layout = layout_of(vec![group(", ", vec![names(), CslNode::Date])]);
    assert_eq!(extract_citation_delimiter(&layout, &Vec::new()), Some(", ".to_string()));
}

#[test]
fn test_deepest_group_wins() {
    let layout = layout_of(vec![group(" ", vec![group(", ", vec![call("author-short"), call("year-date")])])]);
    assert_eq!(extract_citation_delimiter(&layout, &Vec::new()), Some(", ".to_string()));
    // A group without both author and date gives nothing.
    let layout = layout_of(vec![group(", ", vec![names(), CslNode::Other])]);
    assert_eq!(extract_citation_delimiter(&layout, &Vec::new()), None);
}

#[test]
fn test_delimiter_inside_choose_and_macro() {
    let choose = CslNode::Choose(CslChoose {
        if_branch: CslBranch { children: vec![call("author-date")] },
        else_if_branches: vec![CslBranch { children: vec![CslNode::Other] }],
        else_branch: Some(vec![group(" ", vec![names(), CslNode::Date])]),
    });
    let macros = vec![CslMacro {
        name: "author-date".to_string(),
        children: vec![group("; ", vec![call("author"), call("issued-year")])],
    }];
    let layout = layout_of(vec![group(", ", vec![choose])]);
    // The macro's group sits two levels deeper than the else-branch's group.
    assert_eq!(extract_citation_delimiter(&layout, &macros), Some("; ".to_string()));
}

#[test]
fn test_checked_delimiter_on_cyclic_macros() {
    let macros = vec![
        CslMacro { name: "author-date".to_string(), children: vec![call("author-date-again")] },
        CslMacro { name: "author-date-again".to_string(), children: vec![call("author-date")] },
    ];
    let layout = layout_of(vec![call("author-date")]);
    assert_eq!(citum_core::citation_analysis::extract_citation_delimiter_checked(&layout, &macros), None);
    let layout = layout_of(vec![group(", ", vec![names(), CslNode::Date])]);
    assert_eq!(
        citum_core::citation_analysis::extract_citation_delimiter_checked(&layout, &Vec::new()),
        Some(Some(", ".to_string()))
    );
}
