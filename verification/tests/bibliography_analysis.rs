use citum_core::bibliography_analysis::{
    apply_author_suffix, apply_bibliography_and, extract_author_suffix, extract_bibliography_and,
};
use citum_core::citation_analysis::{
    infer_citation_wrapping, CslBibliography, CslBranch, CslChoose, CslGroup, CslLayout, CslMacro, CslName,
    CslNames, CslNode, CslStyle, CslSubstitute, CslText,
};
use citum_core::options::contributors::AndOptions;
use citum_core::template::{
    ContributorForm, ContributorRole, Rendering, TemplateComponent, TemplateContributor, WrapPunctuation,
};

fn text(name: &str, suffix: Option<&str>) -> CslNode {
    CslNode::Text(CslText { macro_name: Some(name.to_string()), suffix: suffix.map(|s| s.to_string()) })
}

fn group(prefix: Option<&str>, suffix: Option<&str>, children: Vec<CslNode>) -> CslNode {
    CslNode::Group(CslGroup {
        delimiter: None,
        prefix: prefix.map(|s| s.to_string()),
        suffix: suffix.map(|s| s.to_string()),
        children,
    })
}

fn layout(prefix: Option<&str>, suffix: Option<&str>, children: Vec<CslNode>) -> CslLayout {
    CslLayout { prefix: prefix.map(|s| s.to_string()), suffix: suffix.map(|s| s.to_string()), children }
}

fn name(and: Option<&str>) -> CslNode {
    CslNode::Name(CslName { and: and.map(|s| s.to_string()) })
}

fn names(children: Vec<CslNode>) -> CslNode {
    CslNode::Names(CslNames { children })
}

fn contributor(role: ContributorRole) -> TemplateComponent {
    TemplateComponent::Contributor(TemplateContributor {
        contributor: role,
        form: ContributorForm::Long,
        label: None,
        name_order: None,
        delimiter: None,
        sort_separator: None,
        shorten: None,
        and: None,
        rendering: Rendering::default(),
        links: None,
        overrides: None,
    })
}

#[test]
fn test_layout_parentheses_wrap_the_citation() {
    let l = layout(Some("("), Some(")"), vec![group(Some("["), Some("]"), Vec::new())]);
    assert_eq!(infer_citation_wrapping(&l), (Some(WrapPunctuation::Parentheses), None, None));
}

#[test]
fn test_nested_group_brackets_wrap_the_citation() {
    let l = layout(None, None, vec![text("author", None), group(None, None, vec![group(Some("["), Some("]"), Vec::new())])]);
    assert_eq!(infer_citation_wrapping(&l), (Some(WrapPunctuation::Brackets), None, None));
}

#[test]
fn test_other_layout_affixes_are_kept() {
    let l = layout(Some(""), None, vec![text("author", None)]);
    assert_eq!(infer_citation_wrapping(&l), (None, None, None));
    let l = layout(Some("<"), None, Vec::new());
    assert_eq!(infer_citation_wrapping(&l), (None, Some("<".to_string()), None));
}

#[test]
fn test_author_suffix_in_group_and_top_level() {
    let l = layout(None, None, vec![text("title", Some(";")), group(None, None, vec![text("author", Some(". "))])]);
    assert_eq!(extract_author_suffix(&l), Some(". ".to_string()));
    let l = layout(None, None, vec![text("author", None), text("author", Some(","))]);
    assert_eq!(extract_author_suffix(&l), None);
    let l = layout(None, None, vec![text("editor", Some(","))]);
    assert_eq!(extract_author_suffix(&l), None);
}

#[test]
fn test_apply_author_suffix_touches_authors_only() {
    let mut components = vec![contributor(ContributorRole::Author), contributor(ContributorRole::Editor)];
    apply_author_suffix(&mut components, Some(". ".to_string()));
    match &components[0] {
        TemplateComponent::Contributor(c) => assert_eq!(c.rendering.suffix, Some(". ".to_string())),
        _ => panic!("expected a contributor"),
    }
    match &components[1] {
        TemplateComponent::Contributor(c) => assert_eq!(c.rendering.suffix, None),
        _ => panic!("expected a contributor"),
    }
    apply_author_suffix(&mut components, None);
    match &components[0] {
        TemplateComponent::Contributor(c) => assert_eq!(c.rendering.suffix, Some(". ".to_string())),
        _ => panic!("expected a contributor"),
    }
}

#[test]
fn test_bibliography_and_from_author_macro() {
    let style = CslStyle {
        macros: vec![
            CslMacro { name: "editor".to_string(), children: vec![names(vec![name(Some("text"))])] },
            CslMacro { name: "author".to_string(), children: vec![names(vec![name(Some("symbol"))])] },
        ],
        bibliography: Some(CslBibliography { layout: layout(None, None, vec![names(vec![name(Some("text"))])]) }),
    };
    assert_eq!(extract_bibliography_and(&style), Some(AndOptions::Symbol));
}

#[test]
fn test_bibliography_and_from_layout_branches() {
    let choose = CslNode::Choose(CslChoose {
        if_branch: CslBranch { children: vec![text("title", None)] },
        else_if_branches: vec![CslBranch {
            children: vec![names(vec![CslNode::Substitute(CslSubstitute { children: vec![name(Some("text"))] })])],
        }],
        else_branch: None,
    });
    let style = CslStyle {
        macros: vec![CslMacro { name: "author".to_string(), children: vec![text("title", None)] }],
        bibliography: Some(CslBibliography { layout: layout(None, None, vec![choose]) }),
    };
    assert_eq!(extract_bibliography_and(&style), Some(AndOptions::Text));
    let style = CslStyle {
        macros: Vec::new(),
        bibliography: Some(CslBibliography { layout: layout(None, None, vec![names(vec![name(None)])]) }),
    };
    assert_eq!(extract_bibliography_and(&style), Some(AndOptions::Omitted));
    let style = CslStyle { macros: Vec::new(), bibliography: None };
    assert_eq!(extract_bibliography_and(&style), None);
}

#[test]
fn test_apply_bibliography_and_touches_authors_only() {
    let mut components = vec![contributor(ContributorRole::Editor), contributor(ContributorRole::Author)];
    apply_bibliography_and(&mut components, Some(AndOptions::Text));
    match (&components[0], &components[1]) {
        (TemplateComponent::Contributor(e), TemplateComponent::Contributor(a)) => {
            assert_eq!(e.and, None);
            assert_eq!(a.and, Some(AndOptions::Text));
        },
        _ => panic!("expected contributors"),
    }
}
