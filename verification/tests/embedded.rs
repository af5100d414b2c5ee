use citum_core::embedded::{
    apa_bibliography, apa_citation, chicago_author_date_bibliography, chicago_author_date_citation, harvard_bibliography,
    harvard_citation, numeric_citation, vancouver_bibliography, vancouver_citation,
};
use citum_core::options::contributors::AndOptions;
use citum_core::template::{
    ContributorForm, ContributorRole, DateForm, DateVariable, NumberVariable, SimpleVariable, TemplateComponent,
    TitleType, WrapPunctuation,
};

#[test]
fn test_apa_citation_structure() {
    let template = apa_citation();
    assert_eq!(template.len(), 2);

    match &template[0] {
        TemplateComponent::Contributor(c) => {
            assert_eq!(c.contributor, ContributorRole::Author);
            assert_eq!(c.form, ContributorForm::Short);
        }
        _ => panic!("Expected Contributor"),
    }

    match &template[1] {
        TemplateComponent::Date(d) => {
            assert_eq!(d.date, DateVariable::Issued);
            assert_eq!(d.form, DateForm::Year);
        }
        _ => panic!("Expected Date"),
    }
}

#[test]
fn test_apa_bibliography_structure() {
    let template = apa_bibliography();
    assert!(
        template.len() >= 6,
        "APA bibliography should have multiple components"
    );

    // Check first component is author
    match &template[0] {
        TemplateComponent::Contributor(c) => {
            assert_eq!(c.contributor, ContributorRole::Author);
        }
        _ => panic!("First component should be Contributor"),
    }

    // Check second component is date with parentheses
    match &template[1] {
        TemplateComponent::Date(d) => {
            assert_eq!(d.rendering.wrap, Some(WrapPunctuation::Parentheses));
        }
        _ => panic!("Second component should be Date"),
    }
}

#[test]
fn test_vancouver_citation_is_numeric() {
    let template = vancouver_citation();
    assert_eq!(template.len(), 1);

    match &template[0] {
        TemplateComponent::Number(n) => {
            assert_eq!(n.number, NumberVariable::CitationNumber);
            assert_eq!(n.rendering.wrap, Some(WrapPunctuation::Brackets));
        }
        _ => panic!("Vancouver citation should be a Number component"),
    }
}

#[test]
fn test_chicago_uses_text_and() {
    let template = chicago_author_date_citation();

    match &template[0] {
        TemplateComponent::Contributor(c) => {
            assert_eq!(c.and, Some(AndOptions::Text));
        }
        _ => panic!("Expected Contributor"),
    }
}


#[test]
fn test_chicago_bibliography_quotes_title_and_links_doi() {
    let template = chicago_author_date_bibliography();
    assert_eq!(template.len(), 8);
    match &template[2] {
        TemplateComponent::Title(t) => {
            assert_eq!(t.title, TitleType::Primary);
            assert_eq!(t.rendering.quote, Some(true));
            assert_eq!(t.rendering.suffix, Some(" ".to_string()));
        }
        _ => panic!("Expected Title"),
    }
    match &template[7] {
        TemplateComponent::Variable(v) => {
            assert_eq!(v.variable, SimpleVariable::Doi);
            assert_eq!(v.rendering.prefix, Some("https://doi.org/".to_string()));
        }
        _ => panic!("Expected Variable"),
    }
    match &chicago_author_date_citation()[1] {
        TemplateComponent::Date(d) => assert_eq!(d.rendering.prefix, Some(" ".to_string())),
        _ => panic!("Expected Date"),
    }
}

#[test]
fn test_harvard_and_numeric_templates() {
    let citation = harvard_citation();
    assert_eq!(citation.len(), 2);
    match &citation[0] {
        TemplateComponent::Contributor(c) => assert_eq!(c.and, Some(AndOptions::Text)),
        _ => panic!("Expected Contributor"),
    }
    let bibliography = harvard_bibliography();
    assert_eq!(bibliography.len(), 7);
    match &bibliography[6] {
        TemplateComponent::Number(n) => {
            assert_eq!(n.number, NumberVariable::Pages);
            assert_eq!(n.rendering.suffix, Some(".".to_string()));
        }
        _ => panic!("Expected Number"),
    }
    let numeric = numeric_citation();
    assert_eq!(numeric.len(), 1);
    match &numeric[0] {
        TemplateComponent::Number(n) => {
            assert_eq!(n.number, NumberVariable::CitationNumber);
            assert_eq!(n.rendering.wrap, None);
        }
        _ => panic!("Expected Number"),
    }
}

#[test]
fn test_vancouver_and_apa_bibliography_details() {
    let template = vancouver_bibliography();
    assert_eq!(template.len(), 8);
    match &template[7] {
        TemplateComponent::Number(n) => {
            assert_eq!(n.number, NumberVariable::Pages);
            assert_eq!(n.rendering.prefix, Some(":".to_string()));
            assert_eq!(n.rendering.suffix, Some(".".to_string()));
        }
        _ => panic!("Expected Number"),
    }
    let apa = apa_bibliography();
    assert_eq!(apa.len(), 10);
    match &apa[4] {
        TemplateComponent::Title(t) => {
            assert_eq!(t.title, TitleType::ParentMonograph);
            assert_eq!(t.rendering.prefix, Some("In ".to_string()));
            assert_eq!(t.rendering.emph, Some(true));
        }
        _ => panic!("Expected Title"),
    }
}

#[test]
fn test_resolve_embedded_style_names() {
    let r = citum_core::embedded::resolve_embedded_style_name;
    assert_eq!(r("apa"), Some("apa-7th"));
    assert_eq!(r("apa-7th"), Some("apa-7th"));
    assert_eq!(r("harvard"), Some("elsevier-harvard"));
    assert_eq!(r("foo"), None);
    for name in ["apa", "mla", "ieee", "ama", "chicago", "chicago-author-date", "vancouver", "harvard"] {
        let full = r(name).unwrap();
        assert_eq!(r(full), Some(full));
    }
}
