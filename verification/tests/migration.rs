use citum_core::embedded::parts::{contributor, date, style, title, variable};
use citum_core::passes::pipeline::apply_bibliography_passes;
use citum_core::embedded::{apa_citation, vancouver_citation};
use citum_core::migration::{
    inferred_citation_rejection, normalize_inferred_citation, override_bibliography_punctuation,
    select_inferred_type_templates, type_names, CitationRejection,
};
use citum_core::options::Config;
use citum_core::template::{
    ContributorForm, ContributorRole, DateForm, DateVariable, SimpleVariable, TemplateComponent, TitleType, TypeSelector,
};

#[test]
fn test_inferred_citation_rejections() {
    assert_eq!(inferred_citation_rejection(&Vec::new(), true, false, false), Some(CitationRejection::Empty));
    assert_eq!(inferred_citation_rejection(&Vec::new(), false, true, true), None);
    assert_eq!(
        inferred_citation_rejection(&apa_citation(), true, true, false),
        Some(CitationRejection::MissingCitationNumber)
    );
    assert_eq!(inferred_citation_rejection(&vancouver_citation(), true, true, false), None);
    let mut only_author = apa_citation();
    only_author.truncate(1);
    assert_eq!(inferred_citation_rejection(&only_author, true, false, true), Some(CitationRejection::NoteUnderfit));
    assert_eq!(inferred_citation_rejection(&only_author, true, false, false), None);
    assert_eq!(CitationRejection::Empty.reason(), "empty citation template");
}

#[test]
fn test_normalize_inferred_author_year_citation() {
    let long = || {
        vec![
            contributor(ContributorRole::Author, ContributorForm::Long, None, style(None, None, None, None, None)),
            date(DateVariable::Issued, DateForm::Year, style(Some(" "), None, None, None, None)),
        ]
    };
    let mut t = long();
    assert!(normalize_inferred_citation(&mut t, true, true, false));
    assert!(matches!(&t[0], TemplateComponent::Contributor(c) if c.form == ContributorForm::Short));
    let mut t = long();
    assert!(!normalize_inferred_citation(&mut t, false, true, true));
    assert!(matches!(&t[0], TemplateComponent::Contributor(c) if c.form == ContributorForm::Long));
}

#[test]
fn test_bibliography_punctuation_override() {
    let mut options = Config::default();
    assert!(override_bibliography_punctuation(&mut options, &Some(". ".to_string()), &None, false, true));
    let b = options.bibliography.clone().unwrap();
    assert_eq!(b.separator, Some(". ".to_string()));
    assert_eq!(b.entry_suffix, None);
    let mut note = Config::default();
    assert!(!override_bibliography_punctuation(&mut note, &Some(". ".to_string()), &Some(".".to_string()), true, true));
    assert!(note.bibliography.is_none());
}

#[test]
fn test_type_templates_selection() {
    assert!(select_inferred_type_templates(Vec::new(), &apa_citation()).is_none());
    assert_eq!(
        type_names(&TypeSelector::Multiple(vec!["book".to_string(), "chapter".to_string()])),
        vec!["book".to_string(), "chapter".to_string()]
    );
    assert_eq!(type_names(&TypeSelector::Single("patent".to_string())), vec!["patent".to_string()]);
}

#[test]
fn test_bibliography_passes_move_access_to_end() {
    let make = || {
        vec![
            variable(SimpleVariable::Doi, style(Some("https://doi.org/"), None, None, None, None)),
            contributor(ContributorRole::Author, ContributorForm::Long, None, style(None, Some(". "), None, None, None)),
            title(TitleType::Primary, style(None, Some(". "), None, None, None)),
        ]
    };
    // Not an in-text style: nothing changes.
    let mut bib = make();
    apply_bibliography_passes(&mut bib, &Config::default(), false, false, None);
    assert!(matches!(&bib[0], TemplateComponent::Variable(v) if v.variable == SimpleVariable::Doi));
    // In-text author-date: the DOI goes to the end.
    let mut bib = make();
    apply_bibliography_passes(&mut bib, &Config::default(), true, true, None);
    assert_eq!(bib.len(), 3);
    assert!(matches!(&bib[0], TemplateComponent::Contributor(_)));
    assert!(matches!(&bib[2], TemplateComponent::Variable(v) if v.variable == SimpleVariable::Doi));
}
