use citum_core::template::{
    ComponentOverride, ContributorForm, ContributorRole, DateVariable, NumberVariable, Rendering, SimpleVariable,
    TemplateComponent, TemplateContributor, TemplateDate, TemplateList, TemplateNumber, TemplateTitle,
    TemplateVariable, TitleType, TypeSelector, WrapPunctuation,
};
use citum_core::template_checks::{
    apply_wrap_to_component, citation_template_is_author_year_only, component_has_locator,
    component_has_volume, component_targets_type, inferred_candidate_structurally_diverges, is_four_digit_year,
    macro_name_indicates_locator, normalize_contributor_form_to_short, note_citation_template_is_underfit,
    scrub_inferred_literal_artifacts, scrub_pages_year_literal_prefix, scrub_year_only_prefix,
    should_merge_inferred_type_template, template_targets_type,
};

fn contributor(form: ContributorForm) -> TemplateComponent {
    TemplateComponent::Contributor(TemplateContributor {
        contributor: ContributorRole::Author,
        form,
        label: None,
        name_order: None,
        delimiter: None,
        sort_separator: None,
        shorten: None,
        and: None,
        rendering: Rendering::default(),
        links: None,
        overrides: None,
    })
}

fn date() -> TemplateComponent {
    TemplateComponent::Date(TemplateDate {
        date: DateVariable::Issued,
        form: Default::default(),
        fallback: None,
        rendering: Rendering::default(),
        links: None,
        overrides: None,
    })
}

fn title(t: TitleType, prefix: Option<&str>) -> TemplateComponent {
    TemplateComponent::Title(TemplateTitle {
        title: t,
        form: None,
        disambiguate_only: None,
        rendering: Rendering { prefix: prefix.map(|p| p.to_string()), ..Default::default() },
        links: None,
        overrides: None,
    })
}

fn number(n: NumberVariable) -> TemplateComponent {
    TemplateComponent::Number(TemplateNumber {
        number: n,
        form: None,
        label_form: None,
        rendering: Rendering::default(),
        links: None,
        overrides: None,
    })
}

fn list(items: Vec<TemplateComponent>) -> TemplateComponent {
    TemplateComponent::List(TemplateList { items, delimiter: None, rendering: Rendering::default(), overrides: None })
}

#[test]
fn test_four_digit_years() {
    assert!(is_four_digit_year("1999"));
    assert!(is_four_digit_year("1800"));
    assert!(is_four_digit_year("2100"));
    assert!(!is_four_digit_year("1799"));
    assert!(!is_four_digit_year("2101"));
    assert!(!is_four_digit_year("19a9"));
    assert!(!is_four_digit_year("199"));
}

#[test]
fn test_scrub_year_only_prefix() {
    assert_eq!(scrub_year_only_prefix(" 1999 "), Some(" ".to_string()));
    assert_eq!(scrub_year_only_prefix("1999 "), None);
    assert_eq!(scrub_year_only_prefix(" 19 "), None);
}

#[test]
fn test_scrub_pages_year_literal_prefix() {
    assert_eq!(scrub_pages_year_literal_prefix("; 2001; "), Some("; ".to_string()));
    assert_eq!(scrub_pages_year_literal_prefix(". 2001: "), Some(": ".to_string()));
    assert_eq!(scrub_pages_year_literal_prefix("; 20x1; "), None);
    assert_eq!(scrub_pages_year_literal_prefix("; "), None);
}

#[test]
fn test_scrub_inferred_literal_artifacts() {
    let mut t = title(TitleType::Primary, Some(" 2020 "));
    scrub_inferred_literal_artifacts(&mut t);
    match &t {
        TemplateComponent::Title(x) => assert_eq!(x.rendering.prefix, Some(" ".to_string())),
        _ => panic!("a title stays a title"),
    }
    let mut pages = TemplateComponent::Number(TemplateNumber {
        number: NumberVariable::Pages,
        form: None,
        label_form: None,
        rendering: Rendering { prefix: Some(". 1987: ".to_string()), ..Default::default() },
        links: None,
        overrides: Some(vec![(
            TypeSelector::Single("book".to_string()),
            ComponentOverride::Rendering(Rendering { prefix: Some(" 1987 ".to_string()), ..Default::default() }),
        )]),
    });
    scrub_inferred_literal_artifacts(&mut pages);
    match &pages {
        TemplateComponent::Number(n) => {
            assert_eq!(n.rendering.prefix, Some(": ".to_string()));
            match &n.overrides.as_ref().unwrap()[0].1 {
                ComponentOverride::Rendering(r) => assert_eq!(r.prefix, Some(" ".to_string())),
                _ => panic!("a rendering override"),
            }
        },
        _ => panic!("a number stays a number"),
    }
}

#[test]
fn test_author_year_only() {
    assert!(citation_template_is_author_year_only(&vec![contributor(ContributorForm::Short), date()]));
    assert!(citation_template_is_author_year_only(&vec![list(vec![contributor(ContributorForm::Short), date()])]));
    assert!(!citation_template_is_author_year_only(&vec![contributor(ContributorForm::Short)]));
    assert!(!citation_template_is_author_year_only(&vec![
        contributor(ContributorForm::Short),
        date(),
        title(TitleType::Primary, None),
    ]));
}

#[test]
fn test_underfit_note_template() {
    assert!(note_citation_template_is_underfit(&vec![contributor(ContributorForm::Long)]));
    assert!(!note_citation_template_is_underfit(&vec![contributor(ContributorForm::Long), date()]));
}

#[test]
fn test_normalize_contributor_form_to_short() {
    let mut template = vec![list(vec![contributor(ContributorForm::Long)]), date()];
    assert!(normalize_contributor_form_to_short(&mut template));
    match &template[0] {
        TemplateComponent::List(l) => match &l.items[0] {
            TemplateComponent::Contributor(c) => assert_eq!(c.form, ContributorForm::Short),
            _ => panic!("a contributor"),
        },
        _ => panic!("a list"),
    }
    assert!(!normalize_contributor_form_to_short(&mut template));
}

#[test]
fn test_components_found_in_lists() {
    let locator = TemplateComponent::Variable(TemplateVariable {
        variable: SimpleVariable::Locator,
        show_label: None,
        strip_label_periods: None,
        rendering: Rendering::default(),
        links: None,
        overrides: None,
    });
    assert!(component_has_locator(&list(vec![date(), locator])));
    assert!(component_has_volume(&list(vec![list(vec![number(NumberVariable::Volume)])])));
    assert!(!component_has_volume(&number(NumberVariable::Issue)));
}

#[test]
fn test_targets_type() {
    let mut t = title(TitleType::Primary, None);
    if let TemplateComponent::Title(x) = &mut t {
        x.overrides = Some(vec![(
            TypeSelector::Single("legal_case".to_string()),
            ComponentOverride::Rendering(Rendering::default()),
        )]);
    }
    assert!(component_targets_type(&t, "legal-case"));
    assert!(!component_targets_type(&t, "book"));
    assert!(template_targets_type(&vec![date(), list(vec![t])], "legal_case"));
}

#[test]
fn test_should_merge_type_templates() {
    let inferred = vec![title(TitleType::Primary, None)];
    let candidate = vec![number(NumberVariable::Volume)];
    assert!(inferred_candidate_structurally_diverges(&inferred, &candidate));
    assert!(should_merge_inferred_type_template("book", &inferred, &candidate));
    assert!(should_merge_inferred_type_template("patent", &inferred, &candidate));
    assert!(should_merge_inferred_type_template("legal_case", &inferred, &candidate));
    assert!(!should_merge_inferred_type_template("thesis", &inferred, &candidate));
}

#[test]
fn test_locator_macro_names() {
    assert!(macro_name_indicates_locator("Citation-Locator"));
    assert!(macro_name_indicates_locator("LOCATOR"));
    assert!(!macro_name_indicates_locator("author"));
}

#[test]
fn test_citation_wrap_fills_unset_wrap() {
    let mut n = number(NumberVariable::CitationNumber);
    apply_wrap_to_component(&mut n, WrapPunctuation::Brackets);
    match &n {
        TemplateComponent::Number(x) => assert_eq!(x.rendering.wrap, Some(WrapPunctuation::Brackets)),
        _ => panic!("a number"),
    }
    apply_wrap_to_component(&mut n, WrapPunctuation::Parentheses);
    match &n {
        TemplateComponent::Number(x) => assert_eq!(x.rendering.wrap, Some(WrapPunctuation::Brackets)),
        _ => panic!("a number"),
    }
}
