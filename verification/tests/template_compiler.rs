use citum_core::legacy::{
    ConditionBlock, CslnNode, ElseIfBranch, DateBlock, DateOptions, DateParts, FontStyle, FormattingOptions, GroupBlock, ItemType,
    NamesBlock, NamesOptions, Variable, VariableBlock,
};
use citum_core::template::{
    ComponentOverride, ContributorForm, ContributorRole, DateForm, DateVariable, DelimiterPunctuation, SimpleVariable,
    TemplateComponent, TemplateTitle, TemplateVariable, TitleType, TypeSelector, WrapPunctuation,
};
use citum_core::template_compiler::same::components_eq;
use citum_core::template_compiler::TemplateCompiler;

fn variable(v: Variable) -> VariableBlock {
    VariableBlock {
        variable: v,
        label: None,
        formatting: FormattingOptions::default(),
        overrides: Vec::new(),
        source_order: None,
    }
}

fn has_override(overrides: &Option<Vec<(TypeSelector, ComponentOverride)>>, t: &str) -> bool {
    match overrides {
        Some(v) => v.iter().any(|(k, _)| *k == TypeSelector::Single(t.to_string())),
        None => false,
    }
}

#[test]
fn test_compile_names_to_contributor() {
    let compiler = TemplateCompiler;
    let names = CslnNode::Names(NamesBlock {
        variable: Variable::Author,
        options: NamesOptions::default(),
        formatting: FormattingOptions::default(),
        source_order: None,
    });

    let result = compiler.compile(&[names]);
    assert_eq!(result.len(), 1);

    if let TemplateComponent::Contributor(c) = &result[0] {
        assert_eq!(c.contributor, ContributorRole::Author);
        assert_eq!(c.form, ContributorForm::Long);
    } else {
        panic!("Expected Contributor component");
    }
}

#[test]
fn test_compile_date() {
    let compiler = TemplateCompiler;
    let date = CslnNode::Date(DateBlock {
        variable: Variable::Issued,
        options: DateOptions {
            parts: Some(DateParts::Year),
            ..Default::default()
        },
        formatting: FormattingOptions::default(),
        source_order: None,
    });

    let result = compiler.compile(&[date]);
    assert_eq!(result.len(), 1);

    if let TemplateComponent::Date(d) = &result[0] {
        assert_eq!(d.date, DateVariable::Issued);
        assert_eq!(d.form, DateForm::Year);
    } else {
        panic!("Expected Date component");
    }
}

#[test]
fn test_compile_variable_to_title() {
    let compiler = TemplateCompiler;
    let var = CslnNode::Variable(VariableBlock {
        variable: Variable::Title,
        label: None,
        formatting: FormattingOptions {
            font_style: Some(FontStyle::Italic),
            ..Default::default()
        },
        overrides: Vec::new(),
        source_order: None,
    });

    let result = compiler.compile(&[var]);
    assert_eq!(result.len(), 1);

    if let TemplateComponent::Title(t) = &result[0] {
        assert_eq!(t.title, TitleType::Primary);
        assert_eq!(t.rendering.emph, Some(true));
    } else {
        panic!("Expected Title component");
    }
}

#[test]
fn test_compile_variable_to_doi() {
    let compiler = TemplateCompiler;
    let var = CslnNode::Variable(variable(Variable::DOI));

    let result = compiler.compile(&[var]);
    assert_eq!(result.len(), 1);

    if let TemplateComponent::Variable(v) = &result[0] {
        assert_eq!(v.variable, SimpleVariable::Doi);
    } else {
        panic!("Expected Variable component");
    }
}

fn publisher_branch(t: ItemType) -> CslnNode {
    CslnNode::Condition(ConditionBlock {
        if_item_type: vec![t],
        if_variables: Vec::new(),
        then_branch: vec![CslnNode::Group(GroupBlock {
            children: vec![CslnNode::Variable(variable(Variable::Publisher))],
            delimiter: None,
            formatting: FormattingOptions::default(),
            source_order: None,
        })],
        else_if_branches: Vec::new(),
        else_branch: None,
    })
}

fn check_overrides(items: &[TemplateComponent]) {
    for item in items {
        if let TemplateComponent::Variable(v) = item {
            if v.variable == SimpleVariable::Publisher {
                assert!(has_override(&v.overrides, "book"));
                assert!(has_override(&v.overrides, "chapter"));
            }
        }
        if let TemplateComponent::List(l) = item {
            check_overrides(&l.items);
        }
    }
}

#[test]
fn test_compile_recursive_variable_discovery() {
    let compiler = TemplateCompiler;
    let result = compiler.compile(&[publisher_branch(ItemType::Book), publisher_branch(ItemType::Chapter)]);

    let has_pub = compiler.has_variable_recursive(
        &result,
        &TemplateComponent::Variable(TemplateVariable {
            variable: SimpleVariable::Publisher,
            show_label: None,
            strip_label_periods: None,
            rendering: Default::default(),
            links: None,
            overrides: None,
        }),
    );
    assert!(has_pub, "Publisher should be in the result");
    check_overrides(&result);
}

#[test]
fn test_type_specific_component_is_hidden_by_default() {
    let compiler = TemplateCompiler;
    let result = compiler.compile(&[publisher_branch(ItemType::Book)]);
    assert_eq!(result.len(), 1);
    match &result[0] {
        TemplateComponent::Variable(v) => {
            assert_eq!(v.rendering.suppress, Some(true));
            assert!(has_override(&v.overrides, "book"));
            match &v.overrides.as_ref().unwrap()[0].1 {
                ComponentOverride::Rendering(r) => assert_eq!(r.suppress, Some(false)),
                _ => panic!("a rendering override"),
            }
        },
        _ => panic!("Expected Variable component"),
    }
}

#[test]
fn test_default_branch_component_is_visible() {
    let compiler = TemplateCompiler;
    let result = compiler.compile(&[CslnNode::Variable(variable(Variable::URL))]);
    match &result[0] {
        TemplateComponent::Variable(v) => {
            assert_eq!(v.rendering.suppress, Some(false));
            assert!(v.overrides.is_none());
        },
        _ => panic!("Expected Variable component"),
    }
}

#[test]
fn test_text_merges_into_next_prefix() {
    let compiler = TemplateCompiler;
    let mut doi = variable(Variable::DOI);
    doi.formatting.prefix = Some("x".to_string());
    let result = compiler.compile(&[CslnNode::Text { value: "doi: ".to_string() }, CslnNode::Variable(doi)]);
    assert_eq!(result.len(), 1);
    match &result[0] {
        TemplateComponent::Variable(v) => assert_eq!(v.rendering.prefix, Some("doi: x".to_string())),
        _ => panic!("Expected Variable component"),
    }
}

#[test]
fn test_small_group_becomes_list() {
    let compiler = TemplateCompiler;
    let group = CslnNode::Group(GroupBlock {
        children: vec![
            CslnNode::Variable(variable(Variable::Volume)),
            CslnNode::Variable(variable(Variable::Issue)),
        ],
        delimiter: Some(", ".to_string()),
        formatting: FormattingOptions::default(),
        source_order: Some(3),
    });
    let result = compiler.compile(&[group]);
    assert_eq!(result.len(), 1);
    match &result[0] {
        TemplateComponent::List(l) => {
            assert_eq!(l.items.len(), 2);
            assert_eq!(l.delimiter, Some(DelimiterPunctuation::Comma));
        },
        _ => panic!("Expected List component"),
    }
}

#[test]
fn test_wrapped_group_passes_wrap_to_dates() {
    let compiler = TemplateCompiler;
    let date = CslnNode::Date(DateBlock {
        variable: Variable::Issued,
        options: DateOptions::default(),
        formatting: FormattingOptions::default(),
        source_order: None,
    });
    let group = CslnNode::Group(GroupBlock {
        children: vec![date],
        delimiter: None,
        formatting: FormattingOptions {
            prefix: Some(" (".to_string()),
            suffix: Some(")".to_string()),
            ..Default::default()
        },
        source_order: None,
    });
    let result = compiler.compile(&[group]);
    match &result[0] {
        TemplateComponent::Date(d) => {
            assert_eq!(d.rendering.wrap, Some(WrapPunctuation::Parentheses));
            assert_eq!(d.rendering.inner_prefix, Some(" ".to_string()));
        },
        _ => panic!("Expected Date component"),
    }
}

#[test]
fn test_source_order_sorts_components() {
    let compiler = TemplateCompiler;
    let mut title = variable(Variable::Title);
    title.source_order = Some(2);
    let mut doi = variable(Variable::DOI);
    doi.source_order = Some(1);
    let result = compiler.compile(&[CslnNode::Variable(title), CslnNode::Variable(doi)]);
    assert!(matches!(result[0], TemplateComponent::Variable(_)));
    assert!(matches!(result[1], TemplateComponent::Title(TemplateTitle { title: TitleType::Primary, .. })));
}

#[test]
fn test_affixes_give_wrap() {
    let (wrap, prefix, suffix) =
        TemplateCompiler::infer_wrap_from_affixes(&Some("[".to_string()), &Some("].".to_string()));
    assert_eq!(wrap, Some(WrapPunctuation::Brackets));
    assert_eq!(prefix, None);
    assert_eq!(suffix, Some(".".to_string()));
    let (wrap, prefix, _) = TemplateCompiler::infer_wrap_from_affixes(&Some("(".to_string()), &None);
    assert_eq!(wrap, None);
    assert_eq!(prefix, Some("(".to_string()));
}

#[test]
fn test_item_type_names() {
    let compiler = TemplateCompiler;
    assert_eq!(compiler.item_type_to_string(&ItemType::LegalCase), "legal_case");
    assert_eq!(compiler.item_type_to_string(&ItemType::MapItem), "map");
    assert_eq!(compiler.item_type_to_string(&ItemType::ArticleJournal), "article-journal");
}

#[test]
fn test_compile_citation_orders_author_and_date_first() {
    let compiler = TemplateCompiler;
    let date = CslnNode::Date(DateBlock {
        variable: Variable::Issued,
        options: DateOptions::default(),
        formatting: FormattingOptions::default(),
        source_order: None,
    });
    let names = CslnNode::Names(NamesBlock {
        variable: Variable::Author,
        options: NamesOptions::default(),
        formatting: FormattingOptions::default(),
        source_order: None,
    });
    let result = compiler.compile_citation(&[CslnNode::Variable(variable(Variable::Title)), date, names]);
    assert_eq!(result.len(), 3);
    assert!(matches!(&result[0], TemplateComponent::Contributor(c) if c.contributor == ContributorRole::Author));
    assert!(matches!(&result[1], TemplateComponent::Date(d) if d.date == DateVariable::Issued));
    assert!(matches!(&result[2], TemplateComponent::Title(_)));
}

#[test]
fn test_compile_citation_skips_uncommon_branch() {
    let compiler = TemplateCompiler;
    let condition = CslnNode::Condition(ConditionBlock {
        if_item_type: vec![ItemType::LegalCase],
        if_variables: Vec::new(),
        then_branch: vec![CslnNode::Variable(variable(Variable::DOI))],
        else_if_branches: Vec::new(),
        else_branch: Some(vec![CslnNode::Variable(variable(Variable::URL))]),
    });
    let result = compiler.compile_citation(&[condition]);
    assert_eq!(result.len(), 1);
    assert!(matches!(&result[0], TemplateComponent::Variable(v) if v.variable == SimpleVariable::Url));
}

#[test]
fn test_compile_citation_takes_then_branch() {
    let compiler = TemplateCompiler;
    let condition = CslnNode::Condition(ConditionBlock {
        if_item_type: vec![ItemType::Book],
        if_variables: Vec::new(),
        then_branch: vec![CslnNode::Variable(variable(Variable::DOI))],
        else_if_branches: Vec::new(),
        else_branch: Some(vec![CslnNode::Variable(variable(Variable::URL))]),
    });
    let result = compiler.compile_citation(&[condition]);
    assert_eq!(result.len(), 1);
    assert!(matches!(&result[0], TemplateComponent::Variable(v) if v.variable == SimpleVariable::Doi));
}

#[test]
fn test_one_component_per_variable() {
    let compiler = TemplateCompiler;
    let condition = CslnNode::Condition(ConditionBlock {
        if_item_type: vec![ItemType::Book],
        if_variables: Vec::new(),
        then_branch: vec![CslnNode::Variable(variable(Variable::Publisher))],
        else_if_branches: Vec::new(),
        else_branch: Some(vec![CslnNode::Variable(variable(Variable::Publisher))]),
    });
    let result = compiler.compile(&[condition, CslnNode::Variable(variable(Variable::Publisher))]);
    assert_eq!(result.len(), 1);
    match &result[0] {
        TemplateComponent::Variable(v) => {
            assert_eq!(v.variable, SimpleVariable::Publisher);
            assert_eq!(v.rendering.suppress, Some(false));
            assert!(has_override(&v.overrides, "book"));
        },
        _ => panic!("Expected Variable component"),
    }
}

fn plain_title(t: TitleType, rendering: citum_core::template::Rendering) -> TemplateComponent {
    TemplateComponent::Title(TemplateTitle {
        title: t,
        form: None,
        disambiguate_only: None,
        rendering,
        links: None,
        overrides: None,
    })
}

fn list_of(items: Vec<TemplateComponent>, rendering: citum_core::template::Rendering, overrides: Option<Vec<(TypeSelector, ComponentOverride)>>) -> TemplateComponent {
    TemplateComponent::List(citum_core::template::TemplateList { items, delimiter: None, rendering, overrides })
}

fn hidden() -> citum_core::template::Rendering {
    citum_core::template::Rendering { suppress: Some(true), ..Default::default() }
}

#[test]
fn test_duplicate_of_shown_list_item_is_hidden() {
    let compiler = TemplateCompiler;
    let mut components = vec![
        list_of(vec![plain_title(TitleType::Primary, Default::default())], Default::default(), None),
        plain_title(TitleType::Primary, Default::default()),
        plain_title(TitleType::ParentMonograph, Default::default()),
    ];
    compiler.fix_duplicate_variables(&mut components);
    assert_eq!(components.len(), 3);
    assert_eq!(components[1].rendering().suppress, Some(true));
    assert_eq!(components[2].rendering().suppress, None);
    // The list itself is left as it is.
    assert_eq!(components[0].rendering().suppress, None);
}

#[test]
fn test_duplicate_of_hidden_list_item_is_hidden_per_type() {
    let compiler = TemplateCompiler;
    let shown = citum_core::template::Rendering { suppress: Some(false), ..Default::default() };
    let list_overrides = vec![
        (TypeSelector::Single("book".to_string()), ComponentOverride::Rendering(shown.clone())),
        (TypeSelector::Multiple(vec!["chapter".to_string(), "report".to_string()]), ComponentOverride::Rendering(shown)),
        (TypeSelector::Single("thesis".to_string()), ComponentOverride::Rendering(hidden())),
    ];
    let mut components = vec![
        list_of(vec![plain_title(TitleType::Primary, Default::default())], hidden(), Some(list_overrides)),
        plain_title(TitleType::Primary, Default::default()),
    ];
    compiler.fix_duplicate_variables(&mut components);
    // Shown by default, hidden for the types the list shows it for.
    assert_eq!(components[1].rendering().suppress, None);
    let o = components[1].overrides();
    let has = |t: &str| o.is_some_and(|v| v.iter().any(|(k, _)| *k == TypeSelector::Single(t.to_string())));
    assert!(has("book"));
    assert!(has("chapter"));
    assert!(has("report"));
    assert!(!has("thesis"));
}

#[test]
fn test_visible_types_and_list_vars() {
    let compiler = TemplateCompiler;
    let shown = citum_core::template::Rendering { suppress: Some(false), ..Default::default() };
    let list = citum_core::template::TemplateList {
        items: vec![
            plain_title(TitleType::Primary, Default::default()),
            list_of(vec![plain_title(TitleType::ParentSerial, Default::default())], Default::default(), None),
        ],
        delimiter: None,
        rendering: hidden(),
        overrides: Some(vec![(TypeSelector::Single("book".to_string()), ComponentOverride::Rendering(shown))]),
    };
    let vars = compiler.extract_list_vars(&list);
    assert_eq!(vars.len(), 2);
    assert_eq!(vars[0], compiler.get_variable_key(&plain_title(TitleType::Primary, Default::default())).unwrap());
    assert_eq!(vars[1], compiler.get_variable_key(&plain_title(TitleType::ParentSerial, Default::default())).unwrap());
    let c = TemplateComponent::List(list);
    assert_eq!(compiler.get_visible_types_for_component(&c), vec!["book".to_string()]);
    assert_eq!(compiler.get_variable_key(&c), None);
}

fn names(v: Variable) -> CslnNode {
    CslnNode::Names(NamesBlock {
        variable: v,
        options: NamesOptions::default(),
        formatting: FormattingOptions::default(),
        source_order: None,
    })
}

#[test]
fn test_collect_types_sorted_and_once() {
    let compiler = TemplateCompiler;
    let nested = CslnNode::Condition(ConditionBlock {
        if_item_type: vec![ItemType::Webpage, ItemType::Book],
        if_variables: Vec::new(),
        then_branch: vec![publisher_branch(ItemType::Patent)],
        else_if_branches: vec![ElseIfBranch {
            if_item_type: vec![ItemType::Article],
            if_variables: Vec::new(),
            children: vec![publisher_branch(ItemType::Book)],
        }],
        else_branch: Some(vec![CslnNode::Group(GroupBlock {
            children: vec![publisher_branch(ItemType::LegalCase)],
            delimiter: None,
            formatting: FormattingOptions::default(),
            source_order: None,
        })]),
    });
    let mut found = Vec::new();
    compiler.collect_types_recursive(&[nested], &mut found);
    assert_eq!(
        found,
        vec![ItemType::Webpage, ItemType::Book, ItemType::Article, ItemType::Patent, ItemType::Book, ItemType::LegalCase]
    );
    let nested2 = CslnNode::Condition(ConditionBlock {
        if_item_type: vec![ItemType::Webpage, ItemType::Book],
        if_variables: Vec::new(),
        then_branch: vec![publisher_branch(ItemType::Patent)],
        else_if_branches: Vec::new(),
        else_branch: None,
    });
    assert_eq!(
        compiler.collect_types_with_branches(&[nested2, publisher_branch(ItemType::Book)]),
        vec![ItemType::Book, ItemType::Patent, ItemType::Webpage]
    );
}

#[test]
fn test_types_listed_in_name_order() {
    // Every item type name comes after the one before it.
    let compiler = TemplateCompiler;
    let all = vec![
        ItemType::Article, ItemType::ArticleJournal, ItemType::ArticleMagazine, ItemType::ArticleNewspaper,
        ItemType::Bill, ItemType::Book, ItemType::Broadcast, ItemType::Chapter, ItemType::Dataset, ItemType::Entry,
        ItemType::EntryDictionary, ItemType::EntryEncyclopedia, ItemType::Figure, ItemType::Graphic,
        ItemType::Interview, ItemType::LegalCase, ItemType::Legislation, ItemType::Manuscript, ItemType::MapItem,
        ItemType::MotionPicture, ItemType::MusicalScore, ItemType::Pamphlet, ItemType::PaperConference,
        ItemType::Patent, ItemType::PersonalCommunication, ItemType::Post, ItemType::PostWeblog, ItemType::Report,
        ItemType::Review, ItemType::ReviewBook, ItemType::Software, ItemType::Song, ItemType::Speech,
        ItemType::Standard, ItemType::Thesis, ItemType::Treaty, ItemType::Webpage,
    ];
    let nodes: Vec<CslnNode> = all.iter().map(|t| publisher_branch(*t)).rev().collect();
    let sorted = compiler.collect_types_with_branches(&nodes);
    assert_eq!(sorted.len(), all.len());
    let names: Vec<String> = sorted.iter().map(|t| compiler.item_type_to_string(t)).collect();
    for w in names.windows(2) {
        assert!(w[0] < w[1], "{} before {}", w[0], w[1]);
    }
}

#[test]
fn test_bibliography_with_type_templates() {
    let compiler = TemplateCompiler;
    let patent = CslnNode::Condition(ConditionBlock {
        if_item_type: vec![ItemType::Patent],
        if_variables: Vec::new(),
        then_branch: vec![CslnNode::Variable(variable(Variable::Number))],
        else_if_branches: Vec::new(),
        else_branch: Some(vec![CslnNode::Variable(variable(Variable::Publisher))]),
    });
    let nodes = vec![names(Variable::Author), patent];
    let (default, types) = compiler.compile_bibliography_with_types(&nodes, false);
    assert_eq!(default.len(), 3);
    assert_eq!(types.len(), 2);
    assert_eq!(types[0].0, TypeSelector::Single("entry-encyclopedia".to_string()));
    assert_eq!(types[1].0, TypeSelector::Single("patent".to_string()));
    // The patent template has the author and the number only.
    assert_eq!(types[1].1.len(), 2);
    assert!(matches!(types[1].1[1], TemplateComponent::Number(_)));
    assert_eq!(types[0].1.len(), 2);
    assert!(matches!(types[0].1[1], TemplateComponent::Variable(_)));
}

#[test]
fn test_type_template_differs_by_explicit_visibility() {
    let compiler = TemplateCompiler;
    let nodes = vec![names(Variable::Author)];
    let (default, types) = compiler.compile_bibliography_with_types(&nodes, true);
    assert_eq!(default.len(), 1);
    // The default template marks the author explicitly visible; the template
    // compiled for entry-encyclopedia leaves it unset, so the two differ.
    assert_eq!(default[0].rendering().suppress, Some(false));
    assert_eq!(types.len(), 1);
    assert_eq!(types[0].0, TypeSelector::Single("entry-encyclopedia".to_string()));
    assert_eq!(types[0].1[0].rendering().suppress, None);
}

#[test]
fn test_components_equal_by_contents() {
    let compiler = TemplateCompiler;
    let nodes = vec![names(Variable::Author), publisher_branch(ItemType::Book)];
    let a = compiler.compile(&nodes);
    let b = compiler.compile(&nodes);
    assert!(components_eq(&a, &b));
    let c = compiler.compile(&nodes[..1]);
    assert!(!components_eq(&a, &c));
}

#[test]
fn test_wrap_path_type_specific_component_hidden_with_override() {
    let compiler = TemplateCompiler;
    let nodes = vec![names(Variable::Author), publisher_branch(ItemType::Book)];
    let result = compiler.compile_with_wrap(&nodes, &(None, None, None), &Vec::new());
    assert_eq!(result.len(), 2);
    assert!(matches!(result[0], TemplateComponent::Contributor(_)));
    assert_eq!(result[0].rendering().suppress, None);
    assert_eq!(result[1].rendering().suppress, Some(true));
    let o = result[1].overrides();
    assert!(o.is_some_and(|v| v.iter().any(|(k, _)| *k == TypeSelector::Single("book".to_string()))));
}

#[test]
fn test_wrap_path_existing_component_gets_override() {
    let compiler = TemplateCompiler;
    let nodes = vec![CslnNode::Variable(variable(Variable::Publisher)), publisher_branch(ItemType::Chapter)];
    let result = compiler.compile_with_wrap(&nodes, &(None, None, None), &Vec::new());
    assert_eq!(result.len(), 1);
    assert_eq!(result[0].rendering().suppress, None);
    let o = result[0].overrides();
    assert!(o.is_some_and(|v| v.len() == 1 && v[0].0 == TypeSelector::Single("chapter".to_string())));
}

#[test]
fn test_wrap_path_small_group_becomes_list() {
    let compiler = TemplateCompiler;
    let group = CslnNode::Group(GroupBlock {
        children: vec![
            CslnNode::Variable(variable(Variable::Publisher)),
            CslnNode::Variable(variable(Variable::PublisherPlace)),
        ],
        delimiter: Some(", ".to_string()),
        formatting: FormattingOptions::default(),
        source_order: None,
    });
    let result = compiler.compile_with_wrap(&[group], &(None, None, None), &Vec::new());
    assert_eq!(result.len(), 1);
    match &result[0] {
        TemplateComponent::List(l) => assert_eq!(l.items.len(), 2),
        _ => panic!("Expected List"),
    }
}

#[test]
fn test_wrap_path_wrapped_date_replaces_plain_one() {
    let compiler = TemplateCompiler;
    let date = || {
        CslnNode::Date(DateBlock {
            variable: Variable::Issued,
            options: DateOptions { parts: Some(DateParts::Year), ..Default::default() },
            formatting: FormattingOptions::default(),
            source_order: None,
        })
    };
    let wrapped_group = CslnNode::Group(GroupBlock {
        children: vec![date()],
        delimiter: None,
        formatting: FormattingOptions { prefix: Some("(".to_string()), suffix: Some(")".to_string()), ..Default::default() },
        source_order: None,
    });
    let result = compiler.compile_with_wrap(&[date(), wrapped_group], &(None, None, None), &Vec::new());
    assert_eq!(result.len(), 1);
    match &result[0] {
        TemplateComponent::Date(d) => assert_eq!(d.rendering.wrap, Some(WrapPunctuation::Parentheses)),
        _ => panic!("Expected Date"),
    }
}

#[test]
fn test_sort_bibliography_components_by_rank() {
    let compiler = TemplateCompiler;
    let date = CslnNode::Date(DateBlock {
        variable: Variable::Issued,
        options: DateOptions { parts: Some(DateParts::Year), ..Default::default() },
        formatting: FormattingOptions::default(),
        source_order: None,
    });
    let nodes = vec![CslnNode::Variable(variable(Variable::Publisher)), date, names(Variable::Author)];
    let mut components = compiler.compile(&nodes);
    compiler.sort_bibliography_components(&mut components, false);
    assert!(matches!(components[0], TemplateComponent::Contributor(_)));
    assert!(matches!(components[1], TemplateComponent::Date(_)));
    assert!(matches!(components[2], TemplateComponent::Variable(_)));
    // In numeric styles the date goes after the rest.
    compiler.sort_bibliography_components(&mut components, true);
    assert!(matches!(components[0], TemplateComponent::Contributor(_)));
    assert!(matches!(components[1], TemplateComponent::Variable(_)));
    assert!(matches!(components[2], TemplateComponent::Date(_)));
}

#[test]
fn test_two_type_branches_compile_to_one_shown_component() {
    let compiler = TemplateCompiler;
    let result = compiler.compile(&[publisher_branch(ItemType::Book), publisher_branch(ItemType::Chapter)]);
    assert_eq!(result.len(), 1);
    match &result[0] {
        TemplateComponent::Variable(v) => {
            assert_eq!(v.variable, SimpleVariable::Publisher);
            assert_eq!(v.rendering.suppress, Some(true));
            let overrides = v.overrides.as_ref().unwrap();
            for t in ["book", "chapter"] {
                let entry = overrides.iter().find(|(k, _)| *k == TypeSelector::Single(t.to_string())).unwrap();
                match &entry.1 {
                    ComponentOverride::Rendering(r) => assert_eq!(r.suppress, Some(false)),
                    _ => panic!("a rendering override"),
                }
            }
        },
        _ => panic!("Expected Variable component"),
    }
}
