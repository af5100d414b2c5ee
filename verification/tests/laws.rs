use citum_core::compressor::Compressor;
use citum_core::legacy::{ConditionBlock, CslnNode, FontStyle, FormattingOptions, ItemType, Variable, VariableBlock};
use citum_core::reference::csl_json::CslReference;
use citum_core::reference::InputReference;
use citum_core::template::{Rendering, WrapPunctuation};

fn title_node(style: Option<FontStyle>) -> CslnNode {
    CslnNode::Variable(VariableBlock {
        variable: Variable::Title,
        label: None,
        formatting: FormattingOptions { font_style: style, ..Default::default() },
        overrides: Vec::new(),
        source_order: None,
    })
}

#[test]
fn test_set_id_then_id() {
    let legacy = CslReference { id: "old".to_string(), ref_type: "report".to_string(), ..Default::default() };
    let mut reference = InputReference::from_csl(legacy);
    let before = reference.ref_type();
    reference.set_id("new".to_string());
    assert_eq!(reference.id(), Some("new".to_string()));
    assert_eq!(reference.ref_type(), before);
}

#[test]
fn test_merge_rendering_with_empty_and_itself() {
    let r = Rendering {
        emph: Some(true),
        prefix: Some("(".to_string()),
        wrap: Some(WrapPunctuation::Quotes),
        ..Default::default()
    };
    let mut a = r.clone();
    a.merge(&Rendering::default());
    assert_eq!(a, r);
    let mut b = r.clone();
    b.merge(&r);
    assert_eq!(b, r);
    let mut c = Rendering::default();
    c.merge(&r);
    assert_eq!(c, r);
}

#[test]
fn test_merge_rendering_other_wins() {
    let mut base = Rendering { emph: Some(true), suffix: Some(".".to_string()), ..Default::default() };
    let other = Rendering { emph: Some(false), ..Default::default() };
    base.merge(&other);
    assert_eq!(base.emph, Some(false));
    assert_eq!(base.suffix, Some(".".to_string()));
}

#[test]
fn test_compress_keeps_count_and_merges_branches() {
    let condition = CslnNode::Condition(ConditionBlock {
        if_item_type: vec![ItemType::Book],
        if_variables: Vec::new(),
        then_branch: vec![title_node(Some(FontStyle::Italic))],
        else_if_branches: Vec::new(),
        else_branch: Some(vec![title_node(None)]),
    });
    let nodes = vec![title_node(None), condition, CslnNode::Text { value: ", ".to_string() }];
    let out = Compressor.compress_nodes(nodes);
    assert_eq!(out.len(), 3);
    match &out[1] {
        CslnNode::Variable(v) => {
            assert_eq!(v.variable, Variable::Title);
            assert_eq!(v.overrides.len(), 1);
            assert_eq!(v.overrides[0].0, ItemType::Book);
            assert_eq!(v.overrides[0].1.font_style, Some(FontStyle::Italic));
        },
        _ => panic!("the condition becomes one variable"),
    }
}

#[test]
fn test_insert_override_keeps_one_entry_per_selector() {
    let mut overrides = None;
    citum_core::passes::common::insert_override(
        &mut overrides,
        citum_core::passes::common::single_selector("book"),
        citum_core::template::ComponentOverride::Rendering(citum_core::passes::common::suppress_rendering(true)),
    );
    citum_core::passes::common::insert_override(
        &mut overrides,
        citum_core::passes::common::single_selector("article"),
        citum_core::template::ComponentOverride::Rendering(citum_core::passes::common::suppress_rendering(true)),
    );
    citum_core::passes::common::insert_override(
        &mut overrides,
        citum_core::passes::common::single_selector("book"),
        citum_core::template::ComponentOverride::Rendering(citum_core::passes::common::suppress_rendering(false)),
    );
    let entries = overrides.unwrap();
    assert_eq!(entries.len(), 2);
    assert_eq!(entries[0].0, citum_core::passes::common::single_selector("book"));
    match &entries[0].1 {
        citum_core::template::ComponentOverride::Rendering(r) => assert_eq!(r.suppress, Some(false)),
        _ => panic!("expected a rendering override"),
    }
    assert_eq!(entries[1].0, citum_core::passes::common::single_selector("article"));
}

#[test]
fn test_unique_language_keys_find_their_entry() {
    let entries = vec![("en".to_string(), 1u32), ("de".to_string(), 2u32), ("fr".to_string(), 3u32)];
    assert_eq!(citum_core::options::titles::find_entry(&entries, "en"), Some(&1));
    assert_eq!(citum_core::options::titles::find_entry(&entries, "de"), Some(&2));
    assert_eq!(citum_core::options::titles::find_entry(&entries, "fr"), Some(&3));
    assert_eq!(citum_core::options::titles::find_entry(&entries, "es"), None);
}

fn number_item(n: citum_core::template::NumberVariable) -> citum_core::template::TemplateComponent {
    citum_core::template::TemplateComponent::Number(citum_core::template::TemplateNumber {
        number: n,
        form: None,
        label_form: None,
        rendering: Rendering::default(),
        links: None,
        overrides: None,
    })
}

fn list_of(items: Vec<citum_core::template::TemplateComponent>) -> citum_core::template::TemplateComponent {
    citum_core::template::TemplateComponent::List(citum_core::template::TemplateList {
        items,
        delimiter: None,
        rendering: Rendering::default(),
        overrides: None,
    })
}

fn numbers_of(c: &citum_core::template::TemplateComponent) -> Vec<citum_core::template::NumberVariable> {
    match c {
        citum_core::template::TemplateComponent::List(l) => l
            .items
            .iter()
            .filter_map(|i| match i {
                citum_core::template::TemplateComponent::Number(n) => Some(n.number),
                _ => None,
            })
            .collect(),
        _ => Vec::new(),
    }
}

#[test]
fn test_numbers_once_per_list_after_dedup() {
    let volume = citum_core::template::NumberVariable::Volume;
    let issue = citum_core::template::NumberVariable::Issue;
    let mut components = vec![
        list_of(vec![number_item(volume), number_item(issue), number_item(volume), number_item(issue)]),
        number_item(volume),
        list_of(vec![number_item(issue), list_of(vec![number_item(volume), number_item(volume)])]),
    ];
    citum_core::passes::deduplicate::deduplicate_numbers_in_lists(&mut components);
    assert_eq!(components.len(), 3);
    assert_eq!(numbers_of(&components[0]), vec![volume, issue]);
    assert!(matches!(components[1], citum_core::template::TemplateComponent::Number(_)));
    assert_eq!(numbers_of(&components[2]), vec![issue]);
    match &components[2] {
        citum_core::template::TemplateComponent::List(l) => assert_eq!(numbers_of(&l.items[1]), vec![volume]),
        _ => panic!("expected a list"),
    }
}
