use citum_core::template_resolver::{TemplateMode, TemplateSection, TemplateSource};

#[test]
fn test_template_mode_names() {
    assert_eq!("auto".parse::<TemplateMode>(), Ok(TemplateMode::Auto));
    assert_eq!(TemplateMode::parse("hand"), Ok(TemplateMode::Hand));
    assert_eq!(TemplateMode::parse("inferred"), Ok(TemplateMode::Inferred));
    assert_eq!(TemplateMode::parse("xml"), Ok(TemplateMode::Xml));
    assert_eq!(
        TemplateMode::parse("live"),
        Err("invalid template mode 'live': expected auto|hand|inferred|xml".to_string())
    );
}

#[test]
fn test_template_mode_sources() {
    assert!(TemplateMode::Auto.uses_hand_authored());
    assert!(TemplateMode::Auto.uses_inferred());
    assert!(TemplateMode::Auto.allows_live_inference());
    assert!(TemplateMode::Hand.uses_hand_authored());
    assert!(!TemplateMode::Hand.uses_inferred());
    assert!(!TemplateMode::Inferred.uses_hand_authored());
    assert!(TemplateMode::Inferred.uses_inferred());
    assert!(!TemplateMode::Inferred.allows_live_inference());
    assert!(TemplateMode::Xml.is_xml_only());
    assert!(!TemplateMode::Xml.uses_hand_authored() && !TemplateMode::Xml.uses_inferred());
}

#[test]
fn test_cache_file_names() {
    assert_eq!(
        TemplateSection::Bibliography.cache_candidates("apa"),
        vec!["apa.bibliography.json".to_string(), "apa.json".to_string()]
    );
    assert_eq!(TemplateSection::Citation.cache_candidates("apa"), vec!["apa.citation.json".to_string()]);
    assert_eq!(TemplateSection::Citation.cache_output_name("apa"), "apa.citation.json");
    assert_eq!(TemplateSection::Bibliography.as_str(), "bibliography");
}

#[test]
fn test_source_descriptions() {
    assert_eq!(TemplateSource::HandAuthored("examples/apa-style.yaml".to_string()).describe(), "hand-authored (examples/apa-style.yaml)");
    assert_eq!(TemplateSource::InferredCached("c/apa.json".to_string()).describe(), "cached inferred (c/apa.json)");
    assert_eq!(TemplateSource::InferredLive.describe(), "live inferred");
    assert_eq!(TemplateSource::XmlCompiled.describe(), "XML compiled");
}
