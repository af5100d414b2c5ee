use citum_core::options::{Config, JsonValue, Processing, Substitute};
use citum_core::template::{DelimiterPunctuation, TypeSelector};

#[test]
fn test_config_default() {
    let config = Config::default();
    assert!(config.substitute.is_none());
    assert!(config.processing.is_none());
}

#[test]
fn test_author_date_processing() {
    let processing = Processing::AuthorDate;
    let config = processing.config();
    assert!(config.disambiguate.unwrap().year_suffix);
}

#[test]
fn test_substitute_default() {
    let sub = Substitute::default();
    assert_eq!(sub.template.len(), 3);
}

#[test]
fn test_type_selector_default_only_matches_default_context() {
    let selector = TypeSelector::Single("default".to_string());
    assert!(selector.matches("default"));
    assert!(!selector.matches("article-journal"));

    let mixed = TypeSelector::Multiple(vec!["default".to_string(), "chapter".to_string()]);
    assert!(mixed.matches("default"));
    assert!(mixed.matches("chapter"));
    assert!(!mixed.matches("book"));
}

#[test]
fn test_delimiter_from_csl_string_normalizes_none_and_trimmed_values() {
    assert_eq!(
        DelimiterPunctuation::from_csl_string("none"),
        DelimiterPunctuation::Empty
    );
    assert_eq!(
        DelimiterPunctuation::from_csl_string(" none "),
        DelimiterPunctuation::Empty
    );
    assert_eq!(
        DelimiterPunctuation::from_csl_string(" "),
        DelimiterPunctuation::Space
    );
    assert_eq!(
        DelimiterPunctuation::from_csl_string(" : "),
        DelimiterPunctuation::Colon
    );
}

#[test]
fn test_config_merged_convenience() {
    let base = Config {
        processing: Some(Processing::AuthorDate),
        ..Default::default()
    };
    let override_config = Config {
        punctuation_in_quote: true,
        ..Default::default()
    };

    let merged = Config::merged(&base, &override_config);

    // Both fields preserved
    assert_eq!(merged.processing, Some(Processing::AuthorDate));
    assert!(merged.punctuation_in_quote);
}

#[test]
fn test_config_merged_override_wins() {
    let base = Config {
        processing: Some(Processing::AuthorDate),
        strip_periods: Some(false),
        ..Default::default()
    };
    let override_config = Config {
        processing: Some(Processing::Numeric),
        ..Default::default()
    };
    let merged = Config::merged(&base, &override_config);
    assert_eq!(merged.processing, Some(Processing::Numeric));
    assert_eq!(merged.strip_periods, Some(false));
    assert!(!merged.punctuation_in_quote);
}

// The preset names below are what a style writes in place of a section's
// options; each resolves to that preset's configuration.

#[test]
fn test_contributor_config_preset() {
    let config = Config { contributors: Some(citum_core::presets::ContributorPreset::Apa.config()), ..Default::default() };
    let contributors = config.contributors.unwrap();
    assert_eq!(contributors.and, Some(citum_core::options::AndOptions::Symbol));
    assert_eq!(contributors.display_as_sort, Some(citum_core::options::DisplayAsSort::First));
}

#[test]
fn test_date_config_preset() {
    let config = Config { dates: Some(citum_core::presets::DatePreset::Long.config()), ..Default::default() };
    let dates = config.dates.unwrap();
    assert_eq!(dates.month, citum_core::options::MonthFormat::Long);
}

#[test]
fn test_titles_config_preset() {
    let config = Config { titles: Some(citum_core::presets::TitlePreset::Chicago.config()), ..Default::default() };
    let titles = config.titles.unwrap();
    assert_eq!(titles.component.unwrap().quote, Some(true));
    assert_eq!(titles.monograph.unwrap().emph, Some(true));
}

#[test]
fn test_substitute_config_preset() {
    let config = Config {
        substitute: Some(citum_core::options::SubstituteConfig::Preset(citum_core::presets::SubstitutePreset::Standard)),
        ..Default::default()
    };
    assert!(config.substitute.is_some());
    let resolved = config.substitute.unwrap().resolve();
    assert_eq!(resolved.template.len(), 3);
    assert_eq!(resolved.template[0], citum_core::options::SubstituteKey::Editor);
}

#[test]
fn test_substitute_config_explicit() {
    let explicit = Substitute {
        contributor_role_form: None,
        template: vec![citum_core::options::SubstituteKey::Title, citum_core::options::SubstituteKey::Editor],
        overrides: Vec::new(),
    };
    let config = Config { substitute: Some(citum_core::options::SubstituteConfig::Explicit(explicit)), ..Default::default() };
    let resolved = config.substitute.unwrap().resolve();
    assert_eq!(resolved.template[0], citum_core::options::SubstituteKey::Title);
    assert_eq!(resolved.template[1], citum_core::options::SubstituteKey::Editor);
}

#[test]
fn test_config_merge_precedence() {
    // Base config with global options
    let mut base = Config {
        processing: Some(Processing::AuthorDate),
        contributors: Some(citum_core::options::ContributorConfig {
            display_as_sort: Some(citum_core::options::DisplayAsSort::First),
            and: Some(citum_core::options::AndOptions::Symbol),
            ..Default::default()
        }),
        ..Default::default()
    };
    // Override config (e.g., citation-specific options)
    let override_config = Config {
        contributors: Some(citum_core::options::ContributorConfig {
            and: Some(citum_core::options::AndOptions::Text),
            ..Default::default()
        }),
        ..Default::default()
    };
    // Merge: override takes precedence
    base.merge(&override_config);
    // Processing should remain from base (not overridden)
    assert_eq!(base.processing, Some(Processing::AuthorDate));
    // Contributors should be merged with override values taking precedence
    assert_eq!(base.contributors.as_ref().unwrap().and, Some(citum_core::options::AndOptions::Text));
    assert_eq!(base.contributors.as_ref().unwrap().display_as_sort, Some(citum_core::options::DisplayAsSort::First));
}

#[test]
fn test_config_merge_takes_custom_values() {
    let mut base = Config {
        custom: Some(vec![("a".to_string(), JsonValue::Bool(true))]),
        ..Default::default()
    };
    let unset = Config::default();
    base.merge(&unset);
    assert_eq!(base.custom, Some(vec![("a".to_string(), JsonValue::Bool(true))]));
    let other = Config {
        custom: Some(vec![(
            "b".to_string(),
            JsonValue::Array(vec![JsonValue::Number("1.5".to_string()), JsonValue::Null]),
        )]),
        ..Default::default()
    };
    base.merge(&other);
    assert_eq!(
        base.custom,
        Some(vec![("b".to_string(), JsonValue::Array(vec![JsonValue::Number("1.5".to_string()), JsonValue::Null]))])
    );
}

#[test]
fn test_delimiter_text_has_trailing_space() {
    assert_eq!(DelimiterPunctuation::Slash.to_string_with_space(), "/ ");
    assert_eq!(DelimiterPunctuation::Hyphen.to_string_with_space(), "- ");
    assert_eq!(DelimiterPunctuation::Comma.to_string_with_space(), ", ");
    assert_eq!(DelimiterPunctuation::Space.to_string_with_space(), " ");
    assert_eq!(DelimiterPunctuation::Empty.to_string_with_space(), "");
}

#[test]
fn test_delimiter_text_reads_back() {
    for d in [
        DelimiterPunctuation::Comma,
        DelimiterPunctuation::Semicolon,
        DelimiterPunctuation::Period,
        DelimiterPunctuation::Colon,
        DelimiterPunctuation::Ampersand,
        DelimiterPunctuation::VerticalLine,
        DelimiterPunctuation::Slash,
        DelimiterPunctuation::Hyphen,
        DelimiterPunctuation::Space,
        DelimiterPunctuation::Empty,
    ] {
        assert_eq!(DelimiterPunctuation::from_csl_string(&d.to_string_with_space()), d);
    }
}
