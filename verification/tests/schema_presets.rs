use citum_core::options::{
    AndOptions, DelimiterPrecedesLast, DemoteNonDroppingParticle, DisplayAsSort, MonthFormat,
};
use citum_core::presets::{ContributorPreset, DatePreset, SubstitutePreset, TitlePreset};
use citum_core::options::SubstituteKey;

#[test]
fn test_contributor_preset_apa() {
    let config = ContributorPreset::Apa.config();
    assert_eq!(config.and, Some(AndOptions::Symbol));
    assert_eq!(config.display_as_sort, Some(DisplayAsSort::First));
    let shorten = config.shorten.unwrap();
    assert_eq!(shorten.min, 21);
    assert_eq!(shorten.use_first, 19);
}

#[test]
fn test_contributor_preset_chicago() {
    let config = ContributorPreset::Chicago.config();
    assert_eq!(config.and, Some(AndOptions::Text));
    assert_eq!(config.display_as_sort, Some(DisplayAsSort::First));
}

#[test]
fn test_contributor_preset_vancouver() {
    let config = ContributorPreset::Vancouver.config();
    assert_eq!(config.and, Some(AndOptions::Omitted));
    assert_eq!(config.display_as_sort, Some(DisplayAsSort::All));
}

#[test]
fn test_contributor_preset_springer() {
    let config = ContributorPreset::Springer.config();
    assert_eq!(config.and, Some(AndOptions::Omitted));
    assert_eq!(config.display_as_sort, Some(DisplayAsSort::All));
    assert_eq!(config.sort_separator, Some(" ".to_string()));
    let shorten = config.shorten.unwrap();
    assert_eq!(shorten.min, 5);
    assert_eq!(shorten.use_first, 3);
}

#[test]
fn test_contributor_preset_numeric_compact() {
    let config = ContributorPreset::NumericCompact.config();
    assert_eq!(config.and, Some(AndOptions::Omitted));
    assert_eq!(config.display_as_sort, Some(DisplayAsSort::All));
    assert_eq!(config.sort_separator, Some(" ".to_string()));
    assert_eq!(
        config.demote_non_dropping_particle,
        Some(DemoteNonDroppingParticle::SortOnly)
    );
    let shorten = config.shorten.unwrap();
    assert_eq!(shorten.min, 7);
    assert_eq!(shorten.use_first, 6);
}

#[test]
fn test_contributor_preset_numeric_all_authors() {
    let config = ContributorPreset::NumericAllAuthors.config();
    assert_eq!(config.and, Some(AndOptions::Omitted));
    assert_eq!(config.display_as_sort, Some(DisplayAsSort::All));
    assert_eq!(config.sort_separator, Some(" ".to_string()));
    assert_eq!(config.initialize_with, Some("".to_string()));
    assert_eq!(
        config.demote_non_dropping_particle,
        Some(DemoteNonDroppingParticle::Never)
    );
    assert!(config.shorten.is_none());
}

#[test]
fn test_contributor_preset_numeric_given_dot() {
    let config = ContributorPreset::NumericGivenDot.config();
    assert_eq!(config.and, Some(AndOptions::Omitted));
    assert_eq!(config.display_as_sort, Some(DisplayAsSort::Off));
    assert_eq!(config.initialize_with, Some(".".to_string()));
    assert_eq!(
        config.demote_non_dropping_particle,
        Some(DemoteNonDroppingParticle::SortOnly)
    );
    assert_eq!(
        config.delimiter_precedes_last,
        Some(DelimiterPrecedesLast::Always)
    );
}

#[test]
fn test_date_preset_long() {
    let config = DatePreset::Long.config();
    assert_eq!(config.month, MonthFormat::Long);
    assert!(config.uncertainty_marker.is_some());
}

#[test]
fn test_date_preset_iso() {
    let config = DatePreset::Iso.config();
    assert_eq!(config.month, MonthFormat::Numeric);
    assert!(config.uncertainty_marker.is_none());
    assert!(config.approximation_marker.is_none());
}

#[test]
fn test_title_preset_apa() {
    let config = TitlePreset::Apa.config();
    let component = config.component.unwrap();
    assert!(component.quote.is_none() || component.quote == Some(false));
    let monograph = config.monograph.unwrap();
    assert_eq!(monograph.emph, Some(true));
}

#[test]
fn test_title_preset_chicago() {
    let config = TitlePreset::Chicago.config();
    let component = config.component.unwrap();
    assert_eq!(component.quote, Some(true));
    let monograph = config.monograph.unwrap();
    assert_eq!(monograph.emph, Some(true));
}

#[test]
fn test_substitute_preset_standard() {
    let config = SubstitutePreset::Standard.config();
    assert_eq!(
        config.template,
        vec![
            SubstituteKey::Editor,
            SubstituteKey::Title,
            SubstituteKey::Translator,
        ]
    );
}

#[test]
fn test_substitute_preset_title_first() {
    let config = SubstitutePreset::TitleFirst.config();
    assert_eq!(config.template[0], SubstituteKey::Title);
}
