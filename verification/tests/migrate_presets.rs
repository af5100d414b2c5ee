use citum_core::options::{
    AndOptions, ContributorConfig, DateConfig, DelimiterPrecedesLast, DemoteNonDroppingParticle,
    DisplayAsSort, MonthFormat, ShortenListOptions, TitleRendering, TitlesConfig,
};
use citum_core::preset_detector::{detect_contributor_preset, detect_date_preset, detect_title_preset};
use citum_core::presets::{ContributorPreset, DatePreset, TitlePreset};

#[test]
fn test_detect_apa_contributor() {
    let config = ContributorConfig {
        and: Some(AndOptions::Symbol),
        display_as_sort: Some(DisplayAsSort::First),
        shorten: Some(ShortenListOptions {
            min: 21,
            use_first: 19,
            ..Default::default()
        }),
        ..Default::default()
    };
    assert_eq!(detect_contributor_preset(&config), Some(ContributorPreset::Apa));
}

#[test]
fn test_detect_vancouver_contributor() {
    let config = ContributorConfig {
        and: Some(AndOptions::Omitted),
        display_as_sort: Some(DisplayAsSort::All),
        ..Default::default()
    };
    assert_eq!(detect_contributor_preset(&config), Some(ContributorPreset::Vancouver));
}

#[test]
fn test_detect_chicago_contributor() {
    let config = ContributorConfig {
        and: Some(AndOptions::Text),
        display_as_sort: Some(DisplayAsSort::First),
        delimiter_precedes_last: Some(DelimiterPrecedesLast::Contextual),
        ..Default::default()
    };
    assert_eq!(detect_contributor_preset(&config), Some(ContributorPreset::Chicago));
}

#[test]
fn test_detect_harvard_contributor() {
    let config = ContributorConfig {
        and: Some(AndOptions::Text),
        display_as_sort: Some(DisplayAsSort::All),
        ..Default::default()
    };
    assert_eq!(detect_contributor_preset(&config), Some(ContributorPreset::Harvard));
}

#[test]
fn test_detect_springer_contributor() {
    let config = ContributorConfig {
        and: Some(AndOptions::Omitted),
        display_as_sort: Some(DisplayAsSort::All),
        sort_separator: Some(" ".to_string()),
        ..Default::default()
    };
    assert_eq!(detect_contributor_preset(&config), Some(ContributorPreset::Springer));
}

#[test]
fn test_detect_ieee_contributor() {
    let config = ContributorConfig {
        and: Some(AndOptions::Text),
        display_as_sort: Some(DisplayAsSort::Off),
        ..Default::default()
    };
    assert_eq!(detect_contributor_preset(&config), Some(ContributorPreset::Ieee));
}

#[test]
fn test_detect_numeric_all_authors_contributor() {
    let config = ContributorConfig {
        and: Some(AndOptions::Omitted),
        display_as_sort: Some(DisplayAsSort::All),
        initialize_with: Some("".to_string()),
        sort_separator: Some(" ".to_string()),
        demote_non_dropping_particle: Some(DemoteNonDroppingParticle::Never),
        ..Default::default()
    };
    assert_eq!(
        detect_contributor_preset(&config),
        Some(ContributorPreset::NumericAllAuthors)
    );
}

#[test]
fn test_detect_numeric_medium_contributor() {
    let config = ContributorConfig {
        and: Some(AndOptions::Omitted),
        display_as_sort: Some(DisplayAsSort::All),
        initialize_with: Some("".to_string()),
        sort_separator: Some(" ".to_string()),
        demote_non_dropping_particle: Some(DemoteNonDroppingParticle::SortOnly),
        shorten: Some(ShortenListOptions {
            min: 4,
            use_first: 3,
            ..Default::default()
        }),
        ..Default::default()
    };
    assert_eq!(
        detect_contributor_preset(&config),
        Some(ContributorPreset::NumericMedium)
    );
}

#[test]
fn test_detect_numeric_given_dot_contributor() {
    let config = ContributorConfig {
        and: Some(AndOptions::Omitted),
        display_as_sort: Some(DisplayAsSort::Off),
        initialize_with: Some(".".to_string()),
        delimiter: Some(", ".to_string()),
        delimiter_precedes_last: Some(DelimiterPrecedesLast::Always),
        demote_non_dropping_particle: Some(DemoteNonDroppingParticle::SortOnly),
        ..Default::default()
    };
    assert_eq!(
        detect_contributor_preset(&config),
        Some(ContributorPreset::NumericGivenDot)
    );
}

#[test]
fn test_detect_apa_title() {
    let config = TitlesConfig {
        component: Some(TitleRendering::default()),
        monograph: Some(TitleRendering {
            emph: Some(true),
            ..Default::default()
        }),
        periodical: Some(TitleRendering {
            emph: Some(true),
            ..Default::default()
        }),
        ..Default::default()
    };
    assert_eq!(detect_title_preset(&config), Some(TitlePreset::Apa));
}

#[test]
fn test_detect_chicago_title() {
    let config = TitlesConfig {
        component: Some(TitleRendering {
            quote: Some(true),
            ..Default::default()
        }),
        monograph: Some(TitleRendering {
            emph: Some(true),
            ..Default::default()
        }),
        periodical: Some(TitleRendering {
            emph: Some(true),
            ..Default::default()
        }),
        ..Default::default()
    };
    assert_eq!(detect_title_preset(&config), Some(TitlePreset::Chicago));
}

#[test]
fn test_detect_scientific_title() {
    let config = TitlesConfig {
        component: Some(TitleRendering::default()),
        monograph: Some(TitleRendering::default()),
        periodical: Some(TitleRendering::default()),
        ..Default::default()
    };
    assert_eq!(detect_title_preset(&config), Some(TitlePreset::Scientific));
}

#[test]
fn test_detect_numeric_date() {
    let config = DateConfig {
        month: MonthFormat::Numeric,
        ..Default::default()
    };
    assert_eq!(detect_date_preset(&config), Some(DatePreset::Numeric));
}
