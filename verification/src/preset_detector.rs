//! Detects when extracted configuration matches a known preset.
//!
//! Detection is "fuzzy": it checks the characteristic fields of each preset,
//! not every field.

use vstd::prelude::*;
use crate::options::{
    AndOptions, Config, ContributorConfig, DateConfig, DelimiterPrecedesLast,
    DemoteNonDroppingParticle, DisplayAsSort, MonthFormat, TitlesConfig,
};
use crate::text::opt_view;
use crate::options::titles::is_flag_rendering;
use crate::presets::{
    contributor_preset_holds, date_preset_config_spec, title_preset_holds, ContributorPreset,
    DatePreset, TitlePreset,
};
use crate::text::str_eq;

verus! {

/// Holistic style presets that combine multiple configuration aspects.
#[derive(Debug, Clone, Copy, PartialEq, Eq, Structural)]
pub enum StylePreset {
    Apa,
    Chicago,
    Ieee,
    Elsevier,
    Vancouver,
    Harvard,
}

/// Whether the shortening of `c` has exactly this threshold.
pub open spec fn shorten_at(c: ContributorConfig, min: u8, use_first: u8) -> bool {
    c.shorten is Some && c.shorten.unwrap().min == min && c.shorten.unwrap().use_first == use_first
}

/// The contributor preset that the characteristic fields of `c` indicate.
pub open spec fn detected_contributor_preset(c: ContributorConfig) -> Option<ContributorPreset> {
    let and_none = c.and == Some(AndOptions::Omitted) || c.and is None;
    let sep = opt_view(c.sort_separator);
    let init = opt_view(c.initialize_with);
    if c.and == Some(AndOptions::Symbol) && c.display_as_sort == Some(DisplayAsSort::First) {
        Some(ContributorPreset::Apa)
    } else if c.display_as_sort == Some(DisplayAsSort::All) && and_none {
        if c.demote_non_dropping_particle == Some(DemoteNonDroppingParticle::Never) && sep == Some(" "@)
            && init == Some(""@) && c.shorten is None {
            Some(ContributorPreset::NumericAllAuthors)
        } else if c.demote_non_dropping_particle == Some(DemoteNonDroppingParticle::Never) && sep
            == Some(" "@) && shorten_at(c, 7, 5) {
            Some(ContributorPreset::AnnualReviews)
        } else if c.demote_non_dropping_particle == Some(DemoteNonDroppingParticle::SortOnly) && sep
            == Some(" "@) && init == Some(""@) && (shorten_at(c, 7, 6) || shorten_at(c, 4, 3)
            || shorten_at(c, 7, 3) || shorten_at(c, 11, 10)) {
            if shorten_at(c, 7, 6) {
                Some(ContributorPreset::NumericCompact)
            } else if shorten_at(c, 4, 3) {
                Some(ContributorPreset::NumericMedium)
            } else if shorten_at(c, 7, 3) {
                Some(ContributorPreset::NumericTight)
            } else {
                Some(ContributorPreset::NumericLarge)
            }
        } else if c.demote_non_dropping_particle == Some(DemoteNonDroppingParticle::SortOnly) && sep
            == Some(", "@) && init == Some("."@) && c.delimiter_precedes_last == Some(
            DelimiterPrecedesLast::Always,
        ) && c.shorten is None {
            Some(ContributorPreset::MathPhys)
        } else if sep == Some(" "@) {
            Some(ContributorPreset::Springer)
        } else {
            Some(ContributorPreset::Vancouver)
        }
    } else if c.display_as_sort == Some(DisplayAsSort::Off) && and_none && init == Some("."@)
        && opt_view(c.delimiter) == Some(", "@) && c.delimiter_precedes_last == Some(
        DelimiterPrecedesLast::Always,
    ) && c.demote_non_dropping_particle == Some(DemoteNonDroppingParticle::SortOnly) {
        Some(ContributorPreset::NumericGivenDot)
    } else if c.display_as_sort == Some(DisplayAsSort::Off) && and_none && init == Some(". "@)
        && c.demote_non_dropping_particle == Some(DemoteNonDroppingParticle::SortOnly) {
        Some(ContributorPreset::PhysicsNumeric)
    } else if c.display_as_sort == Some(DisplayAsSort::Off) && c.and == Some(AndOptions::Text) {
        Some(ContributorPreset::Ieee)
    } else if c.display_as_sort == Some(DisplayAsSort::All) && c.and == Some(AndOptions::Text) {
        Some(ContributorPreset::Harvard)
    } else if c.display_as_sort == Some(DisplayAsSort::First) && c.and == Some(AndOptions::Text)
        && c.delimiter_precedes_last == Some(DelimiterPrecedesLast::Contextual) {
        Some(ContributorPreset::Chicago)
    } else {
        None
    }
}

/// Whether `o` holds exactly the string `s`.
fn opt_is(o: &Option<String>, s: &str) -> (r: bool)
    ensures
        r == (opt_view(*o) == Some(s@)),
{
    match o {
        Some(v) => str_eq(v.as_str(), s),
        None => false,
    }
}

fn shorten_matches(config: &ContributorConfig, min: u8, use_first: u8) -> (r: bool)
    ensures
        r == shorten_at(*config, min, use_first),
{
    match &config.shorten {
        Some(s) => s.min == min && s.use_first == use_first,
        None => false,
    }
}

/// Detects if a `ContributorConfig` matches a known preset.
///
/// Returns the matching preset if found, or `None` if the config is custom.
pub fn detect_contributor_preset(config: &ContributorConfig) -> (r: Option<ContributorPreset>)
    ensures
        r == detected_contributor_preset(*config),
{
    let and_none = config.and == Some(AndOptions::Omitted) || config.and.is_none();
    let demote = config.demote_non_dropping_particle;
    let dpl = config.delimiter_precedes_last;
    if config.and == Some(AndOptions::Symbol) && config.display_as_sort == Some(DisplayAsSort::First) {
        return Some(ContributorPreset::Apa);
    }
    if config.display_as_sort == Some(DisplayAsSort::All) && and_none {
        if demote == Some(DemoteNonDroppingParticle::Never) && opt_is(&config.sort_separator, " ")
            && opt_is(&config.initialize_with, "") && config.shorten.is_none() {
            return Some(ContributorPreset::NumericAllAuthors);
        }
        if demote == Some(DemoteNonDroppingParticle::Never) && opt_is(&config.sort_separator, " ")
            && shorten_matches(config, 7, 5) {
            return Some(ContributorPreset::AnnualReviews);
        }
        if demote == Some(DemoteNonDroppingParticle::SortOnly) && opt_is(&config.sort_separator, " ")
            && opt_is(&config.initialize_with, "") {
            if shorten_matches(config, 7, 6) {
                return Some(ContributorPreset::NumericCompact);
            }
            if shorten_matches(config, 4, 3) {
                return Some(ContributorPreset::NumericMedium);
            }
            if shorten_matches(config, 7, 3) {
                return Some(ContributorPreset::NumericTight);
            }
            if shorten_matches(config, 11, 10) {
                return Some(ContributorPreset::NumericLarge);
            }
        }
        if demote == Some(DemoteNonDroppingParticle::SortOnly) && opt_is(&config.sort_separator, ", ")
            && opt_is(&config.initialize_with, ".") && dpl == Some(DelimiterPrecedesLast::Always)
            && config.shorten.is_none() {
            return Some(ContributorPreset::MathPhys);
        }
        if opt_is(&config.sort_separator, " ") {
            return Some(ContributorPreset::Springer);
        }
        return Some(ContributorPreset::Vancouver);
    }
    if config.display_as_sort == Some(DisplayAsSort::Off) && and_none {
        if opt_is(&config.initialize_with, ".") && opt_is(&config.delimiter, ", ") && dpl == Some(
            DelimiterPrecedesLast::Always,
        ) && demote == Some(DemoteNonDroppingParticle::SortOnly) {
            return Some(ContributorPreset::NumericGivenDot);
        }
        if opt_is(&config.initialize_with, ". ") && demote == Some(
            DemoteNonDroppingParticle::SortOnly,
        ) {
            return Some(ContributorPreset::PhysicsNumeric);
        }
    }
    if config.display_as_sort == Some(DisplayAsSort::Off) && config.and == Some(AndOptions::Text) {
        return Some(ContributorPreset::Ieee);
    }
    if config.display_as_sort == Some(DisplayAsSort::All) && config.and == Some(AndOptions::Text) {
        return Some(ContributorPreset::Harvard);
    }
    if config.display_as_sort == Some(DisplayAsSort::First) && config.and == Some(AndOptions::Text)
        && dpl == Some(DelimiterPrecedesLast::Contextual) {
        return Some(ContributorPreset::Chicago);
    }
    None
}

/// The title preset that the component, monograph and periodical flags of
/// `t` indicate.
pub open spec fn detected_title_preset(t: TitlesConfig) -> Option<TitlePreset> {
    let cq = t.component is Some && t.component.unwrap().quote == Some(true);
    let me = t.monograph is Some && t.monograph.unwrap().emph == Some(true);
    let pe = t.periodical is Some && t.periodical.unwrap().emph == Some(true);
    if !cq && !me && !pe {
        Some(TitlePreset::Scientific)
    } else if !cq && me && pe {
        Some(TitlePreset::Apa)
    } else if cq && me && pe {
        Some(TitlePreset::Chicago)
    } else {
        None
    }
}

/// Detects if a `TitlesConfig` matches a known preset.
pub fn detect_title_preset(config: &TitlesConfig) -> (r: Option<TitlePreset>)
    ensures
        r == detected_title_preset(*config),
{
    let component_quoted = match &config.component {
        Some(c) => c.quote == Some(true),
        None => false,
    };
    let monograph_emph = match &config.monograph {
        Some(m) => m.emph == Some(true),
        None => false,
    };
    let periodical_emph = match &config.periodical {
        Some(p) => p.emph == Some(true),
        None => false,
    };
    if !component_quoted && !monograph_emph && !periodical_emph {
        return Some(TitlePreset::Scientific);
    }
    if !component_quoted && monograph_emph && periodical_emph {
        return Some(TitlePreset::Apa);
    }
    if component_quoted && monograph_emph && periodical_emph {
        return Some(TitlePreset::Chicago);
    }
    None
}

/// The date preset of each month format.
pub open spec fn detected_date_preset(month: MonthFormat) -> DatePreset {
    match month {
        MonthFormat::Numeric => DatePreset::Numeric,
        MonthFormat::Short => DatePreset::Short,
        MonthFormat::Long => DatePreset::Long,
    }
}

/// Detects the date preset of a `DateConfig` from its month format.
pub fn detect_date_preset(config: &DateConfig) -> (r: Option<DatePreset>)
    ensures
        r == Some(detected_date_preset(config.month)),
{
    match config.month {
        MonthFormat::Numeric => Some(DatePreset::Numeric),
        MonthFormat::Short => Some(DatePreset::Short),
        MonthFormat::Long => Some(DatePreset::Long),
    }
}

/// The style preset indicated by a contributor preset and a title preset.
pub open spec fn style_from_presets(
    cp: Option<ContributorPreset>,
    tp: Option<TitlePreset>,
) -> Option<StylePreset> {
    match (cp, tp) {
        (Some(ContributorPreset::Apa), Some(TitlePreset::Apa)) => Some(StylePreset::Apa),
        (Some(ContributorPreset::Chicago), Some(TitlePreset::Chicago)) => Some(StylePreset::Chicago),
        (Some(ContributorPreset::Ieee), Some(TitlePreset::Chicago)) => Some(StylePreset::Ieee),
        (Some(ContributorPreset::Vancouver), _) => Some(StylePreset::Vancouver),
        (Some(ContributorPreset::Harvard), _) => Some(StylePreset::Harvard),
        _ => None,
    }
}

/// The contributor preset a configuration's contributor settings are
/// detected as.
pub open spec fn contributors_preset(config: Config) -> Option<ContributorPreset> {
    match config.contributors {
        Some(c) => detected_contributor_preset(c),
        None => None,
    }
}

/// The title preset a configuration's title settings are detected as.
pub open spec fn titles_preset(config: Config) -> Option<TitlePreset> {
    match config.titles {
        Some(t) => detected_title_preset(t),
        None => None,
    }
}

/// Detects a holistic style preset from a full configuration.
pub fn detect_style_preset(config: &Config) -> (r: Option<StylePreset>)
    ensures
        r == Some(StylePreset::Harvard) <==> contributors_preset(*config) == Some(ContributorPreset::Harvard),
        r == Some(StylePreset::Vancouver) <==> contributors_preset(*config) == Some(ContributorPreset::Vancouver),
        r == Some(StylePreset::Apa) <==> contributors_preset(*config) == Some(ContributorPreset::Apa)
            && titles_preset(*config) == Some(TitlePreset::Apa),
        r == Some(StylePreset::Chicago) <==> contributors_preset(*config) == Some(ContributorPreset::Chicago)
            && titles_preset(*config) == Some(TitlePreset::Chicago),
        r == Some(StylePreset::Ieee) <==> contributors_preset(*config) == Some(ContributorPreset::Ieee)
            && titles_preset(*config) == Some(TitlePreset::Chicago),
        r != Some(StylePreset::Elsevier),
        r == style_from_presets(
            match config.contributors {
                Some(c) => detected_contributor_preset(c),
                None => None,
            },
            match config.titles {
                Some(t) => detected_title_preset(t),
                None => None,
            },
        ),
{
    let cp = match &config.contributors {
        Some(c) => detect_contributor_preset(c),
        None => None,
    };
    let tp = match &config.titles {
        Some(t) => detect_title_preset(t),
        None => None,
    };
    match (cp, tp) {
        (Some(ContributorPreset::Apa), Some(TitlePreset::Apa)) => Some(StylePreset::Apa),
        (Some(ContributorPreset::Chicago), Some(TitlePreset::Chicago)) => Some(StylePreset::Chicago),
        (Some(ContributorPreset::Ieee), Some(TitlePreset::Chicago)) => Some(StylePreset::Ieee),
        (Some(ContributorPreset::Vancouver), _) => Some(StylePreset::Vancouver),
        (Some(ContributorPreset::Harvard), _) => Some(StylePreset::Harvard),
        _ => None,
    }
}

proof fn reveal_separator_literals()
    ensures
        " "@ != ", "@,
        " "@ != ""@,
        ", "@ != ""@,
        "."@ != ". "@,
        "."@ != ""@,
        ". "@ != ""@,
{
    reveal_strlit(" ");
    reveal_strlit(", ");
    reveal_strlit("");
    reveal_strlit(".");
    reveal_strlit(". ");
    assert(" "@.len() != ", "@.len());
    assert(" "@.len() != ""@.len());
    assert(", "@.len() != ""@.len());
    assert("."@.len() != ". "@.len());
    assert("."@.len() != ""@.len());
    assert(". "@.len() != ""@.len());
}

/// Each style preset is detected by its characteristic presets: Harvard
/// and Vancouver by their contributor presets whatever the titles; APA and
/// Chicago by their contributor and title presets; IEEE by its contributor
/// preset with Chicago-like titles. Elsevier is never detected, and no other
/// combination gives a style preset.
pub proof fn law_style_preset_by_its_presets(config: Config)
    ensures
        style_from_presets(contributors_preset(config), titles_preset(config)) == Some(StylePreset::Harvard)
            <==> contributors_preset(config) == Some(ContributorPreset::Harvard),
        style_from_presets(contributors_preset(config), titles_preset(config)) == Some(StylePreset::Vancouver)
            <==> contributors_preset(config) == Some(ContributorPreset::Vancouver),
        style_from_presets(contributors_preset(config), titles_preset(config)) == Some(StylePreset::Apa)
            <==> contributors_preset(config) == Some(ContributorPreset::Apa) && titles_preset(config) == Some(
            TitlePreset::Apa,
        ),
        style_from_presets(contributors_preset(config), titles_preset(config)) == Some(StylePreset::Chicago)
            <==> contributors_preset(config) == Some(ContributorPreset::Chicago) && titles_preset(config) == Some(
            TitlePreset::Chicago,
        ),
        style_from_presets(contributors_preset(config), titles_preset(config)) == Some(StylePreset::Ieee)
            <==> contributors_preset(config) == Some(ContributorPreset::Ieee) && titles_preset(config) == Some(
            TitlePreset::Chicago,
        ),
        style_from_presets(contributors_preset(config), titles_preset(config)) != Some(StylePreset::Elsevier),
{
}

/// A configuration whose contributor settings are those of the Harvard (or
/// Vancouver) contributor preset is the Harvard (or Vancouver) style,
/// whatever its titles; with the APA (or Chicago) contributor and title
/// settings it is the APA (or Chicago) style; with the IEEE contributor
/// settings and Chicago titles it is the IEEE style.
pub proof fn law_style_preset_from_preset_settings(config: Config, p: ContributorPreset, q: Option<TitlePreset>)
    requires
        config.contributors is Some,
        contributor_preset_holds(config.contributors.unwrap(), p),
        p != ContributorPreset::SocSciFirst,
        q is Some ==> config.titles is Some && title_preset_holds(config.titles.unwrap(), q.unwrap()),
    ensures
        p == ContributorPreset::Harvard ==> style_from_presets(contributors_preset(config), titles_preset(config))
            == Some(StylePreset::Harvard),
        p == ContributorPreset::Vancouver ==> style_from_presets(contributors_preset(config), titles_preset(config))
            == Some(StylePreset::Vancouver),
        p == ContributorPreset::Apa && q == Some(TitlePreset::Apa) ==> style_from_presets(
            contributors_preset(config),
            titles_preset(config),
        ) == Some(StylePreset::Apa),
        p == ContributorPreset::Chicago && q == Some(TitlePreset::Chicago) ==> style_from_presets(
            contributors_preset(config),
            titles_preset(config),
        ) == Some(StylePreset::Chicago),
        p == ContributorPreset::Ieee && q == Some(TitlePreset::Chicago) ==> style_from_presets(
            contributors_preset(config),
            titles_preset(config),
        ) == Some(StylePreset::Ieee),
{
    law_contributor_preset_roundtrip(config.contributors.unwrap(), p);
    if q == Some(TitlePreset::Apa) || q == Some(TitlePreset::Chicago) {
        law_title_preset_roundtrip(config.titles.unwrap(), q.unwrap());
    }
    law_style_preset_by_its_presets(config);
}

/// Every contributor preset but `SocSciFirst` is detected again from the
/// configuration it expands to.
pub proof fn law_contributor_preset_roundtrip(c: ContributorConfig, p: ContributorPreset)
    requires
        contributor_preset_holds(c, p),
        p != ContributorPreset::SocSciFirst,
    ensures
        detected_contributor_preset(c) == Some(p),
{
    reveal_separator_literals();
}

/// The `Apa`, `Chicago` and `Scientific` title presets are detected again from
/// the configuration they expand to.
pub proof fn law_title_preset_roundtrip(t: TitlesConfig, p: TitlePreset)
    requires
        title_preset_holds(t, p),
        p == TitlePreset::Apa || p == TitlePreset::Chicago || p == TitlePreset::Scientific,
    ensures
        detected_title_preset(t) == Some(p),
{
}

/// Every date preset but `Iso` is detected again from the configuration it
/// expands to.
pub proof fn law_date_preset_roundtrip(p: DatePreset)
    requires
        p != DatePreset::Iso,
    ensures
        detected_date_preset(date_preset_config_spec(p).month) == p,
{
}

} // verus!
