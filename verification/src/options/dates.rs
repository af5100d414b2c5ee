//! Date formatting configuration.

use vstd::prelude::*;
use crate::options::localization::MonthFormat;
use crate::text::opt_view;
use crate::presets::{date_preset_config_spec, DatePreset};

verus! {

/// Time display format.
#[derive(Debug, Clone, Copy, PartialEq, Eq, Structural)]
pub enum TimeFormat {
    /// 12-hour clock with AM/PM (e.g., "11:30 PM").
    Hour12,
    /// 24-hour clock (e.g., "23:30").
    Hour24,
}

/// Date formatting configuration.
#[derive(Debug, Clone, PartialEq)]
pub struct DateConfig {
    pub month: MonthFormat,
    /// Marker for uncertain dates; `None` suppresses display.
    pub uncertainty_marker: Option<String>,
    /// Marker for approximate dates; `None` suppresses display.
    pub approximation_marker: Option<String>,
    /// Delimiter for date ranges (default: en-dash).
    pub range_delimiter: String,
    /// Marker for open-ended ranges; `None` uses the locale default.
    pub open_range_marker: Option<String>,
    /// Time display format; `None` suppresses time rendering.
    pub time_format: Option<TimeFormat>,
    /// Whether to include seconds in time display.
    pub show_seconds: bool,
    /// Whether to include the timezone in time display.
    pub show_timezone: bool,
}


/// The contents of a date configuration, strings by their views.
pub struct DateConfigView {
    pub month: MonthFormat,
    pub uncertainty_marker: Option<Seq<char>>,
    pub approximation_marker: Option<Seq<char>>,
    pub range_delimiter: Seq<char>,
    pub open_range_marker: Option<Seq<char>>,
    pub time_format: Option<TimeFormat>,
    pub show_seconds: bool,
    pub show_timezone: bool,
}

impl DateConfig {
    /// The contents of this configuration.
    pub open spec fn view(&self) -> DateConfigView {
        DateConfigView {
            month: self.month,
            uncertainty_marker: opt_view(self.uncertainty_marker),
            approximation_marker: opt_view(self.approximation_marker),
            range_delimiter: self.range_delimiter@,
            open_range_marker: opt_view(self.open_range_marker),
            time_format: self.time_format,
            show_seconds: self.show_seconds,
            show_timezone: self.show_timezone,
        }
    }
}

/// The default date configuration with the given month format: "?" for
/// uncertain dates, "ca. " for approximate ones, an en-dash for ranges.
pub open spec fn default_date_config(month: MonthFormat) -> DateConfigView {
    DateConfigView {
        month,
        uncertainty_marker: Some("?"@),
        approximation_marker: Some("ca. "@),
        range_delimiter: "\u{2013}"@,
        open_range_marker: None,
        time_format: None,
        show_seconds: false,
        show_timezone: false,
    }
}

/// The en-dash used as the default range delimiter.
fn default_range_delimiter() -> (r: String)
    ensures
        r@ == "\u{2013}"@,
{
    String::from_str("\u{2013}")
}

impl Default for DateConfig {
    fn default() -> (r: Self)
        ensures
            r.view() == default_date_config(MonthFormat::Long),
    {
        DateConfig {
            month: MonthFormat::Long,
            uncertainty_marker: Some(String::from_str("?")),
            approximation_marker: Some(String::from_str("ca. ")),
            range_delimiter: default_range_delimiter(),
            open_range_marker: None,
            time_format: None,
            show_seconds: false,
            show_timezone: false,
        }
    }
}

/// Date config: either a preset name or explicit configuration.
#[derive(Debug, Clone, PartialEq)]
pub enum DateConfigEntry {
    /// A named preset (e.g., "long", "short", "numeric", "iso").
    Preset(DatePreset),
    /// Explicit date configuration.
    Explicit(DateConfig),
}

impl DateConfigEntry {
    /// Resolve this entry to a concrete `DateConfig`.
    pub fn resolve(&self) -> (r: DateConfig)
        ensures
            match self {
                DateConfigEntry::Preset(p) => r.view() == date_preset_config_spec(*p),
                DateConfigEntry::Explicit(c) => r == *c,
            },
    {
        match self {
            DateConfigEntry::Preset(preset) => preset.config(),
            DateConfigEntry::Explicit(config) => config.copy(),
        }
    }
}


impl DateConfig {
    /// A copy with the same contents.
    pub fn copy(&self) -> (r: Self)
        ensures
            r == *self,
    {
        DateConfig {
            month: self.month,
            uncertainty_marker: self.uncertainty_marker.clone(),
            approximation_marker: self.approximation_marker.clone(),
            range_delimiter: self.range_delimiter.clone(),
            open_range_marker: self.open_range_marker.clone(),
            time_format: self.time_format,
            show_seconds: self.show_seconds,
            show_timezone: self.show_timezone,
        }
    }
}

} // verus!
