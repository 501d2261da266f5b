//! The widget's configuration, its defaults, and the flat record it is
//! stored as, where any field may be missing.
use crate::geometry::{FitMode, Pos, Presets, ResizeAnchor, Size};
use crate::playlist::OrientationFilter;
use vstd::prelude::*;

verus! {

/// The unit in which the refresh interval is shown.
#[derive(Clone, Copy, Debug, PartialEq, Eq, Structural)]
pub enum TimeUnit {
    Seconds,
    Minutes,
    Hours,
}

pub open spec fn seconds_per(unit: TimeUnit) -> nat {
    match unit {
        TimeUnit::Seconds => 1,
        TimeUnit::Minutes => 60,
        TimeUnit::Hours => 3600,
    }
}

/// The number of seconds in one `unit`.
pub fn unit_seconds(unit: TimeUnit) -> (r: u64)
    ensures
        r == seconds_per(unit),
{
    match unit {
        TimeUnit::Seconds => 1,
        TimeUnit::Minutes => 60,
        TimeUnit::Hours => 3600,
    }
}

/// `value` units in seconds, saturating at `u64::MAX`.
pub open spec fn interval_of(value: u64, unit: TimeUnit) -> u64 {
    let s = value * seconds_per(unit);
    if s > u64::MAX {
        u64::MAX
    } else {
        s as u64
    }
}

/// Converts a displayed refresh setting into seconds.
pub fn interval_seconds(value: u64, unit: TimeUnit) -> (r: u64)
    ensures
        r == interval_of(value, unit),
{
    let m = unit_seconds(unit);
    if value > u64::MAX / m {
        proof {
            assert(value * m > u64::MAX) by (nonlinear_arith)
                requires
                    value > u64::MAX / m,
                    m > 0,
            ;
        }
        u64::MAX
    } else {
        proof {
            assert(value * m <= u64::MAX) by (nonlinear_arith)
                requires
                    value <= u64::MAX / m,
                    m > 0,
            ;
        }
        value * m
    }
}

/// The largest unit that divides a positive interval, and the count of it.
pub open spec fn display_of(interval: u64) -> (u64, TimeUnit) {
    if interval % 3600 == 0 {
        ((interval / 3600) as u64, TimeUnit::Hours)
    } else if interval % 60 == 0 {
        ((interval / 60) as u64, TimeUnit::Minutes)
    } else {
        (interval, TimeUnit::Seconds)
    }
}

/// Splits an interval in seconds into the value and unit to show.
pub fn display_refresh(interval: u64) -> (r: (u64, TimeUnit))
    ensures
        r == display_of(interval),
{
    if interval % 3600 == 0 {
        (interval / 3600, TimeUnit::Hours)
    } else if interval % 60 == 0 {
        (interval / 60, TimeUnit::Minutes)
    } else {
        (interval, TimeUnit::Seconds)
    }
}

/// Showing an interval in its largest whole unit and reading it back gives
/// the same number of seconds.
pub proof fn lemma_display_round_trip(interval: u64)
    ensures
        interval_of(display_of(interval).0, display_of(interval).1) == interval,
{
    let (v, u) = display_of(interval);
    if interval % 3600 == 0 {
        assert(v * 3600 == interval);
    } else if interval % 60 == 0 {
        assert(v * 60 == interval);
    }
}

/// Everything the widget is configured with.
#[derive(Debug)]
pub struct AppConfig {
    pub folders: Vec<String>,
    pub always_on_top: bool,
    /// Seconds between image changes; 0 turns automatic changes off.
    pub refresh_interval: u64,
    pub refresh_value: u64,
    pub refresh_unit: TimeUnit,
    pub landscape_width: u32,
    pub landscape_height: u32,
    pub portrait_width: u32,
    pub portrait_height: u32,
    pub fit_mode: FitMode,
    pub resize_anchor: ResizeAnchor,
    pub orientation_filter: OrientationFilter,
    /// Where the window was last placed, if it ever was.
    pub window_pos: Option<Pos>,
}

pub const DEFAULT_REFRESH_INTERVAL: u64 = 300;
pub const DEFAULT_REFRESH_VALUE: u64 = 5;
pub const DEFAULT_LANDSCAPE_WIDTH: u32 = 400;
pub const DEFAULT_LANDSCAPE_HEIGHT: u32 = 300;
pub const DEFAULT_PORTRAIT_WIDTH: u32 = 300;
pub const DEFAULT_PORTRAIT_HEIGHT: u32 = 400;

/// The defaults: no folders, not on top, a new image every five minutes,
/// 400x300 landscape and 300x400 portrait, `Cover`, centered, both
/// orientations, and no remembered position.
pub open spec fn is_default(c: AppConfig) -> bool {
    &&& c.folders@.len() == 0
    &&& !c.always_on_top
    &&& c.refresh_interval == DEFAULT_REFRESH_INTERVAL
    &&& c.refresh_value == DEFAULT_REFRESH_VALUE
    &&& c.refresh_unit == TimeUnit::Minutes
    &&& c.landscape_width == DEFAULT_LANDSCAPE_WIDTH
    &&& c.landscape_height == DEFAULT_LANDSCAPE_HEIGHT
    &&& c.portrait_width == DEFAULT_PORTRAIT_WIDTH
    &&& c.portrait_height == DEFAULT_PORTRAIT_HEIGHT
    &&& c.fit_mode == FitMode::Cover
    &&& c.resize_anchor == ResizeAnchor::Center
    &&& c.orientation_filter == OrientationFilter::Both
    &&& c.window_pos.is_none()
}

impl Default for AppConfig {
    fn default() -> (r: Self)
        ensures
            is_default(r),
    {
        AppConfig {
            folders: Vec::new(),
            always_on_top: false,
            refresh_interval: DEFAULT_REFRESH_INTERVAL,
            refresh_value: DEFAULT_REFRESH_VALUE,
            refresh_unit: TimeUnit::Minutes,
            landscape_width: DEFAULT_LANDSCAPE_WIDTH,
            landscape_height: DEFAULT_LANDSCAPE_HEIGHT,
            portrait_width: DEFAULT_PORTRAIT_WIDTH,
            portrait_height: DEFAULT_PORTRAIT_HEIGHT,
            fit_mode: FitMode::Cover,
            resize_anchor: ResizeAnchor::Center,
            orientation_filter: OrientationFilter::Both,
            window_pos: None,
        }
    }
}

/// The stored form of the configuration: each field as read, or `None`
/// where it was missing or could not be read.
#[derive(Debug)]
pub struct ConfigRecord {
    pub folders: Option<Vec<String>>,
    pub always_on_top: Option<bool>,
    pub refresh_interval: Option<u64>,
    pub refresh_value: Option<u64>,
    pub refresh_unit: Option<TimeUnit>,
    pub landscape_width: Option<u32>,
    pub landscape_height: Option<u32>,
    pub portrait_width: Option<u32>,
    pub portrait_height: Option<u32>,
    pub fit_mode: Option<FitMode>,
    pub resize_anchor: Option<ResizeAnchor>,
    pub orientation_filter: Option<OrientationFilter>,
    pub window_pos: Option<Pos>,
}

pub open spec fn or_default<T>(v: Option<T>, d: T) -> T {
    match v {
        Some(x) => x,
        None => d,
    }
}

/// The configuration a record describes: each field that is present is
/// taken, each missing one has its default.
pub open spec fn config_of_record(rec: ConfigRecord, c: AppConfig) -> bool {
    &&& c.folders@ == (match rec.folders {
        Some(f) => f@,
        None => Seq::empty(),
    })
    &&& c.always_on_top == or_default(rec.always_on_top, false)
    &&& c.refresh_interval == or_default(rec.refresh_interval, DEFAULT_REFRESH_INTERVAL)
    &&& c.refresh_value == or_default(rec.refresh_value, DEFAULT_REFRESH_VALUE)
    &&& c.refresh_unit == or_default(rec.refresh_unit, TimeUnit::Minutes)
    &&& c.landscape_width == or_default(rec.landscape_width, DEFAULT_LANDSCAPE_WIDTH)
    &&& c.landscape_height == or_default(rec.landscape_height, DEFAULT_LANDSCAPE_HEIGHT)
    &&& c.portrait_width == or_default(rec.portrait_width, DEFAULT_PORTRAIT_WIDTH)
    &&& c.portrait_height == or_default(rec.portrait_height, DEFAULT_PORTRAIT_HEIGHT)
    &&& c.fit_mode == or_default(rec.fit_mode, FitMode::Cover)
    &&& c.resize_anchor == or_default(rec.resize_anchor, ResizeAnchor::Center)
    &&& c.orientation_filter == or_default(rec.orientation_filter, OrientationFilter::Both)
    &&& c.window_pos == rec.window_pos
}

/// The record that stores a configuration: every field present.
pub open spec fn record_of_config(c: AppConfig, rec: ConfigRecord) -> bool {
    &&& rec.folders.is_some() && rec.folders.unwrap()@ == c.folders@
    &&& rec.always_on_top == Some(c.always_on_top)
    &&& rec.refresh_interval == Some(c.refresh_interval)
    &&& rec.refresh_value == Some(c.refresh_value)
    &&& rec.refresh_unit == Some(c.refresh_unit)
    &&& rec.landscape_width == Some(c.landscape_width)
    &&& rec.landscape_height == Some(c.landscape_height)
    &&& rec.portrait_width == Some(c.portrait_width)
    &&& rec.portrait_height == Some(c.portrait_height)
    &&& rec.fit_mode == Some(c.fit_mode)
    &&& rec.resize_anchor == Some(c.resize_anchor)
    &&& rec.orientation_filter == Some(c.orientation_filter)
    &&& rec.window_pos == c.window_pos
}

/// The two configurations agree on every field.
pub open spec fn same_config(a: AppConfig, b: AppConfig) -> bool {
    &&& a.folders@ == b.folders@
    &&& a.always_on_top == b.always_on_top
    &&& a.refresh_interval == b.refresh_interval
    &&& a.refresh_value == b.refresh_value
    &&& a.refresh_unit == b.refresh_unit
    &&& a.landscape_width == b.landscape_width
    &&& a.landscape_height == b.landscape_height
    &&& a.portrait_width == b.portrait_width
    &&& a.portrait_height == b.portrait_height
    &&& a.fit_mode == b.fit_mode
    &&& a.resize_anchor == b.resize_anchor
    &&& a.orientation_filter == b.orientation_filter
    &&& a.window_pos == b.window_pos
}

/// The two configurations agree on every field but the refresh settings.
pub open spec fn same_but_refresh(a: AppConfig, b: AppConfig) -> bool {
    &&& a.folders@ == b.folders@
    &&& a.always_on_top == b.always_on_top
    &&& a.landscape_width == b.landscape_width
    &&& a.landscape_height == b.landscape_height
    &&& a.portrait_width == b.portrait_width
    &&& a.portrait_height == b.portrait_height
    &&& a.fit_mode == b.fit_mode
    &&& a.resize_anchor == b.resize_anchor
    &&& a.orientation_filter == b.orientation_filter
    &&& a.window_pos == b.window_pos
}

impl AppConfig {
    /// Builds the configuration from a stored record. It never fails: every
    /// missing field falls back to its default, and a record without a
    /// window position gives a configuration without one.
    pub fn from_record(rec: ConfigRecord) -> (r: AppConfig)
        ensures
            config_of_record(rec, r),
    {
        let folders = match rec.folders {
            Some(f) => f,
            None => Vec::new(),
        };
        AppConfig {
            folders,
            always_on_top: match rec.always_on_top {
                Some(v) => v,
                None => false,
            },
            refresh_interval: match rec.refresh_interval {
                Some(v) => v,
                None => DEFAULT_REFRESH_INTERVAL,
            },
            refresh_value: match rec.refresh_value {
                Some(v) => v,
                None => DEFAULT_REFRESH_VALUE,
            },
            refresh_unit: match rec.refresh_unit {
                Some(v) => v,
                None => TimeUnit::Minutes,
            },
            landscape_width: match rec.landscape_width {
                Some(v) => v,
                None => DEFAULT_LANDSCAPE_WIDTH,
            },
            landscape_height: match rec.landscape_height {
                Some(v) => v,
                None => DEFAULT_LANDSCAPE_HEIGHT,
            },
            portrait_width: match rec.portrait_width {
                Some(v) => v,
                None => DEFAULT_PORTRAIT_WIDTH,
            },
            portrait_height: match rec.portrait_height {
                Some(v) => v,
                None => DEFAULT_PORTRAIT_HEIGHT,
            },
            fit_mode: match rec.fit_mode {
                Some(v) => v,
                None => FitMode::Cover,
            },
            resize_anchor: match rec.resize_anchor {
                Some(v) => v,
                None => ResizeAnchor::Center,
            },
            orientation_filter: match rec.orientation_filter {
                Some(v) => v,
                None => OrientationFilter::Both,
            },
            window_pos: rec.window_pos,
        }
    }

    /// The record that stores this configuration.
    pub fn to_record(&self) -> (r: ConfigRecord)
        ensures
            record_of_config(*self, r),
    {
        let folders = clone_paths(&self.folders);
        ConfigRecord {
            folders: Some(folders),
            always_on_top: Some(self.always_on_top),
            refresh_interval: Some(self.refresh_interval),
            refresh_value: Some(self.refresh_value),
            refresh_unit: Some(self.refresh_unit),
            landscape_width: Some(self.landscape_width),
            landscape_height: Some(self.landscape_height),
            portrait_width: Some(self.portrait_width),
            portrait_height: Some(self.portrait_height),
            fit_mode: Some(self.fit_mode),
            resize_anchor: Some(self.resize_anchor),
            orientation_filter: Some(self.orientation_filter),
            window_pos: self.window_pos,
        }
    }

    /// The size presets of the two orientations.
    pub fn presets(&self) -> (r: Presets)
        ensures
            r.landscape == (Size { width: self.landscape_width, height: self.landscape_height }),
            r.portrait == (Size { width: self.portrait_width, height: self.portrait_height }),
    {
        Presets {
            landscape: Size { width: self.landscape_width, height: self.landscape_height },
            portrait: Size { width: self.portrait_width, height: self.portrait_height },
        }
    }

    /// Shows a positive refresh interval in its largest whole unit; a zero
    /// interval leaves the shown value and unit as they are.
    pub fn normalize_refresh_display(&mut self)
        ensures
            old(self).refresh_interval > 0 ==> (final(self).refresh_value, final(self).refresh_unit)
                == display_of(old(self).refresh_interval),
            old(self).refresh_interval == 0 ==> final(self).refresh_value == old(self).refresh_value
                && final(self).refresh_unit == old(self).refresh_unit,
            final(self).refresh_interval == old(self).refresh_interval,
            same_but_refresh(*final(self), *old(self)),
    {
        if self.refresh_interval > 0 {
            let (v, u) = display_refresh(self.refresh_interval);
            self.refresh_value = v;
            self.refresh_unit = u;
        }
    }

    /// Sets the interval from the shown value and unit.
    pub fn apply_refresh_display(&mut self)
        ensures
            final(self).refresh_interval == interval_of(old(self).refresh_value, old(self).refresh_unit),
            final(self).refresh_value == old(self).refresh_value,
            final(self).refresh_unit == old(self).refresh_unit,
            same_but_refresh(*final(self), *old(self)),
    {
        self.refresh_interval = interval_seconds(self.refresh_value, self.refresh_unit);
    }
}

/// A copy of a list of paths.
pub fn clone_paths(v: &Vec<String>) -> (r: Vec<String>)
    ensures
        r@ == v@,
{
    let mut out: Vec<String> = Vec::new();
    let mut i: usize = 0;
    while i < v.len()
        invariant
            i <= v@.len(),
            out@ == v@.take(i as int),
        decreases v@.len() - i,
    {
        out.push(v[i].clone());
        assert(out@ =~= v@.take(i + 1));
        i += 1;
    }
    assert(v@.take(v@.len() as int) =~= v@);
    out
}

/// A record read back from a stored configuration gives that configuration.
pub proof fn lemma_record_round_trip(c: AppConfig, rec: ConfigRecord, back: AppConfig)
    requires
        record_of_config(c, rec),
        config_of_record(rec, back),
    ensures
        same_config(back, c),
{
}

/// A record that lacks the window position still gives a configuration,
/// and that configuration has no window position.
pub proof fn lemma_missing_position_is_unset(rec: ConfigRecord, c: AppConfig)
    requires
        rec.window_pos.is_none(),
        config_of_record(rec, c),
    ensures
        c.window_pos.is_none(),
{
}

} // verus!
