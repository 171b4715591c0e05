//! Which built-in palette the UI is drawn with. The colors themselves are
//! chosen by the drawing code; the library only tracks and toggles the mode.
use vstd::prelude::*;

verus! {

/// Which built-in palette is active.
#[derive(Debug, Clone, Copy, PartialEq, Eq, Structural)]
pub enum ThemeMode {
    Dark,
    Light,
}

impl ThemeMode {
    pub open spec fn toggled_spec(self) -> Self {
        match self {
            ThemeMode::Dark => ThemeMode::Light,
            ThemeMode::Light => ThemeMode::Dark,
        }
    }

    /// The default palette.
    pub fn default() -> (r: Self)
        ensures
            r == ThemeMode::Dark,
    {
        ThemeMode::Dark
    }

    /// The other mode — used by the theme-toggle keybinding.
    pub fn toggled(self) -> (r: Self)
        ensures
            r == self.toggled_spec(),
            r != self,
    {
        match self {
            ThemeMode::Dark => ThemeMode::Light,
            ThemeMode::Light => ThemeMode::Dark,
        }
    }
}

/// Toggling twice gives back the mode one started from.
pub proof fn law_theme_toggle_involution(m: ThemeMode)
    ensures
        m.toggled_spec().toggled_spec() == m,
{
}

/// How a percentage gauge is colored: healthy, warning or critical.
#[derive(Debug, Clone, Copy, PartialEq, Eq, Structural)]
pub enum GaugeLevel {
    Normal,
    Warning,
    Critical,
}

/// Gauge level for a usage percentage given in hundredths of a percent:
/// critical from 90%, warning from 70%, otherwise normal.
pub open spec fn gauge_level_spec(pct_x100: u64) -> GaugeLevel {
    if pct_x100 >= 9000 {
        GaugeLevel::Critical
    } else if pct_x100 >= 7000 {
        GaugeLevel::Warning
    } else {
        GaugeLevel::Normal
    }
}

pub fn gauge_level(pct_x100: u64) -> (r: GaugeLevel)
    ensures
        r == gauge_level_spec(pct_x100),
{
    if pct_x100 >= 9000 {
        GaugeLevel::Critical
    } else if pct_x100 >= 7000 {
        GaugeLevel::Warning
    } else {
        GaugeLevel::Normal
    }
}

} // verus!
