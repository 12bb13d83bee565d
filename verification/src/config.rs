//! Window theme configuration.
//!
//! The host reads an optional configuration file and hands over the chosen
//! theme; a missing or unreadable file falls back to the dark default.
//! Each theme fixes the dialog windows' background color.
use crate::theme::Rgb;
use vstd::prelude::*;

verus! {

/// The window theme a dialog window is created with.
#[derive(Clone, Copy, Debug, Default, PartialEq, Eq, Structural)]
pub enum Theme {
    Light,
    #[default]
    Dark,
}

/// The colors a theme fixes.
#[derive(Clone, Copy, Debug, PartialEq, Eq, Structural)]
pub struct SeekerColors {
    pub background: Rgb,
}

/// A theme's background: black for dark, white for light.
pub open spec fn theme_background(t: Theme) -> Rgb {
    match t {
        Theme::Dark => Rgb { r: 0, g: 0, b: 0 },
        Theme::Light => Rgb { r: 255, g: 255, b: 255 },
    }
}

impl SeekerColors {
    /// The colors of the given theme.
    pub fn from_theme(t: Theme) -> (c: Self)
        ensures
            c.background == theme_background(t),
    {
        match t {
            Theme::Dark => SeekerColors { background: Rgb::new(0, 0, 0) },
            Theme::Light => SeekerColors { background: Rgb::new(255, 255, 255) },
        }
    }
}

/// The loaded configuration: the theme and the colors it fixes.
#[derive(Clone, Copy, Debug)]
pub struct SeekerConfig {
    pub window_theme: Theme,
    pub colors: SeekerColors,
}

impl Default for SeekerConfig {
    /// The configuration used when no file is present: the dark theme.
    fn default() -> (r: Self)
        ensures
            r.window_theme == Theme::Dark,
            r.colors.background == theme_background(Theme::Dark),
    {
        SeekerConfig { window_theme: Theme::Dark, colors: SeekerColors::from_theme(Theme::Dark) }
    }
}

impl SeekerConfig {
    /// The configuration for a theme read from the configuration file.
    pub fn with_theme(t: Theme) -> (r: Self)
        ensures
            r.window_theme == t,
            r.colors.background == theme_background(t),
    {
        SeekerConfig { window_theme: t, colors: SeekerColors::from_theme(t) }
    }
}

} // verus!
