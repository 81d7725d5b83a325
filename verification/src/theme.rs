//! Light / dark display theme.
use vstd::prelude::*;
use crate::text::{spec_starts_with, starts_with};

verus! {

/// Display theme.
#[derive(Clone, Copy, PartialEq, Eq, Debug, Structural)]
pub enum Theme {
    Dark,
    Light,
}

pub open spec fn spec_toggle_theme(t: Theme) -> Theme {
    match t {
        Theme::Dark => Theme::Light,
        Theme::Light => Theme::Dark,
    }
}

impl Theme {
    /// The theme to start with, from the stored choice: a stored value starting
    /// with `dark` means dark; any other stored value, or none, means light.
    pub fn from_stored(stored: Option<&str>) -> (r: Self)
        ensures
            r == (match stored {
                Some(s) => if spec_starts_with(s@, "dark"@) { Theme::Dark } else { Theme::Light },
                None => Theme::Light,
            }),
    {
        match stored {
            Some(s) => {
                if starts_with(s, "dark") { Theme::Dark } else { Theme::Light }
            }
            None => Theme::Light,
        }
    }

    /// The other theme.
    pub fn toggle(self) -> (r: Self)
        ensures
            r == spec_toggle_theme(self),
    {
        match self {
            Self::Dark => Self::Light,
            Self::Light => Self::Dark,
        }
    }

    /// Whether this is the dark theme.
    pub fn is_dark(self) -> (r: bool)
        ensures
            r == (self == Theme::Dark),
    {
        self == Self::Dark
    }

    /// The attribute value naming the theme: `dark` or `light`.
    pub fn attr(self) -> (r: &'static str)
        ensures
            r@ == (match self {
                Theme::Dark => "dark"@,
                Theme::Light => "light"@,
            }),
    {
        match self {
            Self::Dark => "dark",
            Self::Light => "light",
        }
    }
}

/// Toggling twice gives back the theme one started with.
pub proof fn theme_toggle_involutive(t: Theme)
    ensures
        spec_toggle_theme(spec_toggle_theme(t)) == t,
{
}

} // verus!
