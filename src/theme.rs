use vstd::prelude::*;

verus! {

/// Width in logical pixels from which the desktop layout is used.
pub const DESKTOP_MIN_WIDTH: u32 = 768;

/// The colour theme of the site.
#[derive(Clone, Copy, Debug, PartialEq, Eq)]
pub enum Theme {
    Light,
    Dark,
}

/// The page layout chosen from the viewport width.
#[derive(Clone, Copy, Debug, PartialEq, Eq)]
pub enum Layout {
    Desktop,
    Mobile,
}

impl Theme {
    /// The theme the site starts in.
    pub fn initial() -> (r: Theme)
        ensures
            r == Theme::Dark,
    {
        Theme::Dark
    }

    /// The theme after the toggle switch is clicked.
    pub fn toggled(&self) -> (r: Theme)
        ensures
            r != *self,
    {
        match self {
            Theme::Light => Theme::Dark,
            Theme::Dark => Theme::Light,
        }
    }

    /// Whether the toggle switch shows as checked.
    pub fn is_dark(&self) -> (r: bool)
        ensures
            r == (*self == Theme::Dark),
    {
        match self {
            Theme::Light => false,
            Theme::Dark => true,
        }
    }
}

/// The layout for a viewport `width` logical pixels wide.
pub fn layout_for_width(width: u32) -> (r: Layout)
    ensures
        r == (if width >= DESKTOP_MIN_WIDTH { Layout::Desktop } else { Layout::Mobile }),
{
    if width >= DESKTOP_MIN_WIDTH {
        Layout::Desktop
    } else {
        Layout::Mobile
    }
}

} // verus!
