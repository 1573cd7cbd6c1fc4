//! Theme and style selectors.
use vstd::prelude::*;

verus! {

/// The colour theme.
#[derive(Debug, Clone, Copy, PartialEq, Eq, Structural)]
pub enum Theme {
    Light,
    Dark,
}

impl Default for Theme {
    fn default() -> (r: Theme)
        ensures
            r == Theme::Dark,
    {
        Theme::Dark
    }
}

/// The style variants of the horizontal slider.
#[derive(Debug, Clone, Copy, PartialEq, Eq, Structural)]
pub enum HSliderStyleType {
    Classic,
}

impl Default for HSliderStyleType {
    fn default() -> (r: HSliderStyleType)
        ensures
            r == HSliderStyleType::Classic,
    {
        HSliderStyleType::Classic
    }
}

/// The style variants of text.
#[derive(Debug, Clone, Copy, PartialEq, Eq, Structural)]
pub enum TextStyle {
    Default,
}

impl Default for TextStyle {
    fn default() -> (r: TextStyle)
        ensures
            r == TextStyle::Default,
    {
        TextStyle::Default
    }
}

/// The style variants of check boxes.
#[derive(Debug, Clone, Copy, PartialEq, Eq, Structural)]
pub enum CheckboxStyle {
    Default,
}

impl Default for CheckboxStyle {
    fn default() -> (r: CheckboxStyle)
        ensures
            r == CheckboxStyle::Default,
    {
        CheckboxStyle::Default
    }
}

} // verus!
