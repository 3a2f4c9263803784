//! Vocabulary of the slide display that shares the device: the kinds of
//! background and effect that a slide can ask for, and where an image sits.

use vstd::prelude::*;

verus! {

/// The effect slots of the display; each holds at most one running effect.
#[derive(Debug, Default, Clone, Copy, PartialEq, Eq, PartialOrd, Ord)]
pub enum DeckFx {
    /// The effect that plays when the slide changes.
    #[default]
    Transition,
    /// The effect that plays on the background.
    Bg,
}

/// Where the image of a slide sits.
#[derive(Debug, Clone, Copy, PartialEq, Eq, Structural)]
pub enum ImagePosition {
    Left,
    Center,
    Right,
}

/// The animated backgrounds.
#[derive(Debug, Clone, Copy, PartialEq, Eq, Structural)]
pub enum Background {
    Waves,
    Aurora,
    Nebula,
    Hyper,
}

/// A slide that shows a title over an animated background.
#[derive(Debug)]
pub struct TitleSlide {
    pub title: &'static str,
    pub background: Background,
}

} // verus!
