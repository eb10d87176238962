//! Kinds of page transitions.
use vstd::prelude::*;

verus! {

/// Types of page transitions.
#[derive(Debug, Clone, Copy, PartialEq, Eq, Structural)]
pub enum TransitionType {
    /// No transition effect
    NoEffect,
    /// Fade in/out transition
    Fade,
    /// Slide transition (left, right, up, down)
    Slide(SlideDirection),
    /// Push transition (new page pushes old page out)
    Push(SlideDirection),
}

/// Direction for slide and push transitions.
#[derive(Debug, Clone, Copy, PartialEq, Eq, Structural)]
pub enum SlideDirection {
    Left,
    Right,
    Up,
    Down,
}

} // verus!
