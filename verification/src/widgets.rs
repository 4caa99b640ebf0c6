//! What the widgets of the interface decide before they paint.

use vstd::prelude::*;

use crate::theme::{
    arc_border_soft, arc_danger, arc_fg_dim, arc_foreground, arc_input, arc_muted, arc_muted_text,
    arc_primary, arc_primary_foreground, arc_white, Rgb,
};
use crate::theme::{
    border_soft_rgb, danger_rgb, fg_dim_rgb, foreground_rgb, input_rgb, muted_rgb, muted_text_rgb,
    primary_foreground_rgb, primary_rgb, white_rgb,
};

verus! {

// ----- the stepper ----------------------------------------------------------------

/// How far a step is.
#[derive(Debug, Clone, Copy, PartialEq, Eq, Structural)]
pub enum StageState {
    Done,
    Current,
    Pending,
}

/// A step that is done is done, whether or not it is the current one.
pub open spec fn stage_of(done: bool, current: bool) -> StageState {
    if done {
        StageState::Done
    } else if current {
        StageState::Current
    } else {
        StageState::Pending
    }
}

pub fn stage(done: bool, current: bool) -> (r: StageState)
    ensures
        r == stage_of(done, current),
{
    if done {
        StageState::Done
    } else if current {
        StageState::Current
    } else {
        StageState::Pending
    }
}

/// One node of the stepper.
pub struct StepperNode<'a> {
    /// The number of the step, from one on, which a pending node shows.
    pub number: usize,
    pub label: &'a str,
    pub sub: &'a str,
    pub state: StageState,
}

/// The colour of the line down to the next node: gold once the step is done.
/// The last node has none.
pub open spec fn connector(state: StageState, index: nat, count: nat) -> Option<Rgb> {
    if index + 1 < count {
        Some(
            if state == StageState::Done {
                primary_rgb()
            } else {
                border_soft_rgb()
            },
        )
    } else {
        None
    }
}

/// The colour of a step's label.
pub open spec fn step_label(state: StageState) -> Rgb {
    match state {
        StageState::Current => foreground_rgb(),
        StageState::Pending => fg_dim_rgb(),
        StageState::Done => muted_text_rgb(),
    }
}

impl<'a> StepperNode<'a> {
    /// The colour of the line down to the next of `count` nodes.
    pub fn connector_color(&self, index: usize, count: usize) -> (r: Option<Rgb>)
        ensures
            r == connector(self.state, index as nat, count as nat),
    {
        if index < count && count - index > 1 {
            if self.state == StageState::Done {
                Some(arc_primary())
            } else {
                Some(arc_border_soft())
            }
        } else {
            None
        }
    }

    pub fn label_color(&self) -> (r: Rgb)
        ensures
            r == step_label(self.state),
    {
        match self.state {
            StageState::Current => arc_foreground(),
            StageState::Pending => arc_fg_dim(),
            StageState::Done => arc_muted_text(),
        }
    }
}

// ----- buttons --------------------------------------------------------------------

/// The colours of a segment of the launcher toggle.
#[derive(Debug, Clone, Copy, PartialEq, Eq, Structural)]
pub struct SegmentPaint {
    pub fill: Rgb,
    pub text: Rgb,
    pub bordered: bool,
}

/// The colours of a segment: gold and without a border where it is selected.
pub fn segment_paint(selected: bool) -> (r: SegmentPaint)
    ensures
        r == (if selected {
            SegmentPaint { fill: primary_rgb(), text: primary_foreground_rgb(), bordered: false }
        } else {
            SegmentPaint { fill: input_rgb(), text: foreground_rgb(), bordered: true }
        }),
{
    if selected {
        SegmentPaint { fill: arc_primary(), text: arc_primary_foreground(), bordered: false }
    } else {
        SegmentPaint { fill: arc_input(), text: arc_foreground(), bordered: true }
    }
}

/// A control of the window.
#[derive(Debug, Clone, Copy, PartialEq, Eq, Structural)]
pub enum WindowButton {
    Minimize,
    Maximize,
    Restore,
    Close,
}

/// The colours of a button that has no frame of its own: what is filled in
/// behind it, and its glyph.
#[derive(Debug, Clone, Copy, PartialEq, Eq, Structural)]
pub struct GhostPaint {
    pub fill: Option<Rgb>,
    pub glyph: Rgb,
}

/// The colours of a frameless button; under the pointer it gets a faint fill.
pub open spec fn ghost(hovered: bool) -> GhostPaint {
    if hovered {
        GhostPaint { fill: Some(muted_rgb()), glyph: foreground_rgb() }
    } else {
        GhostPaint { fill: None, glyph: muted_text_rgb() }
    }
}

pub fn ghost_paint(hovered: bool) -> (r: GhostPaint)
    ensures
        r == ghost(hovered),
{
    if hovered {
        GhostPaint { fill: Some(arc_muted()), glyph: arc_foreground() }
    } else {
        GhostPaint { fill: None, glyph: arc_muted_text() }
    }
}

impl WindowButton {
    /// The colours of a window control: as any frameless button, but the close
    /// button turns red under the pointer.
    pub fn paint(self, hovered: bool) -> (r: GhostPaint)
        ensures
            r == (if self == WindowButton::Close && hovered {
                GhostPaint { fill: Some(danger_rgb()), glyph: white_rgb() }
            } else {
                ghost(hovered)
            }),
    {
        if self == WindowButton::Close && hovered {
            GhostPaint { fill: Some(arc_danger()), glyph: arc_white() }
        } else {
            ghost_paint(hovered)
        }
    }

    /// The control that changes the size of the window.
    pub fn resize(maximized: bool) -> (r: WindowButton)
        ensures
            r == (if maximized {
                WindowButton::Restore
            } else {
                WindowButton::Maximize
            }),
    {
        if maximized {
            WindowButton::Restore
        } else {
            WindowButton::Maximize
        }
    }
}

} // verus!
