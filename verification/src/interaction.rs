//! From raw pointer samples to one outcome per widget and frame.
//!
//! The input source delivers one [`PointerSample`] per frame. What has to be
//! remembered of earlier frames is a [`PointerState`], which the caller keeps
//! and advances once per frame. [`classify`] is a pure function of a widget's
//! rectangle, the sample and that state.
use vstd::prelude::*;
use crate::geometry::{Point, Rectangle};

verus! {

/// What the pointer does to one widget in one frame. Exactly one of these
/// holds of each widget in each frame.
#[derive(Clone, Copy, Debug, PartialEq, Eq, Structural)]
pub enum Interaction {
    /// The pointer is elsewhere.
    Idle,
    /// The pointer rests on the widget with the button up.
    Hovered,
    /// The button is down on the widget.
    Pressed,
    /// The button is down on the widget and the pointer has left the place
    /// where the press began.
    Dragged,
    /// The button went up on the widget: the click.
    Released,
}

/// The three groups of outcomes that look different on screen.
#[derive(Clone, Copy, Debug, PartialEq, Eq, Structural)]
pub enum Bucket {
    /// No interaction.
    Idle,
    /// The pointer hovers.
    Hover,
    /// Pressed, dragged or released.
    Active,
}

/// What the input source reports once per frame.
#[derive(Clone, Copy, Debug, PartialEq, Eq, Structural)]
pub struct PointerSample {
    pub position: Point,
    pub down: bool,
}

/// What is remembered of the pointer from the frames before the current one.
#[derive(Clone, Copy, Debug, PartialEq, Eq, Structural)]
pub struct PointerState {
    /// Where the pointer was in the previous frame.
    pub position: Point,
    /// Whether the button was down in the previous frame.
    pub down: bool,
    /// Where the pointer was when the button last went down. It is read only
    /// while `down` holds.
    pub origin: Point,
}

impl Interaction {
    /// The group of outcomes that `self` is drawn as.
    pub open spec fn spec_bucket(self) -> Bucket {
        match self {
            Interaction::Idle => Bucket::Idle,
            Interaction::Hovered => Bucket::Hover,
            _ => Bucket::Active,
        }
    }

    /// Whether `self` completes a click.
    pub open spec fn spec_is_click(self) -> bool {
        self == Interaction::Released
    }

    /// Whether `self` has the button held down on the widget.
    pub open spec fn spec_is_down(self) -> bool {
        self == Interaction::Pressed || self == Interaction::Dragged
    }

    /// Groups the outcome by how it is drawn.
    pub fn bucket(&self) -> (b: Bucket)
        ensures
            b == self.spec_bucket(),
    {
        match self {
            Interaction::Idle => Bucket::Idle,
            Interaction::Hovered => Bucket::Hover,
            Interaction::Pressed => Bucket::Active,
            Interaction::Dragged => Bucket::Active,
            Interaction::Released => Bucket::Active,
        }
    }

    /// Tells whether the outcome completes a click.
    pub fn is_click(&self) -> (click: bool)
        ensures
            click == self.spec_is_click(),
    {
        matches!(self, Interaction::Released)
    }

    /// Tells whether the button is held down on the widget.
    pub fn is_down(&self) -> (down: bool)
        ensures
            down == self.spec_is_down(),
    {
        matches!(self, Interaction::Pressed | Interaction::Dragged)
    }
}

impl PointerSample {
    pub fn new(position: Point, down: bool) -> (s: Self)
        ensures
            s == (PointerSample { position, down }),
    {
        PointerSample { position, down }
    }
}

impl PointerState {
    /// The state after `sample`: the sample becomes the previous frame, and
    /// the origin moves only when a press begins.
    pub open spec fn spec_advance(self, sample: PointerSample) -> PointerState {
        PointerState {
            position: sample.position,
            down: sample.down,
            origin: if sample.down && self.down {
                self.origin
            } else {
                sample.position
            },
        }
    }

    /// Whether the previous frame had the button down inside `area`.
    pub open spec fn held_inside(self, area: Rectangle) -> bool {
        self.down && area.spec_contains(self.position)
    }

    /// The state before the first frame: the button is up.
    pub fn new() -> (s: Self)
        ensures
            s == (PointerState {
                position: Point { x: 0, y: 0 },
                down: false,
                origin: Point { x: 0, y: 0 },
            }),
    {
        PointerState { position: Point::zero(), down: false, origin: Point::zero() }
    }

    /// Takes `sample` in at the end of its frame.
    pub fn advance(&mut self, sample: PointerSample)
        ensures
            *final(self) == old(self).spec_advance(sample),
    {
        if !(sample.down && self.down) {
            self.origin = sample.position;
        }
        self.position = sample.position;
        self.down = sample.down;
    }
}

/// The outcome for a widget that occupies `area`, for the frame's `sample` and
/// what was `previous`ly known.
///
/// * Outside the rectangle the outcome is `Idle`.
/// * Inside with the button up it is `Released` in the frame in which the
///   button went up, and `Hovered` otherwise.
/// * Inside with the button down it is `Pressed`, both in the first frame in
///   which the button is down inside the rectangle and for as long as the
///   pointer stays where the press began; once it has moved from there, it is
///   `Dragged`.
pub open spec fn spec_classify(
    area: Rectangle,
    sample: PointerSample,
    previous: PointerState,
) -> Interaction {
    if !area.spec_contains(sample.position) {
        Interaction::Idle
    } else if sample.down {
        if previous.held_inside(area) && sample.position != previous.origin {
            Interaction::Dragged
        } else {
            Interaction::Pressed
        }
    } else if previous.down {
        Interaction::Released
    } else {
        Interaction::Hovered
    }
}

/// Classifies one pointer sample against one widget's rectangle.
pub fn classify(area: &Rectangle, sample: &PointerSample, previous: &PointerState) -> (outcome:
    Interaction)
    ensures
        outcome == spec_classify(*area, *sample, *previous),
{
    if !area.contains(sample.position) {
        return Interaction::Idle;
    }
    if sample.down {
        let held: bool = previous.down && area.contains(previous.position);
        let moved: bool = sample.position.x != previous.origin.x || sample.position.y
            != previous.origin.y;
        if held && moved {
            Interaction::Dragged
        } else {
            Interaction::Pressed
        }
    } else if previous.down {
        Interaction::Released
    } else {
        Interaction::Hovered
    }
}

/// A press that begins inside a rectangle, moves to another place inside it
/// and ends there is seen as `Pressed`, then `Dragged`, then `Released`.
pub proof fn lemma_press_drag_release(
    area: Rectangle,
    before: PointerState,
    start: Point,
    moved: Point,
    end: Point,
)
    requires
        !before.down,
        area.spec_contains(start),
        area.spec_contains(moved),
        area.spec_contains(end),
        moved != start,
    ensures
        ({
            let first = PointerSample { position: start, down: true };
            let second = PointerSample { position: moved, down: true };
            let third = PointerSample { position: end, down: false };
            let s1 = before.spec_advance(first);
            let s2 = s1.spec_advance(second);
            &&& spec_classify(area, first, before) == Interaction::Pressed
            &&& spec_classify(area, second, s1) == Interaction::Dragged
            &&& spec_classify(area, third, s2) == Interaction::Released
        }),
{
}

} // verus!
