//! The state of one frame.
//!
//! A [`Ui`] is made anew for every frame. It holds the theme, the layout
//! cursor and the frame's pointer sample, and answers each widget's request
//! for space with the rectangle it may occupy and the interaction that falls
//! on exactly that rectangle.
use vstd::prelude::*;
use crate::error::{GuiError, GuiResult};
use crate::geometry::{Point, Rectangle, Size};
use crate::interaction::{classify, spec_classify, Interaction, PointerSample, PointerState};
use crate::placer::Placer;
use crate::style::Style;

verus! {

/// What a widget is granted: its rectangle, and the interaction evaluated
/// against that rectangle.
#[derive(Clone, Copy, Debug, PartialEq, Eq, Structural)]
pub struct InternalResponse {
    pub area: Rectangle,
    pub interaction: Interaction,
}

/// What a widget reports to the caller.
#[derive(Clone, Copy, Debug, PartialEq, Eq, Structural)]
pub struct Response {
    /// The rectangle and the raw interaction.
    pub internal: InternalResponse,
    /// Whether a click was completed on the widget in this frame.
    pub click: bool,
    /// Whether the button is held down on the widget.
    pub down: bool,
}

/// The pointer as one frame sees it.
#[derive(Clone, Copy, Debug, PartialEq, Eq, Structural)]
pub struct Pointer {
    /// The sample of this frame.
    pub sample: PointerSample,
    /// What was known before this frame.
    pub previous: PointerState,
}

/// The state of one frame.
#[derive(Clone, Copy, Debug)]
pub struct Ui<COL> {
    /// The theme.
    pub style: Style<COL>,
    /// The layout cursor.
    pub placer: Placer,
    /// The frame's pointer, if there is an input source.
    pub pointer: Option<Pointer>,
    /// Whether a widget of this frame has already taken the pointer.
    pub claimed: bool,
}

impl InternalResponse {
    pub fn new(area: Rectangle, interaction: Interaction) -> (r: Self)
        ensures
            r == (InternalResponse { area, interaction }),
    {
        InternalResponse { area, interaction }
    }
}

impl Response {
    /// A response that reports neither a click nor a held button.
    pub fn new(internal: InternalResponse) -> (r: Self)
        ensures
            r == (Response { internal, click: false, down: false }),
    {
        Response { internal, click: false, down: false }
    }

    pub fn set_clicked(self, click: bool) -> (r: Self)
        ensures
            r == (Response { click, ..self }),
    {
        Response { click, ..self }
    }

    pub fn set_down(self, down: bool) -> (r: Self)
        ensures
            r == (Response { down, ..self }),
    {
        Response { down, ..self }
    }

    /// Whether a press and release inside the widget was completed in this
    /// frame.
    pub fn clicked(&self) -> (click: bool)
        ensures
            click == self.click,
    {
        self.click
    }

    /// Whether the widget is pressed or dragged.
    pub fn down(&self) -> (down: bool)
        ensures
            down == self.down,
    {
        self.down
    }

    /// The rectangle the widget occupies in this frame.
    pub fn area(&self) -> (area: Rectangle)
        ensures
            area == self.internal.area,
    {
        self.internal.area
    }
}

impl<COL: Copy> Ui<COL> {
    /// The invariant of a frame: the cursor is valid and leaves the theme's gap
    /// between items.
    pub open spec fn wf(self) -> bool {
        self.placer.wf() && self.placer.spacing == self.style.spacing.item_spacing
    }

    /// The interaction that a widget occupying `area` is given. Once a widget
    /// of the frame has taken the pointer, every later one is idle: where
    /// rectangles overlap, the first in traversal order wins.
    pub open spec fn outcome_for(self, area: Rectangle) -> Interaction {
        if self.claimed {
            Interaction::Idle
        } else {
            match self.pointer {
                Some(pointer) => spec_classify(area, pointer.sample, pointer.previous),
                None => Interaction::Idle,
            }
        }
    }

    /// What a request for `size` is answered with, where it fits.
    pub open spec fn granted(self, size: Size) -> InternalResponse {
        InternalResponse {
            area: self.placer.granted(size),
            interaction: self.outcome_for(self.placer.granted(size)),
        }
    }

    /// The frame after a request for `size` has been granted.
    pub open spec fn after_allocation(self, size: Size) -> Ui<COL> {
        Ui {
            placer: self.placer.after_allocate(size),
            claimed: self.claimed || self.granted(size).interaction != Interaction::Idle,
            ..self
        }
    }

    /// A frame over `bounds`, without a pointer. Widgets are placed inside the
    /// theme's window padding, beginning at the top-left corner.
    pub fn new(bounds: Rectangle, style: Style<COL>) -> (ui: Self)
        requires
            bounds.representable(),
        ensures
            ui.wf(),
            ui.style == style,
            ui.placer == (Placer {
                bounds: bounds.spec_inset(style.spacing.window_border_padding),
                spacing: style.spacing.item_spacing,
                x: 0,
                y: 0,
                row_height: 0,
            }),
            ui.pointer.is_none(),
            !ui.claimed,
    {
        Ui {
            style,
            placer: Placer::new(
                bounds.inset(style.spacing.window_border_padding),
                style.spacing.item_spacing,
            ),
            pointer: None,
            claimed: false,
        }
    }

    /// A frame over a whole display of the given size, whose top-left pixel is
    /// the origin.
    pub fn new_fullscreen(display: Size, style: Style<COL>) -> (ui: Self)
        requires
            display.width <= i32::MAX,
            display.height <= i32::MAX,
        ensures
            ui.wf(),
            ui.style == style,
            ui.placer == (Placer {
                bounds: (Rectangle { top_left: Point { x: 0, y: 0 }, size: display }).spec_inset(
                    style.spacing.window_border_padding,
                ),
                spacing: style.spacing.item_spacing,
                x: 0,
                y: 0,
                row_height: 0,
            }),
            ui.pointer.is_none(),
            !ui.claimed,
    {
        Ui::new(Rectangle { top_left: Point { x: 0, y: 0 }, size: display }, style)
    }

    /// Gives the frame its pointer: the sample of this frame and what was
    /// known before it.
    pub fn interact(&mut self, sample: PointerSample, previous: PointerState)
        ensures
            *final(self) == (Ui { pointer: Some(Pointer { sample, previous }), ..*old(self) }),
    {
        self.pointer = Some(Pointer { sample, previous });
    }

    /// The theme.
    pub fn style(&self) -> (style: &Style<COL>)
        ensures
            *style == self.style,
    {
        &self.style
    }

    /// The height of the tallest widget placed in the current row so far.
    pub fn get_row_height(&self) -> (h: u32)
        ensures
            h == self.placer.row_height,
    {
        self.placer.row_height()
    }

    /// Begins a new row, or reports that the area has no room for one and
    /// leaves the frame as it is.
    pub fn new_row(&mut self) -> (result: GuiResult<()>)
        requires
            old(self).wf(),
        ensures
            final(self).wf(),
            old(self).placer.has_next_row() ==> result == Ok::<(), GuiError>(()) && *final(self)
                == (Ui { placer: old(self).placer.after_new_row(), ..*old(self) }),
            !old(self).placer.has_next_row() ==> result == Err::<(), GuiError>(
                GuiError::AllocationExhausted,
            ) && *final(self) == *old(self),
    {
        self.placer.new_row()
    }

    /// Asks for a rectangle of exactly `desired` at the cursor.
    ///
    /// Where it fits, the widget is given the rectangle and the interaction of
    /// the frame's pointer with that rectangle, and the cursor moves on. Where
    /// it does not, the frame is left as it is and the failure is reported; it
    /// is for the caller to begin a new row, to clip or to stop.
    pub fn allocate_space(&mut self, desired: Size) -> (result: GuiResult<InternalResponse>)
        requires
            old(self).wf(),
        ensures
            final(self).wf(),
            old(self).placer.fits(desired.width as int, desired.height as int) ==> result == Ok::<
                InternalResponse,
                GuiError,
            >(old(self).granted(desired)) && *final(self) == old(self).after_allocation(desired),
            !old(self).placer.fits(desired.width as int, desired.height as int) ==> result
                == Err::<InternalResponse, GuiError>(GuiError::AllocationExhausted) && *final(self)
                == *old(self),
    {
        let area = match self.placer.allocate(desired) {
            Ok(area) => area,
            Err(error) => {
                return Err(error);
            },
        };
        let interaction = if self.claimed {
            Interaction::Idle
        } else {
            match &self.pointer {
                Some(pointer) => classify(&area, &pointer.sample, &pointer.previous),
                None => Interaction::Idle,
            }
        };
        if !matches!(interaction, Interaction::Idle) {
            self.claimed = true;
        }
        Ok(InternalResponse { area, interaction })
    }

    /// In one frame at most one widget is given an interaction: of two
    /// rectangles granted one after the other, one is idle.
    pub proof fn lemma_one_widget_takes_the_pointer(self, first: Size, second: Size)
        ensures
            self.granted(first).interaction == Interaction::Idle || self.after_allocation(
                first,
            ).granted(second).interaction == Interaction::Idle,
    {
    }
}

} // verus!
