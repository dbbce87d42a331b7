//! The layout cursor.
//!
//! A [`Placer`] hands out rectangles inside a drawable area in the order in
//! which widgets ask for them: left to right within a row, rows from top to
//! bottom. It never measures ahead, and what it hands out never overlaps.
use vstd::prelude::*;
use crate::error::{GuiError, GuiResult};
use crate::geometry::{Point, Rectangle, Size};

verus! {

/// The cursor of one frame.
#[derive(Clone, Copy, Debug, PartialEq, Eq, Structural)]
pub struct Placer {
    /// The drawable area.
    pub bounds: Rectangle,
    /// The gap left after each widget (width) and between rows (height).
    pub spacing: Size,
    /// How far the cursor is to the right of the area's left edge.
    pub x: u64,
    /// How far the cursor is below the area's top edge.
    pub y: u64,
    /// The height of the tallest widget placed in the current row.
    pub row_height: u32,
}

/// One request to a [`Placer`].
pub enum Step {
    /// Ask for a rectangle of this size.
    Allocate(Size),
    /// Begin a new row.
    NewRow,
}

impl Placer {
    /// The invariant of a placer: the area's pixels have `i32` coordinates, the
    /// current row lies inside the area, and the cursor is at most one gap past
    /// the right edge.
    pub open spec fn wf(self) -> bool {
        &&& self.bounds.representable()
        &&& self.x <= self.bounds.size.width + self.spacing.width
        &&& self.y + self.row_height <= self.bounds.size.height
    }

    /// The column of the cursor.
    pub open spec fn cursor_x(self) -> int {
        self.bounds.left() + self.x
    }

    /// The row of the cursor.
    pub open spec fn cursor_y(self) -> int {
        self.bounds.top() + self.y
    }

    /// Whether a rectangle of `width` by `height` fits between the cursor and
    /// the right and bottom edges of the area.
    pub open spec fn fits(self, width: int, height: int) -> bool {
        self.x + width <= self.bounds.size.width && self.y + height <= self.bounds.size.height
    }

    /// The rectangle that a request for `size` is answered with: it begins at
    /// the cursor and has exactly the requested size.
    pub open spec fn granted(self, size: Size) -> Rectangle {
        Rectangle {
            top_left: Point { x: self.cursor_x() as i32, y: self.cursor_y() as i32 },
            size,
        }
    }

    /// The placer after it has granted `size`: the cursor has moved right by the
    /// width and one gap, and the row is as tall as its tallest widget.
    pub open spec fn after_allocate(self, size: Size) -> Placer {
        Placer {
            x: (self.x + size.width + self.spacing.width) as u64,
            row_height: if size.height > self.row_height {
                size.height
            } else {
                self.row_height
            },
            ..self
        }
    }

    /// Whether a new row can begin inside the area.
    pub open spec fn has_next_row(self) -> bool {
        self.y + self.row_height + self.spacing.height <= self.bounds.size.height
    }

    /// The placer at the start of the next row: the cursor is back at the left
    /// edge, below the current row and one gap.
    pub open spec fn after_new_row(self) -> Placer {
        Placer {
            x: 0,
            y: (self.y + self.row_height + self.spacing.height) as u64,
            row_height: 0,
            ..self
        }
    }

    /// The placer after one request, which leaves it as it is when it cannot be
    /// met.
    pub open spec fn after(self, step: Step) -> Placer {
        match step {
            Step::Allocate(size) => if self.fits(size.width as int, size.height as int) {
                self.after_allocate(size)
            } else {
                self
            },
            Step::NewRow => if self.has_next_row() {
                self.after_new_row()
            } else {
                self
            },
        }
    }

    /// The placer after a sequence of requests.
    pub open spec fn after_all(self, steps: Seq<Step>) -> Placer
        decreases steps.len(),
    {
        if steps.len() == 0 {
            self
        } else {
            self.after(steps[0]).after_all(steps.drop_first())
        }
    }

    /// Whether `area` lies where the cursor has already been: above the current
    /// row, or in the current row to the left of the cursor.
    pub open spec fn has_passed(self, area: Rectangle) -> bool {
        area.is_empty() || area.bottom() <= self.cursor_y() || (area.bottom() <= self.cursor_y()
            + self.row_height && area.right() <= self.cursor_x())
    }

    /// A placer at the top-left corner of `bounds`.
    pub fn new(bounds: Rectangle, spacing: Size) -> (p: Self)
        requires
            bounds.representable(),
        ensures
            p == (Placer { bounds, spacing, x: 0, y: 0, row_height: 0 }),
            p.wf(),
    {
        Placer { bounds, spacing, x: 0, y: 0, row_height: 0 }
    }

    /// The height of the tallest widget placed in the current row so far.
    pub fn row_height(&self) -> (h: u32)
        ensures
            h == self.row_height,
    {
        self.row_height
    }

    /// Hands out a rectangle of exactly `size` at the cursor and moves the
    /// cursor past it, or reports that the rectangle does not fit and leaves
    /// the cursor where it is.
    pub fn allocate(&mut self, size: Size) -> (result: GuiResult<Rectangle>)
        requires
            old(self).wf(),
        ensures
            final(self).wf(),
            old(self).fits(size.width as int, size.height as int) ==> result == Ok::<
                Rectangle,
                GuiError,
            >(old(self).granted(size)) && *final(self) == old(self).after_allocate(size),
            !old(self).fits(size.width as int, size.height as int) ==> result == Err::<
                Rectangle,
                GuiError,
            >(GuiError::AllocationExhausted) && *final(self) == *old(self),
            result is Ok ==> old(self).bounds.encloses(result->Ok_0) && result->Ok_0.left()
                == old(self).cursor_x() && result->Ok_0.top() == old(self).cursor_y(),
    {
        let width: u64 = size.width as u64;
        let height: u64 = size.height as u64;
        if self.x + width > self.bounds.size.width as u64 || self.y + height
            > self.bounds.size.height as u64 {
            return Err(GuiError::AllocationExhausted);
        }
        let left: i64 = self.bounds.top_left.x as i64 + self.x as i64;
        let top: i64 = self.bounds.top_left.y as i64 + self.y as i64;
        let area = Rectangle { top_left: Point { x: left as i32, y: top as i32 }, size };
        self.x = self.x + width + self.spacing.width as u64;
        if size.height > self.row_height {
            self.row_height = size.height;
        }
        Ok(area)
    }

    /// Begins a new row below the current one, or reports that the area has no
    /// room for another row and leaves the cursor where it is.
    pub fn new_row(&mut self) -> (result: GuiResult<()>)
        requires
            old(self).wf(),
        ensures
            final(self).wf(),
            old(self).has_next_row() ==> result == Ok::<(), GuiError>(()) && *final(self) == old(
                self,
            ).after_new_row(),
            !old(self).has_next_row() ==> result == Err::<(), GuiError>(
                GuiError::AllocationExhausted,
            ) && *final(self) == *old(self),
    {
        let next: u64 = self.y + self.row_height as u64 + self.spacing.height as u64;
        if next > self.bounds.size.height as u64 {
            return Err(GuiError::AllocationExhausted);
        }
        self.x = 0;
        self.y = next;
        self.row_height = 0;
        Ok(())
    }

    /// No request breaks the invariant.
    pub proof fn lemma_after_keeps_wf(self, step: Step)
        requires
            self.wf(),
        ensures
            self.after(step).wf(),
    {
    }

    /// What the cursor has passed, it has passed for good.
    pub proof fn lemma_after_keeps_passed(self, step: Step, area: Rectangle)
        requires
            self.wf(),
            self.has_passed(area),
        ensures
            self.after(step).has_passed(area),
    {
    }

    /// A rectangle that is handed out lies inside the drawable area, on pixels
    /// that the cursor had not passed before and has passed afterwards.
    pub proof fn lemma_granted_is_fresh(self, size: Size, earlier: Rectangle)
        requires
            self.wf(),
            self.fits(size.width as int, size.height as int),
            self.has_passed(earlier),
        ensures
            self.bounds.encloses(self.granted(size)),
            self.granted(size).disjoint(earlier),
            self.after_allocate(size).has_passed(self.granted(size)),
    {
    }

    /// Two rectangles handed out in one frame never overlap, whatever was
    /// asked for in between.
    pub proof fn lemma_allocations_disjoint(self, first: Size, between: Seq<Step>, second: Size)
        requires
            self.wf(),
            self.fits(first.width as int, first.height as int),
            self.after_allocate(first).after_all(between).fits(
                second.width as int,
                second.height as int,
            ),
        ensures
            self.granted(first).disjoint(
                self.after_allocate(first).after_all(between).granted(second),
            ),
    {
        let area = self.granted(first);
        let start = self.after_allocate(first);
        assert(start.has_passed(area));
        start.lemma_after_all_keeps(between, area);
        start.after_all(between).lemma_granted_is_fresh(second, area);
    }

    /// A sequence of requests keeps the invariant and what has been passed.
    pub proof fn lemma_after_all_keeps(self, steps: Seq<Step>, area: Rectangle)
        requires
            self.wf(),
            self.has_passed(area),
        ensures
            self.after_all(steps).wf(),
            self.after_all(steps).has_passed(area),
        decreases steps.len(),
    {
        if steps.len() > 0 {
            self.lemma_after_keeps_wf(steps[0]);
            self.lemma_after_keeps_passed(steps[0], area);
            self.after(steps[0]).lemma_after_all_keeps(steps.drop_first(), area);
        }
    }
}

} // verus!
