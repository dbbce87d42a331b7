//! The incremental-redraw cache.
//!
//! A [`Smartstate`] remembers which visual state a widget slot was last drawn
//! in. The caller owns one cell per visually stable widget and lends it to the
//! widget of each frame through a [`Container`]; a widget without a cell is
//! redrawn every frame.
use vstd::prelude::*;

verus! {

/// The last visual state a widget slot was drawn in.
#[derive(Clone, Copy, Debug, PartialEq, Eq, Structural)]
pub enum Smartstate {
    /// Nothing is known about what the slot shows: the next frame must draw.
    Unset,
    /// The slot shows the visual branch with this code.
    Tagged(u16),
}

/// Whether a widget must draw, given what its container holds (`None` for a
/// container without a cell) and the code of what it is about to show.
///
/// Drawing is skipped only when a cell is there, holds a code, and that code is
/// the candidate's; an unset value on either side forces the draw.
pub open spec fn should_draw(stored: Option<Smartstate>, candidate: Smartstate) -> bool {
    match (stored, candidate) {
        (Some(Smartstate::Tagged(shown)), Smartstate::Tagged(wanted)) => shown != wanted,
        _ => true,
    }
}

impl Smartstate {
    /// A cell of which nothing is known yet.
    pub fn empty() -> (s: Self)
        ensures
            s == Smartstate::Unset,
    {
        Smartstate::Unset
    }

    /// A cell that records the visual branch `code`.
    pub fn state(code: u16) -> (s: Self)
        ensures
            s == Smartstate::Tagged(code),
    {
        Smartstate::Tagged(code)
    }

    /// Records the visual branch `code`.
    pub fn set_state(&mut self, code: u16)
        ensures
            *final(self) == Smartstate::Tagged(code),
    {
        *self = Smartstate::Tagged(code);
    }

    /// Forgets what was drawn, so that the next frame draws again.
    pub fn force_redraw(&mut self)
        ensures
            *final(self) == Smartstate::Unset,
    {
        *self = Smartstate::Unset;
    }

    /// Tells whether nothing is known about what the slot shows.
    pub fn is_empty(&self) -> (unset: bool)
        ensures
            unset == (*self == Smartstate::Unset),
    {
        match self {
            Smartstate::Unset => true,
            Smartstate::Tagged(_) => false,
        }
    }

    /// Tells whether the cell records exactly the branch `code`.
    pub fn eq_inner(&self, code: u16) -> (same: bool)
        ensures
            same == (*self == Smartstate::Tagged(code)),
    {
        match self {
            Smartstate::Unset => false,
            Smartstate::Tagged(shown) => *shown == code,
        }
    }

    /// Tells whether a widget that last showed `self` and now wants to show
    /// `candidate` has to draw.
    pub fn differs_from(&self, candidate: Smartstate) -> (draw: bool)
        ensures
            draw == should_draw(Some(*self), candidate),
    {
        match (self, candidate) {
            (Smartstate::Tagged(shown), Smartstate::Tagged(wanted)) => *shown != wanted,
            _ => true,
        }
    }
}

/// Lets a widget, which lives for one frame, use a [`Smartstate`] cell that
/// outlives it. The container never owns the cell: it is either empty or holds
/// the caller's cell by mutable reference for as long as the widget lives.
#[derive(Debug)]
pub struct Container<'a> {
    pub cell: Option<&'a mut Smartstate>,
}

impl<'a> Container<'a> {
    /// What the borrowed cell holds now; `None` when no cell is borrowed.
    pub open spec fn current(self) -> Option<Smartstate> {
        match self.cell {
            Some(cell) => Some(*cell),
            None => None,
        }
    }

    /// A container without a cell: its widget is drawn every frame.
    pub fn empty() -> (c: Self)
        ensures
            c.cell.is_none(),
    {
        Container { cell: None }
    }

    /// A container that borrows `cell`.
    pub fn new(cell: &'a mut Smartstate) -> (c: Self)
        ensures
            c.current() == Some(*old(cell)),
            *final(c.cell.unwrap()) == *final(cell),
    {
        Container { cell: Some(cell) }
    }

    /// Makes the container borrow `cell`. A cell borrowed before is released
    /// as it is.
    pub fn set(&mut self, cell: &'a mut Smartstate)
        ensures
            final(self).current() == Some(*old(cell)),
            *final(final(self).cell.unwrap()) == *final(cell),
            old(self).cell.is_some() ==> *final(old(self).cell.unwrap()) == *old(self).cell.unwrap(),
    {
        self.cell = Some(cell);
    }

    /// Tells whether no cell is borrowed.
    pub fn is_empty(&self) -> (none: bool)
        ensures
            none == self.cell.is_none(),
    {
        self.cell.is_none()
    }

    /// A copy of what the borrowed cell holds, if there is a cell.
    pub fn clone_inner(&self) -> (stored: Option<Smartstate>)
        ensures
            stored == self.current(),
    {
        match &self.cell {
            Some(cell) => Some(**cell),
            None => None,
        }
    }

    /// Tells whether a widget that wants to show `candidate` has to draw: always
    /// without a cell, and with one unless it records exactly `candidate`.
    pub fn needs_draw(&self, candidate: Smartstate) -> (draw: bool)
        ensures
            draw == should_draw(self.current(), candidate),
    {
        match &self.cell {
            Some(cell) => cell.differs_from(candidate),
            None => true,
        }
    }

    /// Records how painting `candidate` went: the borrowed cell holds
    /// `candidate` after a successful paint, and is unset after a failed one, so
    /// that whatever the next frame wants to show is painted in full. Does
    /// nothing without a cell.
    pub fn settle(&mut self, candidate: Smartstate, painted: bool)
        ensures
            old(self).cell.is_none() ==> final(self).cell.is_none(),
            old(self).cell.is_some() && painted ==> final(self).current() == Some(candidate),
            old(self).cell.is_some() && !painted ==> final(self).current() == Some(
                Smartstate::Unset,
            ),
            old(self).cell.is_some() ==> *final(final(self).cell.unwrap()) == *final(
                old(self).cell.unwrap()),
    {
        if painted {
            self.store(candidate);
        } else {
            self.store(Smartstate::Unset);
        }
    }

    /// Overwrites the borrowed cell with `value`; does nothing without a cell.
    pub fn store(&mut self, value: Smartstate)
        ensures
            old(self).cell.is_none() ==> final(self).cell.is_none(),
            old(self).cell.is_some() ==> final(self).current() == Some(value),
            old(self).cell.is_some() ==> *final(final(self).cell.unwrap()) == *final(
                old(self).cell.unwrap()),
    {
        match &mut self.cell {
            Some(cell) => {
                **cell = value;
            },
            None => {},
        }
    }
}

/// A pool of `N` cells that the caller keeps for as long as the display lives.
///
/// Each frame the caller restarts the counter and hands the cells out in the
/// order in which it builds its widgets, so that a widget meets in every frame
/// the cell it had in the frame before.
#[derive(Debug)]
pub struct SmartstateProvider<const N: usize> {
    pub states: [Smartstate; N],
    /// The index of the cell that is handed out next.
    pub pos: usize,
}

impl<const N: usize> SmartstateProvider<N> {
    /// A pool of unset cells.
    pub fn new() -> (pool: Self)
        ensures
            pool.pos == 0,
            forall|i: int| 0 <= i < N ==> pool.states@[i] == Smartstate::Unset,
    {
        SmartstateProvider { states: [Smartstate::Unset; N], pos: 0 }
    }

    /// The number of cells.
    pub fn size(&self) -> (n: usize)
        ensures
            n == N,
    {
        N
    }

    /// The index of the cell that is handed out next.
    pub fn get_pos(&self) -> (pos: usize)
        ensures
            pos == self.pos,
    {
        self.pos
    }

    /// Begins a new frame: the first cell is handed out next. The cells keep
    /// what they hold.
    pub fn restart_counter(&mut self)
        ensures
            final(self).pos == 0,
            final(self).states == old(self).states,
    {
        self.pos = 0;
    }

    /// Hands the next cell out. Whatever the borrower leaves in the cell is
    /// what the pool holds there afterwards; the other cells are untouched.
    pub fn nxt(&mut self) -> (cell: &mut Smartstate)
        requires
            old(self).pos < N,
        ensures
            *cell == old(self).states@[old(self).pos as int],
            final(self).pos == old(self).pos + 1,
            final(self).states@ == old(self).states@.update(old(self).pos as int, *final(cell)),
    {
        let index: usize = self.pos;
        self.pos = index + 1;
        &mut self.states[index]
    }

    /// Unsets every cell, so that every widget is painted in the next frame.
    pub fn force_redraw_all(&mut self)
        ensures
            final(self).pos == old(self).pos,
            forall|i: int| 0 <= i < N ==> final(self).states@[i] == Smartstate::Unset,
    {
        let mut index: usize = 0;
        while index < N
            invariant
                index <= N,
                self.pos == old(self).pos,
                forall|i: int| 0 <= i < index ==> self.states@[i] == Smartstate::Unset,
            decreases N - index,
        {
            self.states[index] = Smartstate::Unset;
            index = index + 1;
        }
    }
}

} // verus!
