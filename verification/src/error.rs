//! What can go wrong while a widget is evaluated. Nothing here is fatal: the
//! worst case is a widget that is stale for one frame.
use vstd::prelude::*;

verus! {

/// The failures a widget reports.
#[derive(Clone, Copy, Debug, PartialEq, Eq, Structural)]
pub enum GuiError {
    /// The requested rectangle does not fit what is left of the drawable area.
    /// The caller may begin a new row, clip, or give the frame up.
    AllocationExhausted,
    /// The drawing surface rejected a primitive. The widget's cache is not
    /// marked clean, so that the next frame draws it again in full.
    DrawPrimitiveFailed,
    /// A style context was asked for that the theme has no entry for.
    InvalidStyleContext,
}

/// The result of evaluating a widget.
pub type GuiResult<T> = Result<T, GuiError>;

} // verus!
