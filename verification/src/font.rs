//! Monospace font metrics and the measuring of labels.
//!
//! The toolkit never looks at glyphs. Of a font it reads the size of a
//! character cell and the gap between cells; the extent of a label is measured
//! by `embedded_graphics`, which also draws it.
use vstd::prelude::*;
use embedded_graphics::geometry::Dimensions;
use embedded_graphics::mono_font::ascii::FONT_9X15;
use embedded_graphics::mono_font::{MonoFont, MonoTextStyle};
use embedded_graphics::pixelcolor::BinaryColor;
use embedded_graphics::text::{Alignment, Baseline, Text};
use crate::geometry::Size;

verus! {

/// The metrics of a monospace font.
#[derive(Clone, Copy, Debug, PartialEq, Eq, Structural)]
pub struct Font {
    /// The size of one character cell.
    pub character_size: Size,
    /// The gap between two character cells in a line.
    pub character_spacing: u32,
}

/// The most that [`Font::measurable`] lets a label's character count (and one)
/// times the font's cell width, cell height and gap come to.
pub const MEASURE_LIMIT: u64 = 0x100_0000;

/// The width and height of the bounding box of `text` when it is set centred
/// with its baseline at the top, in a monospace font with the given cell width,
/// cell height and gap. It is what `Text::bounding_box` of `embedded_graphics`
/// computes; lines are split at `'\n'`.
pub uninterp spec fn centered_text_extent(
    text: Seq<char>,
    character_width: u32,
    character_height: u32,
    character_spacing: u32,
) -> (u32, u32);

impl Font {
    /// Whether `text` is short enough for its extent in this font to be
    /// computed in 32-bit pixel arithmetic.
    pub open spec fn measurable(self, text: Seq<char>) -> bool {
        (text.len() + 1) * (self.character_size.width + self.character_size.height
            + self.character_spacing) <= MEASURE_LIMIT
    }

    /// The extent of `text` set centred in this font.
    pub open spec fn extent(self, text: Seq<char>) -> Size {
        let (width, height) = centered_text_extent(
            text,
            self.character_size.width,
            self.character_size.height,
            self.character_spacing,
        );
        Size { width, height }
    }

    pub fn new(character_size: Size, character_spacing: u32) -> (f: Self)
        ensures
            f == (Font { character_size, character_spacing }),
    {
        Font { character_size, character_spacing }
    }

    /// Tells whether [`Font::measure`] may be called on `text`.
    pub fn can_measure(&self, text: &str) -> (ok: bool)
        ensures
            ok == self.measurable(text@),
    {
        let cell: u64 = self.character_size.width as u64 + self.character_size.height as u64
            + self.character_spacing as u64;
        let count: usize = text.unicode_len();
        if count as u64 >= MEASURE_LIMIT {
            assert((text@.len() + 1) * cell > MEASURE_LIMIT || cell == 0) by (nonlinear_arith)
                requires
                    text@.len() >= MEASURE_LIMIT,
                    cell >= 0,
            ;
            return cell == 0;
        }
        assert((count + 1) * cell <= 0x100_0000 * 0x3_0000_0000) by (nonlinear_arith)
            requires
                0 <= count < 0x100_0000,
                0 <= cell < 0x3_0000_0000,
        ;
        (count as u64 + 1) * cell <= MEASURE_LIMIT
    }

    /// The extent of `text` set centred in this font.
    pub fn measure(&self, text: &str) -> (extent: Size)
        requires
            self.measurable(text@),
        ensures
            extent == self.extent(text@),
    {
        let (width, height) = measure_centered(
            text,
            self.character_size.width,
            self.character_size.height,
            self.character_spacing,
        );
        Size { width, height }
    }
}

/// Calls `Text::bounding_box` of `embedded_graphics` on `text`, set centred and
/// with its baseline at the top in a `MonoFont` that has the given cell and gap,
/// and returns the box's width and height. Trusted: that the extent depends on
/// the text and these three numbers alone. The bound keeps the library's 32-bit
/// arithmetic from overflowing.
#[verifier::external_body]
pub(crate) fn measure_centered(
    text: &str,
    character_width: u32,
    character_height: u32,
    character_spacing: u32,
) -> (extent: (u32, u32))
    requires
        (text@.len() + 1) * (character_width + character_height + character_spacing)
            <= MEASURE_LIMIT,
    ensures
        extent == centered_text_extent(text@, character_width, character_height, character_spacing),
{
    let cell = embedded_graphics::geometry::Size::new(character_width, character_height);
    let font = MonoFont { character_size: cell, character_spacing, ..FONT_9X15 };
    let style = MonoTextStyle::new(&font, BinaryColor::On);
    let mut label = Text::new(text, embedded_graphics::geometry::Point::zero(), style);
    label.text_style.alignment = Alignment::Center;
    label.text_style.baseline = Baseline::Top;
    let size = label.bounding_box().size;
    (size.width, size.height)
}

/// Reads the cell size and gap of `mono_font::ascii::FONT_9X15` of
/// `embedded_graphics`. Trusted: that its cells are 9 by 15 pixels with no gap.
#[verifier::external_body]
pub(crate) fn ascii_font_9x15() -> (font: Font)
    ensures
        font == (Font { character_size: Size { width: 9, height: 15 }, character_spacing: 0 }),
{
    let cell = FONT_9X15.character_size;
    Font {
        character_size: Size { width: cell.width, height: cell.height },
        character_spacing: FONT_9X15.character_spacing,
    }
}

} // verus!
