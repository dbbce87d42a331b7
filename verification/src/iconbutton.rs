//! A button that shows an icon, with a label below it if wanted.
//!
//! The button follows the sequence that every interactive widget follows:
//! it works out the size it wants from its content, asks the frame for a
//! rectangle, takes the interaction that falls on that rectangle, computes the
//! code of the visual state it is in, and paints only where that code differs
//! from what its [`Smartstate`] cell records.
//!
//! Painting is the caller's part. [`IconButton::draw`] answers with a
//! [`Frame`]; the caller paints what the frame asks for, and tells
//! [`IconButton::finish`] whether that succeeded. Only then is the cell
//! updated, so that a failed paint is never taken for a clean cache.
use vstd::prelude::*;
use crate::error::{GuiError, GuiResult};
use crate::geometry::{Point, Rectangle, Size};
use crate::interaction::{spec_classify, Bucket, Interaction, PointerSample, PointerState};
use crate::smartstate::{should_draw, Container, Smartstate};
use crate::style::{WidgetContext, WidgetStyle};
use crate::ui::{InternalResponse, Response, Ui};

verus! {

/// A square icon, known by the length of its side in pixels.
#[derive(Clone, Copy, Debug, PartialEq, Eq, Structural)]
pub struct Icon {
    pub side: u32,
}

/// A label to paint: the text, set centred on `anchor.x` with its top at
/// `anchor.y`.
#[derive(Clone, Copy, Debug)]
pub struct Caption<'a> {
    pub text: &'a str,
    pub anchor: Point,
}

/// What a button asks the drawing surface for: a rounded box over `area`, the
/// icon in the style's foreground colour with its top-left pixel at
/// `icon_origin`, and the caption if there is one.
#[derive(Clone, Copy, Debug)]
pub struct Painting<'a, COL> {
    /// The box, which is also the region that is redrawn.
    pub area: Rectangle,
    /// The radius of the box's corners.
    pub corner_radius: u32,
    /// Border, fill and foreground.
    pub style: WidgetStyle<COL>,
    /// Where the icon's top-left pixel goes.
    pub icon_origin: Point,
    /// The label, if the button has one.
    pub caption: Option<Caption<'a>>,
}

/// The outcome of evaluating a button for one frame.
#[derive(Clone, Copy, Debug)]
pub struct Frame<'a, COL> {
    /// What the caller is told once the frame is finished.
    pub response: Response,
    /// The code of the visual state the button is in.
    pub candidate: Smartstate,
    /// What has to be painted; `None` where the slot already shows it.
    pub painting: Option<Painting<'a, COL>>,
}

/// A button that shows an icon and, if wanted, a label below it.
#[derive(Debug)]
pub struct IconButton<'a> {
    pub icon: Icon,
    pub label: Option<&'a str>,
    pub smartstate: Container<'a>,
    /// The least width; 0 leaves the width to the content.
    pub min_width: u32,
    /// A button that is not enabled does not respond to the pointer.
    pub is_enabled: bool,
    /// Whether the least width, the enabled flag or the context was set.
    pub is_modified: bool,
    pub context: WidgetContext,
}

/// The larger of two numbers.
pub open spec fn larger(a: int, b: int) -> int {
    if a >= b {
        a
    } else {
        b
    }
}

/// The code of the visual state of a button. Enabled buttons have one code for
/// each interaction bucket, disabled ones a single code, and each comes in two
/// forms, one for a button whose layout parameters were set and one for a
/// button left at its defaults.
pub open spec fn spec_code(enabled: bool, modified: bool, bucket: Bucket) -> u16 {
    let branch: u16 = if !enabled {
        7
    } else {
        match bucket {
            Bucket::Idle => 1,
            Bucket::Hover => 3,
            Bucket::Active => 5,
        }
    };
    if modified {
        branch
    } else {
        (branch + 1) as u16
    }
}

/// The height that the content of a button needs: the icon between padding
/// and border, and below it a gap and the label if there is one.
pub open spec fn content_height(icon: Icon, label: Option<Size>, padding: Size, border: u32) -> int {
    icon.side + 2 * padding.height + 2 * border + match label {
        Some(extent) => padding.height + extent.height,
        None => 0,
    }
}

/// The width that the content of a button needs: that of the square around
/// the icon or that of the padded label, whichever is larger.
pub open spec fn content_width(icon: Icon, label: Option<Size>, padding: Size, border: u32) -> int {
    let square = icon.side + 2 * padding.height + 2 * border;
    match label {
        Some(extent) => larger(square, extent.width + 2 * padding.width + 2 * border),
        None => square,
    }
}

/// Where the icon goes in `area`: centred horizontally, and centred vertically
/// in what the label and its gap leave free.
pub open spec fn icon_origin(area: Rectangle, icon: Icon, label: Option<Size>, padding: Size) -> Point {
    let reserved: int = match label {
        Some(extent) => extent.height + padding.height,
        None => 0,
    };
    Point {
        x: (area.left() + (area.size.width - icon.side) / 2) as i32,
        y: (area.top() + (area.size.height - icon.side - reserved) / 2) as i32,
    }
}

/// Where the label goes in `area`: centred horizontally, with its lower edge
/// above the padding and the border.
pub open spec fn caption_anchor(area: Rectangle, extent: Size, padding: Size, border: u32) -> Point {
    Point {
        x: (area.left() + area.size.width / 2) as i32,
        y: (area.top() + (area.size.height - extent.height - padding.height - border)) as i32,
    }
}

/// Whether a button reports a click: only an enabled button does, and only
/// for the release that completes the click.
pub open spec fn reports_click(enabled: bool, outcome: Interaction) -> bool {
    enabled && outcome.spec_is_click()
}

/// Whether a button reports that it is held down: only an enabled button
/// does, while it is pressed or dragged.
pub open spec fn reports_down(enabled: bool, outcome: Interaction) -> bool {
    enabled && outcome.spec_is_down()
}

/// Computes the code of a button's visual state.
pub fn smartstate_code(enabled: bool, modified: bool, bucket: Bucket) -> (code: u16)
    ensures
        code == spec_code(enabled, modified, bucket),
{
    let branch: u16 = if !enabled {
        7
    } else {
        match bucket {
            Bucket::Idle => 1,
            Bucket::Hover => 3,
            Bucket::Active => 5,
        }
    };
    if modified {
        branch
    } else {
        branch + 1
    }
}

impl Icon {
    pub fn new(side: u32) -> (icon: Self)
        ensures
            icon == (Icon { side }),
    {
        Icon { side }
    }
}

impl<'a> IconButton<'a> {
    /// The border that the size of every button is computed with: that of the
    /// normal context at rest.
    pub open spec fn border<COL: Copy>(ui: Ui<COL>) -> u32 {
        ui.style.normal_widget.normal.border_width
    }

    /// The extent that enters the layout: that of the label, where the button
    /// has one.
    pub open spec fn measured(self, extent: Option<Size>) -> Option<Size> {
        if self.label.is_some() {
            extent
        } else {
            None
        }
    }

    /// The width the button asks for: what its content needs, or its least
    /// width where that is larger.
    pub open spec fn desired_width<COL: Copy>(self, ui: Ui<COL>, extent: Option<Size>) -> int {
        larger(
            content_width(
                self.icon,
                self.measured(extent),
                ui.style.spacing.button_padding,
                Self::border(ui),
            ),
            self.min_width as int,
        )
    }

    /// The height the button asks for: the largest of the theme's widget
    /// height, the height of the current row and what its content needs.
    pub open spec fn desired_height<COL: Copy>(self, ui: Ui<COL>, extent: Option<Size>) -> int {
        larger(
            larger(ui.style.default_widget_height as int, ui.placer.row_height as int),
            content_height(
                self.icon,
                self.measured(extent),
                ui.style.spacing.button_padding,
                Self::border(ui),
            ),
        )
    }

    /// Whether the frame has room for the button.
    pub open spec fn fits<COL: Copy>(self, ui: Ui<COL>, extent: Option<Size>) -> bool {
        ui.placer.fits(self.desired_width(ui, extent), self.desired_height(ui, extent))
    }

    /// The size the button asks for.
    pub open spec fn desired_size<COL: Copy>(self, ui: Ui<COL>, extent: Option<Size>) -> Size {
        Size {
            width: self.desired_width(ui, extent) as u32,
            height: self.desired_height(ui, extent) as u32,
        }
    }

    /// What is painted for a button that was granted `granted`.
    pub open spec fn spec_painting<COL: Copy>(
        self,
        ui: Ui<COL>,
        extent: Option<Size>,
        granted: InternalResponse,
    ) -> Painting<'a, COL> {
        let padding = ui.style.spacing.button_padding;
        Painting {
            area: granted.area,
            corner_radius: ui.style.button_corner_radius,
            style: ui.style.spec_resolve(self.context, self.is_enabled, granted.interaction),
            icon_origin: icon_origin(granted.area, self.icon, self.measured(extent), padding),
            caption: match (self.label, extent) {
                (Some(text), Some(size)) => Some(
                    Caption {
                        text,
                        anchor: caption_anchor(granted.area, size, padding, Self::border(ui)),
                    },
                ),
                _ => None,
            },
        }
    }

    /// The frame of a button whose label has the extent `extent`, in a frame
    /// that has room for it.
    ///
    /// The response reports a click or a held button only for an enabled
    /// button. The interaction is computed for a disabled button too, but
    /// enters neither the response's flags nor, since every disabled button has
    /// the same look, the code.
    pub open spec fn spec_frame<COL: Copy>(self, ui: Ui<COL>, extent: Option<Size>) -> Frame<
        'a,
        COL,
    > {
        let granted = ui.granted(self.desired_size(ui, extent));
        let candidate = Smartstate::Tagged(
            spec_code(self.is_enabled, self.is_modified, granted.interaction.spec_bucket()),
        );
        Frame {
            response: Response {
                internal: granted,
                click: reports_click(self.is_enabled, granted.interaction),
                down: reports_down(self.is_enabled, granted.interaction),
            },
            candidate,
            painting: if should_draw(self.smartstate.current(), candidate) {
                Some(self.spec_painting(ui, extent, granted))
            } else {
                None
            },
        }
    }

    /// A button for `icon`: enabled, in the normal context, without a label, a
    /// least width or a cell.
    pub fn new(icon: Icon) -> (button: Self)
        ensures
            button.icon == icon,
            button.label.is_none(),
            button.smartstate.cell.is_none(),
            button.min_width == 0,
            button.is_enabled,
            !button.is_modified,
            button.context == WidgetContext::Normal,
    {
        IconButton {
            icon,
            label: None,
            smartstate: Container::empty(),
            min_width: 0,
            is_enabled: true,
            is_modified: false,
            context: WidgetContext::Normal,
        }
    }

    /// A button for an icon of which only the kind is known: the side of the
    /// square it is rendered in.
    pub fn new_from_type(side: u32) -> (button: Self)
        ensures
            button.icon == (Icon { side }),
            button.label.is_none(),
            button.smartstate.cell.is_none(),
            button.min_width == 0,
            button.is_enabled,
            !button.is_modified,
            button.context == WidgetContext::Normal,
    {
        IconButton::new(Icon { side })
    }

    /// Puts `label` below the icon.
    pub fn label(self, label: &'a str) -> (button: Self)
        ensures
            button == (IconButton { label: Some(label), ..self }),
    {
        let mut button = self;
        button.label = Some(label);
        button
    }

    /// Lends the button `cell`, so that it is painted only when its look
    /// changes. A cell lent before is given back as it is.
    pub fn smartstate(self, cell: &'a mut Smartstate) -> (button: Self)
        ensures
            button.smartstate.current() == Some(*old(cell)),
            *final(button.smartstate.cell.unwrap()) == *final(cell),
            self.smartstate.cell.is_some() ==> *final(self.smartstate.cell.unwrap())
                == *self.smartstate.cell.unwrap(),
            button.icon == self.icon,
            button.label == self.label,
            button.min_width == self.min_width,
            button.is_enabled == self.is_enabled,
            button.is_modified == self.is_modified,
            button.context == self.context,
    {
        let mut button = self;
        button.smartstate.set(cell);
        button
    }

    /// Sets the least width of the button, which takes precedence over the
    /// width of the content where it is larger. 0 leaves the width to the
    /// content.
    pub fn expand_width(self, width: u32) -> (button: Self)
        ensures
            button == (IconButton { min_width: width, is_modified: true, ..self }),
    {
        let mut button = self;
        button.min_width = width;
        button.is_modified = true;
        button
    }

    /// Enables or disables the button. A disabled button reports neither
    /// clicks nor a held button.
    pub fn enable(self, enabled: &bool) -> (button: Self)
        ensures
            button == (IconButton { is_enabled: *enabled, is_modified: true, ..self }),
    {
        let mut button = self;
        button.is_modified = true;
        button.is_enabled = *enabled;
        button
    }

    /// Sets the context that the button takes its style from.
    pub fn context(self, context: WidgetContext) -> (button: Self)
        ensures
            button == (IconButton { context, is_modified: true, ..self }),
    {
        let mut button = self;
        button.is_modified = true;
        button.context = context;
        button
    }

    /// Whether `other` is the same button but for what its cell holds.
    pub open spec fn same_settings(self, other: Self) -> bool {
        &&& self.icon == other.icon
        &&& self.label == other.label
        &&& self.min_width == other.min_width
        &&& self.is_enabled == other.is_enabled
        &&& self.is_modified == other.is_modified
        &&& self.context == other.context
        &&& self.smartstate.cell.is_some() == other.smartstate.cell.is_some()
    }

    /// Evaluates the button for one frame, given the extent of its label as
    /// measured in the theme's font. The extent is read only where the button
    /// has a label, and a label without an extent is left out.
    ///
    /// The button asks the frame for its desired size. Where that does not fit,
    /// the frame is left as it is and [`GuiError::AllocationExhausted`] is
    /// reported. Where it fits, the answer is exactly [`Self::spec_frame`]: the
    /// granted rectangle, the click and down flags, the code of the visual
    /// state and, only where the cell does not already record that code, what
    /// to paint.
    pub fn draw_measured<COL: Copy>(&self, ui: &mut Ui<COL>, extent: Option<Size>) -> (result:
        GuiResult<Frame<'a, COL>>)
        requires
            old(ui).wf(),
        ensures
            final(ui).wf(),
            self.fits(*old(ui), extent) ==> result == Ok::<Frame<'a, COL>, GuiError>(
                self.spec_frame(*old(ui), extent),
            ) && *final(ui) == old(ui).after_allocation(self.desired_size(*old(ui), extent)),
            !self.fits(*old(ui), extent) ==> result == Err::<Frame<'a, COL>, GuiError>(
                GuiError::AllocationExhausted,
            ) && *final(ui) == *old(ui),
    {
        let desired = match self.desired(ui, extent) {
            Some(desired) => desired,
            None => {
                return Err(GuiError::AllocationExhausted);
            },
        };
        let granted = match ui.allocate_space(desired) {
            Ok(granted) => granted,
            Err(error) => {
                return Err(error);
            },
        };
        let enabled: bool = self.is_enabled;
        let code: u16 = smartstate_code(enabled, self.is_modified, granted.interaction.bucket());
        let candidate = Smartstate::Tagged(code);
        let response = Response::new(granted).set_clicked(
            enabled && granted.interaction.is_click(),
        ).set_down(enabled && granted.interaction.is_down());
        let painting = if self.smartstate.needs_draw(candidate) {
            Some(self.painting(ui, extent, granted))
        } else {
            None
        };
        Ok(Frame { response, candidate, painting })
    }

    /// Works the desired size out, or finds that it is beyond what any
    /// drawable area can hold.
    fn desired<COL: Copy>(&self, ui: &Ui<COL>, extent: Option<Size>) -> (desired: Option<Size>)
        ensures
            match desired {
                Some(size) => size.width == self.desired_width(*ui, extent) && size.height
                    == self.desired_height(*ui, extent),
                None => self.desired_width(*ui, extent) > u32::MAX || self.desired_height(
                    *ui,
                    extent,
                ) > u32::MAX,
            },
    {
        let padding = ui.style.spacing.button_padding;
        let border: u64 = ui.style.normal_widget.normal.border_width as u64;
        let square: u64 = self.icon.side as u64 + 2 * padding.height as u64 + 2 * border;
        let mut min_height: u64 = square;
        let mut width: u64 = square;
        if let (Some(_), Some(size)) = (self.label, extent) {
            min_height = min_height + padding.height as u64 + size.height as u64;
            let padded: u64 = size.width as u64 + 2 * padding.width as u64 + 2 * border;
            if padded > width {
                width = padded;
            }
        }
        let mut height: u64 = ui.style.default_widget_height as u64;
        if ui.get_row_height() as u64 > height {
            height = ui.get_row_height() as u64;
        }
        if min_height > height {
            height = min_height;
        }
        if width < self.min_width as u64 {
            width = self.min_width as u64;
        }
        if width > u32::MAX as u64 || height > u32::MAX as u64 {
            None
        } else {
            Some(Size { width: width as u32, height: height as u32 })
        }
    }

    /// Places icon and label in the granted rectangle and resolves the style.
    fn painting<COL: Copy>(
        &self,
        ui: &Ui<COL>,
        extent: Option<Size>,
        granted: InternalResponse,
    ) -> (painting: Painting<'a, COL>)
        requires
            granted.area.representable(),
            granted.area.size.width == self.desired_width(*ui, extent),
            granted.area.size.height == self.desired_height(*ui, extent),
        ensures
            painting == self.spec_painting(*ui, extent, granted),
    {
        let area = granted.area;
        let padding = ui.style.spacing.button_padding;
        let border: i64 = ui.style.normal_widget.normal.border_width as i64;
        let left: i64 = area.top_left.x as i64;
        let top: i64 = area.top_left.y as i64;
        let width: i64 = area.size.width as i64;
        let height: i64 = area.size.height as i64;
        let side: i64 = self.icon.side as i64;
        let mut reserved: i64 = 0;
        let caption = match (self.label, extent) {
            (Some(text), Some(size)) => {
                reserved = size.height as i64 + padding.height as i64;
                let x: i64 = left + width / 2;
                let y: i64 = top + (height - reserved - border);
                Some(Caption { text, anchor: Point { x: x as i32, y: y as i32 } })
            },
            _ => None,
        };
        let x: i64 = left + (width - side) / 2;
        let y: i64 = top + (height - side - reserved) / 2;
        Painting {
            area,
            corner_radius: ui.style.button_corner_radius,
            style: ui.style.resolve(self.context, self.is_enabled, granted.interaction),
            icon_origin: Point { x: x as i32, y: y as i32 },
            caption,
        }
    }

    /// Evaluates the button for one frame: measures the label, if there is
    /// one, in the theme's font, and goes on as [`Self::draw_measured`] does.
    pub fn draw<COL: Copy>(&self, ui: &mut Ui<COL>) -> (result: GuiResult<Frame<'a, COL>>)
        requires
            old(ui).wf(),
            self.label.is_some() ==> old(ui).style.default_font.measurable(self.label.unwrap()@),
        ensures
            final(ui).wf(),
            ({
                let extent = match self.label {
                    Some(text) => Some(old(ui).style.default_font.extent(text@)),
                    None => None,
                };
                &&& self.fits(*old(ui), extent) ==> result == Ok::<Frame<'a, COL>, GuiError>(
                    self.spec_frame(*old(ui), extent),
                ) && *final(ui) == old(ui).after_allocation(self.desired_size(*old(ui), extent))
                &&& !self.fits(*old(ui), extent) ==> result == Err::<Frame<'a, COL>, GuiError>(
                    GuiError::AllocationExhausted,
                ) && *final(ui) == *old(ui)
            }),
    {
        let extent = match self.label {
            Some(text) => Some(ui.style.default_font.measure(text)),
            None => None,
        };
        self.draw_measured(ui, extent)
    }

    /// Ends the frame, once the caller has painted what `frame` asked for and
    /// knows whether that `painted` well.
    ///
    /// * Nothing was to be painted: the response is returned and the cell is
    ///   left alone.
    /// * The paint succeeded: the cell records the frame's code and the
    ///   response is returned.
    /// * The paint failed: [`GuiError::DrawPrimitiveFailed`] is reported and
    ///   the cell is unset, so that the next frame paints again.
    pub fn finish<COL: Copy>(&mut self, frame: &Frame<'_, COL>, painted: bool) -> (result:
        GuiResult<Response>)
        ensures
            final(self).same_settings(*old(self)),
            old(self).smartstate.cell.is_some() ==> *final(final(self).smartstate.cell.unwrap())
                == *final(old(self).smartstate.cell.unwrap()),
            frame.painting.is_none() ==> result == Ok::<Response, GuiError>(frame.response)
                && final(self).smartstate.current() == old(self).smartstate.current(),
            frame.painting.is_some() && painted ==> result == Ok::<Response, GuiError>(
                frame.response,
            ) && (old(self).smartstate.cell.is_some() ==> final(self).smartstate.current() == Some(
                frame.candidate,
            )),
            frame.painting.is_some() && !painted ==> result == Err::<Response, GuiError>(
                GuiError::DrawPrimitiveFailed,
            ) && (old(self).smartstate.cell.is_some() ==> final(self).smartstate.current() == Some(
                Smartstate::Unset,
            )),
    {
        if frame.painting.is_none() {
            return Ok(frame.response);
        }
        self.smartstate.settle(frame.candidate, painted);
        if painted {
            Ok(frame.response)
        } else {
            Err(GuiError::DrawPrimitiveFailed)
        }
    }

    /// A button without a cell is painted in every frame, whatever state it is
    /// in.
    pub proof fn lemma_no_cell_always_paints<COL: Copy>(self, ui: Ui<COL>, extent: Option<Size>)
        requires
            self.smartstate.cell.is_none(),
        ensures
            self.spec_frame(ui, extent).painting.is_some(),
    {
    }

    /// A button whose cell is unset, as it is at the start and after a failed
    /// paint, is painted whatever state it is in.
    pub proof fn lemma_unset_cell_paints<COL: Copy>(self, ui: Ui<COL>, extent: Option<Size>)
        requires
            self.smartstate.current() == Some(Smartstate::Unset),
        ensures
            self.spec_frame(ui, extent).painting.is_some(),
    {
    }

    /// Nothing is painted for a button whose cell holds the code of the frame
    /// before, if the button is enabled, modified and interacted with as it
    /// was then. `self` is the button of the second frame, `before` that of the
    /// first.
    pub proof fn lemma_unchanged_state_paints_nothing<COL: Copy>(
        self,
        ui: Ui<COL>,
        extent: Option<Size>,
        before: IconButton<'a>,
        ui_before: Ui<COL>,
        extent_before: Option<Size>,
    )
        requires
            self.is_enabled == before.is_enabled,
            self.is_modified == before.is_modified,
            self.spec_frame(ui, extent).response.internal.interaction.spec_bucket()
                == before.spec_frame(
                ui_before,
                extent_before,
            ).response.internal.interaction.spec_bucket(),
            self.smartstate.current() == Some(before.spec_frame(ui_before, extent_before).candidate),
        ensures
            self.spec_frame(ui, extent).painting.is_none(),
    {
    }

    /// The rectangle of a button depends on nothing but the size of its
    /// content, its least width, the constants of the theme and the cursor: two
    /// evaluations that agree in these are granted the same rectangle.
    pub proof fn lemma_layout_is_determined<COL: Copy>(
        self,
        ui: Ui<COL>,
        extent: Option<Size>,
        other: IconButton<'a>,
        other_ui: Ui<COL>,
        other_extent: Option<Size>,
    )
        requires
            self.icon == other.icon,
            self.measured(extent) == other.measured(other_extent),
            self.min_width == other.min_width,
            ui.style.spacing.button_padding == other_ui.style.spacing.button_padding,
            Self::border(ui) == Self::border(other_ui),
            ui.style.default_widget_height == other_ui.style.default_widget_height,
            ui.placer == other_ui.placer,
        ensures
            self.fits(ui, extent) == other.fits(other_ui, other_extent),
            self.spec_frame(ui, extent).response.internal.area == other.spec_frame(
                other_ui,
                other_extent,
            ).response.internal.area,
    {
    }

    /// A least width above what the content needs is the width of the
    /// rectangle exactly; one that is not above it changes nothing.
    pub proof fn lemma_least_width_takes_precedence<COL: Copy>(
        self,
        ui: Ui<COL>,
        extent: Option<Size>,
    )
        requires
            self.fits(ui, extent),
        ensures
            ({
                let needed = content_width(
                    self.icon,
                    self.measured(extent),
                    ui.style.spacing.button_padding,
                    Self::border(ui),
                );
                let width = self.spec_frame(ui, extent).response.internal.area.size.width;
                &&& self.min_width > needed ==> width == self.min_width
                &&& self.min_width <= needed ==> width == needed
            }),
    {
    }
}

/// Two visual states have the same code exactly when they look the same: when
/// they agree in the enabled and the modified flag and, for enabled buttons,
/// in the interaction bucket.
pub proof fn lemma_codes_tell_states_apart(
    enabled: bool,
    modified: bool,
    bucket: Bucket,
    other_enabled: bool,
    other_modified: bool,
    other_bucket: Bucket,
)
    ensures
        spec_code(enabled, modified, bucket) == spec_code(
            other_enabled,
            other_modified,
            other_bucket,
        ) <==> (enabled == other_enabled && modified == other_modified && (enabled ==> bucket
            == other_bucket)),
{
}

/// A pointer that comes from outside the rectangle, goes down inside it and
/// comes up inside it clicks an enabled button in the frame of the release and
/// in no other; a disabled button is never clicked.
pub proof fn lemma_click_on_release(
    area: Rectangle,
    enabled: bool,
    before: PointerState,
    outside: PointerSample,
    press: PointerSample,
    release: PointerSample,
)
    requires
        !area.spec_contains(outside.position),
        area.spec_contains(press.position) && press.down,
        area.spec_contains(release.position) && !release.down,
    ensures
        ({
            let s1 = before.spec_advance(outside);
            let s2 = s1.spec_advance(press);
            &&& !reports_click(enabled, spec_classify(area, outside, before))
            &&& !reports_click(enabled, spec_classify(area, press, s1))
            &&& reports_click(enabled, spec_classify(area, release, s2)) == enabled
        }),
{
}

} // verus!
