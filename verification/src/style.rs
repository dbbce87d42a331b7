//! Themes.
//!
//! A [`Style`] holds what a widget looks like in each context and in each
//! interaction state, and the constants of the layout. It is generic over the
//! colour type, of which nothing is asked but that it can be copied.
use vstd::prelude::*;
use crate::color::{
    rgb565_css_black,
    rgb565_css_dark_gray,
    rgb565_css_light_gray,
    rgb565,
    rgb565_white,
    rgb565_word,
};
use crate::error::{GuiError, GuiResult};
use crate::font::{ascii_font_9x15, Font};
use crate::geometry::Size;
use crate::interaction::{Bucket, Interaction};

verus! {

/// The gaps and paddings of a theme.
#[derive(Clone, Copy, Debug, PartialEq, Eq, Structural)]
pub struct Spacing {
    /// The gap between adjacent items.
    pub item_spacing: Size,
    /// The padding inside a button.
    pub button_padding: Size,
    /// The padding around the border of a widget.
    pub default_padding: Size,
    /// The padding inside a window's border.
    pub window_border_padding: Size,
}

/// The role a widget plays, which selects one group of styles.
#[derive(Clone, Copy, Debug, PartialEq, Eq, Structural)]
pub enum WidgetContext {
    Normal,
    Primary,
    Secondary,
}

/// How a widget is drawn in one state.
#[derive(Clone, Copy, Debug)]
pub struct WidgetStyle<COL> {
    pub border_width: u32,
    pub border_color: COL,
    pub background_color: COL,
    pub foreground_color: COL,
}

/// How the widgets of one context are drawn in each state.
#[derive(Clone, Copy, Debug)]
pub struct WidgetContextStyle<COL> {
    pub normal: WidgetStyle<COL>,
    pub hover: WidgetStyle<COL>,
    pub active: WidgetStyle<COL>,
    pub disabled: WidgetStyle<COL>,
}

/// A theme.
#[derive(Clone, Copy, Debug)]
pub struct Style<COL> {
    /// The colour behind everything.
    pub background_color: COL,
    /// The font of labels.
    pub default_font: Font,
    /// The colour of plain text.
    pub text_color: COL,
    /// The styles of the normal context, which every theme has.
    pub normal_widget: WidgetContextStyle<COL>,
    /// The styles of the primary context, if the theme has them.
    pub primary_widget: Option<WidgetContextStyle<COL>>,
    /// The styles of the secondary context, if the theme has them.
    pub secondary_widget: Option<WidgetContextStyle<COL>>,
    /// The least height of a widget such as a button.
    pub default_widget_height: u32,
    /// The gaps and paddings.
    pub spacing: Spacing,
    /// The radius of a button's corners.
    pub button_corner_radius: u32,
}

impl<COL: Copy> WidgetContextStyle<COL> {
    /// The style of a widget that is enabled or not and whose interaction falls
    /// into `bucket`. A disabled widget has the disabled style whatever the
    /// pointer does.
    pub open spec fn spec_for_state(self, enabled: bool, bucket: Bucket) -> WidgetStyle<COL> {
        if !enabled {
            self.disabled
        } else {
            match bucket {
                Bucket::Idle => self.normal,
                Bucket::Hover => self.hover,
                Bucket::Active => self.active,
            }
        }
    }

    /// Picks the style for one state.
    pub fn for_state(&self, enabled: bool, bucket: Bucket) -> (style: WidgetStyle<COL>)
        ensures
            style == self.spec_for_state(enabled, bucket),
    {
        if !enabled {
            self.disabled
        } else {
            match bucket {
                Bucket::Idle => self.normal,
                Bucket::Hover => self.hover,
                Bucket::Active => self.active,
            }
        }
    }
}

impl<COL: Copy> Style<COL> {
    /// The theme's entry for `context`, if it has one.
    pub open spec fn entry(self, context: WidgetContext) -> Option<WidgetContextStyle<COL>> {
        match context {
            WidgetContext::Normal => Some(self.normal_widget),
            WidgetContext::Primary => self.primary_widget,
            WidgetContext::Secondary => self.secondary_widget,
        }
    }

    /// The styles used for `context`: its own entry, or the normal context's
    /// where it has none.
    pub open spec fn spec_context_or_normal(self, context: WidgetContext) -> WidgetContextStyle<
        COL,
    > {
        match self.entry(context) {
            Some(group) => group,
            None => self.normal_widget,
        }
    }

    /// The border, background and foreground of a widget in `context` that is
    /// enabled or not and has interaction `outcome`.
    pub open spec fn spec_resolve(
        self,
        context: WidgetContext,
        enabled: bool,
        outcome: Interaction,
    ) -> WidgetStyle<COL> {
        self.spec_context_or_normal(context).spec_for_state(enabled, outcome.spec_bucket())
    }

    /// Looks the styles of `context` up. A context without an entry is reported
    /// as [`GuiError::InvalidStyleContext`].
    pub fn context_style(&self, context: WidgetContext) -> (result: GuiResult<
        WidgetContextStyle<COL>,
    >)
        ensures
            match self.entry(context) {
                Some(group) => result == Ok::<WidgetContextStyle<COL>, GuiError>(group),
                None => result == Err::<WidgetContextStyle<COL>, GuiError>(
                    GuiError::InvalidStyleContext,
                ),
            },
    {
        let entry = match context {
            WidgetContext::Normal => Some(self.normal_widget),
            WidgetContext::Primary => self.primary_widget,
            WidgetContext::Secondary => self.secondary_widget,
        };
        match entry {
            Some(group) => Ok(group),
            None => Err(GuiError::InvalidStyleContext),
        }
    }

    /// The styles of `context`, or those of the normal context where the theme
    /// has no entry for it: a missing entry never fails a frame.
    pub fn context_style_or_normal(&self, context: WidgetContext) -> (group: WidgetContextStyle<
        COL,
    >)
        ensures
            group == self.spec_context_or_normal(context),
    {
        match self.context_style(context) {
            Ok(group) => group,
            Err(_) => self.normal_widget,
        }
    }

    /// Resolves the look of a widget. The function is total: every context,
    /// flag and outcome has a style.
    pub fn resolve(&self, context: WidgetContext, enabled: bool, outcome: Interaction) -> (style:
        WidgetStyle<COL>)
        ensures
            style == self.spec_resolve(context, enabled, outcome),
    {
        self.context_style_or_normal(context).for_state(enabled, outcome.bucket())
    }
}

/// A style with the same colour for border and background.
pub open spec fn solid(fill: u16, foreground: u16) -> WidgetStyle<u16> {
    WidgetStyle {
        border_width: 0,
        border_color: fill,
        background_color: fill,
        foreground_color: foreground,
    }
}

/// The theme that [`medsize_bootstrap_rgb565_style`] returns.
pub open spec fn bootstrap_rgb565() -> Style<u16> {
    let white: u16 = 0xFFFF;
    let black = rgb565_word(0, 0, 0);
    let light_gray = rgb565_word(211, 211, 211);
    let dark_gray = rgb565_word(169, 169, 169);
    Style {
        background_color: black,
        default_font: Font { character_size: Size { width: 9, height: 15 }, character_spacing: 0 },
        text_color: white,
        normal_widget: WidgetContextStyle {
            normal: WidgetStyle {
                border_width: 1,
                border_color: white,
                background_color: black,
                foreground_color: white,
            },
            hover: WidgetStyle {
                border_width: 1,
                border_color: white,
                background_color: light_gray,
                foreground_color: black,
            },
            active: WidgetStyle {
                border_width: 0,
                border_color: white,
                background_color: white,
                foreground_color: black,
            },
            disabled: WidgetStyle {
                border_width: 1,
                border_color: dark_gray,
                background_color: black,
                foreground_color: dark_gray,
            },
        },
        primary_widget: Some(
            WidgetContextStyle {
                normal: solid(rgb565_word(13, 110, 253), white),
                hover: solid(rgb565_word(11, 94, 215), white),
                active: solid(rgb565_word(10, 88, 202), white),
                disabled: solid(rgb565_word(19, 84, 179), light_gray),
            },
        ),
        secondary_widget: Some(
            WidgetContextStyle {
                normal: solid(rgb565_word(108, 117, 125), white),
                hover: solid(rgb565_word(92, 99, 106), white),
                active: solid(rgb565_word(10, 88, 202), white),
                disabled: solid(rgb565_word(81, 89, 95), rgb565_word(177, 179, 180)),
            },
        ),
        default_widget_height: 16,
        spacing: Spacing {
            item_spacing: Size { width: 8, height: 4 },
            button_padding: Size { width: 5, height: 5 },
            default_padding: Size { width: 1, height: 1 },
            window_border_padding: Size { width: 3, height: 3 },
        },
        button_corner_radius: 5,
    }
}

/// A borderless style filled with the 24-bit colour `(red, green, blue)`.
fn filled(red: u8, green: u8, blue: u8, foreground: u16) -> (style: WidgetStyle<u16>)
    ensures
        style == solid(rgb565_word(red, green, blue), foreground),
{
    let fill: u16 = rgb565(red, green, blue);
    WidgetStyle {
        border_width: 0,
        border_color: fill,
        background_color: fill,
        foreground_color: foreground,
    }
}

/// A dark theme for 16-bit RGB displays, after the Bootstrap palette: white on
/// black in the normal context, blue in the primary and gray in the secondary.
pub fn medsize_bootstrap_rgb565_style() -> (style: Style<u16>)
    ensures
        style == bootstrap_rgb565(),
{
    let white: u16 = rgb565_white();
    let black: u16 = rgb565_css_black();
    let light_gray: u16 = rgb565_css_light_gray();
    let dark_gray: u16 = rgb565_css_dark_gray();
    Style {
        background_color: black,
        default_font: ascii_font_9x15(),
        text_color: white,
        normal_widget: WidgetContextStyle {
            normal: WidgetStyle {
                border_width: 1,
                border_color: white,
                background_color: black,
                foreground_color: white,
            },
            hover: WidgetStyle {
                border_width: 1,
                border_color: white,
                background_color: light_gray,
                foreground_color: black,
            },
            active: WidgetStyle {
                border_width: 0,
                border_color: white,
                background_color: white,
                foreground_color: black,
            },
            disabled: WidgetStyle {
                border_width: 1,
                border_color: dark_gray,
                background_color: black,
                foreground_color: dark_gray,
            },
        },
        primary_widget: Some(
            WidgetContextStyle {
                normal: filled(13, 110, 253, white),
                hover: filled(0x0b, 0x5e, 0xd7, white),
                active: filled(10, 88, 202, white),
                disabled: filled(0x13, 0x54, 0xb3, light_gray),
            },
        ),
        secondary_widget: Some(
            WidgetContextStyle {
                normal: filled(108, 117, 125, white),
                hover: filled(92, 99, 106, white),
                active: filled(0x0a, 0x58, 0xca, white),
                disabled: filled(81, 89, 95, rgb565(177, 179, 180)),
            },
        ),
        default_widget_height: 16,
        spacing: Spacing {
            item_spacing: Size { width: 8, height: 4 },
            button_padding: Size { width: 5, height: 5 },
            default_padding: Size { width: 1, height: 1 },
            window_border_padding: Size { width: 3, height: 3 },
        },
        button_corner_radius: 5,
    }
}

} // verus!
