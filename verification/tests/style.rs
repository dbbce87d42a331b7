use embedded_graphics::pixelcolor::{IntoStorage, Rgb565, Rgb888, RgbColor, WebColors};
use kolibri_embedded_gui::color::rgb565;
use kolibri_embedded_gui::error::GuiError;
use kolibri_embedded_gui::font::Font;
use kolibri_embedded_gui::geometry::Size;
use kolibri_embedded_gui::interaction::{Bucket, Interaction};
use kolibri_embedded_gui::style::{
    medsize_bootstrap_rgb565_style, Style, WidgetContext, WidgetContextStyle, WidgetStyle,
};

fn plain(code: u8) -> WidgetStyle<u8> {
    WidgetStyle {
        border_width: code as u32,
        border_color: code,
        background_color: code + 1,
        foreground_color: code + 2,
    }
}

fn group(code: u8) -> WidgetContextStyle<u8> {
    WidgetContextStyle {
        normal: plain(code),
        hover: plain(code + 10),
        active: plain(code + 20),
        disabled: plain(code + 30),
    }
}

fn theme(primary: bool, secondary: bool) -> Style<u8> {
    let base = medsize_bootstrap_rgb565_style();
    Style {
        background_color: 0,
        default_font: base.default_font,
        text_color: 1,
        normal_widget: group(40),
        primary_widget: if primary { Some(group(80)) } else { None },
        secondary_widget: if secondary { Some(group(120)) } else { None },
        default_widget_height: base.default_widget_height,
        spacing: base.spacing,
        button_corner_radius: base.button_corner_radius,
    }
}

fn same(a: WidgetStyle<u8>, b: WidgetStyle<u8>) -> bool {
    a.border_width == b.border_width
        && a.border_color == b.border_color
        && a.background_color == b.background_color
        && a.foreground_color == b.foreground_color
}

#[test]
fn bootstrap_constants() {
    let style = medsize_bootstrap_rgb565_style();
    assert_eq!(style.default_widget_height, 16);
    assert_eq!(style.button_corner_radius, 5);
    assert_eq!(style.spacing.item_spacing, Size::new(8, 4));
    assert_eq!(style.spacing.button_padding, Size::new(5, 5));
    assert_eq!(style.spacing.default_padding, Size::new(1, 1));
    assert_eq!(style.spacing.window_border_padding, Size::new(3, 3));
    assert_eq!(style.default_font, Font::new(Size::new(9, 15), 0));
}

#[test]
fn bootstrap_normal_context() {
    let style = medsize_bootstrap_rgb565_style();
    assert_eq!(style.background_color, 0x0000);
    assert_eq!(style.text_color, 0xFFFF);
    let normal = style.normal_widget;
    assert_eq!(normal.normal.border_width, 1);
    assert_eq!(normal.normal.border_color, 0xFFFF);
    assert_eq!(normal.normal.background_color, 0x0000);
    assert_eq!(normal.normal.foreground_color, 0xFFFF);
    assert_eq!(normal.hover.border_width, 1);
    assert_eq!(normal.hover.border_color, 0xFFFF);
    assert_eq!(normal.hover.background_color, 0xD69A);
    assert_eq!(normal.hover.foreground_color, 0x0000);
    assert_eq!(normal.active.border_width, 0);
    assert_eq!(normal.active.border_color, 0xFFFF);
    assert_eq!(normal.active.background_color, 0xFFFF);
    assert_eq!(normal.active.foreground_color, 0x0000);
    assert_eq!(normal.disabled.border_width, 1);
    assert_eq!(normal.disabled.border_color, 0xAD55);
    assert_eq!(normal.disabled.background_color, 0x0000);
    assert_eq!(normal.disabled.foreground_color, 0xAD55);
}

#[test]
fn bootstrap_primary_context() {
    let primary = medsize_bootstrap_rgb565_style().primary_widget.unwrap();
    let expected = [
        (primary.normal, 0x137F, 0xFFFF),
        (primary.hover, 0x0AFA, 0xFFFF),
        (primary.active, 0x0AD9, 0xFFFF),
        (primary.disabled, 0x12B6, 0xD69A),
    ];
    for (style, fill, foreground) in expected {
        assert_eq!(style.border_width, 0);
        assert_eq!(style.border_color, fill);
        assert_eq!(style.background_color, fill);
        assert_eq!(style.foreground_color, foreground);
    }
}

#[test]
fn bootstrap_secondary_context() {
    let secondary = medsize_bootstrap_rgb565_style().secondary_widget.unwrap();
    let expected = [
        (secondary.normal, 0x6BAF, 0xFFFF),
        (secondary.hover, 0x5B0D, 0xFFFF),
        (secondary.active, 0x0AD9, 0xFFFF),
        (secondary.disabled, 0x52CC, 0xB596),
    ];
    for (style, fill, foreground) in expected {
        assert_eq!(style.border_width, 0);
        assert_eq!(style.border_color, fill);
        assert_eq!(style.background_color, fill);
        assert_eq!(style.foreground_color, foreground);
    }
}

#[test]
fn bootstrap_colours_are_those_of_the_display_library() {
    let style = medsize_bootstrap_rgb565_style();
    assert_eq!(style.text_color, Rgb565::WHITE.into_storage());
    assert_eq!(style.background_color, Rgb565::CSS_BLACK.into_storage());
    assert_eq!(
        style.normal_widget.hover.background_color,
        Rgb565::CSS_LIGHT_GRAY.into_storage()
    );
    assert_eq!(
        style.normal_widget.disabled.border_color,
        Rgb565::CSS_DARK_GRAY.into_storage()
    );
    assert_eq!(
        style.primary_widget.unwrap().normal.background_color,
        Rgb565::from(Rgb888::new(13, 110, 253)).into_storage()
    );
    assert_eq!(
        style.secondary_widget.unwrap().disabled.foreground_color,
        Rgb565::from(Rgb888::new(177, 179, 180)).into_storage()
    );
}

#[test]
fn disabled_overrides_interaction() {
    let normal = group(40);
    for bucket in [Bucket::Idle, Bucket::Hover, Bucket::Active] {
        assert!(same(normal.for_state(false, bucket), plain(70)));
    }
    assert!(same(normal.for_state(true, Bucket::Idle), plain(40)));
    assert!(same(normal.for_state(true, Bucket::Hover), plain(50)));
    assert!(same(normal.for_state(true, Bucket::Active), plain(60)));
}

#[test]
fn resolve_picks_context_and_state() {
    let style = theme(true, true);
    let cases = [
        (WidgetContext::Normal, 40),
        (WidgetContext::Primary, 80),
        (WidgetContext::Secondary, 120),
    ];
    for (context, base) in cases {
        assert!(same(style.resolve(context, true, Interaction::Idle), plain(base)));
        assert!(same(style.resolve(context, true, Interaction::Hovered), plain(base + 10)));
        assert!(same(style.resolve(context, true, Interaction::Pressed), plain(base + 20)));
        assert!(same(style.resolve(context, true, Interaction::Dragged), plain(base + 20)));
        assert!(same(style.resolve(context, true, Interaction::Released), plain(base + 20)));
        for outcome in [
            Interaction::Idle,
            Interaction::Hovered,
            Interaction::Pressed,
            Interaction::Dragged,
            Interaction::Released,
        ] {
            assert!(same(style.resolve(context, false, outcome), plain(base + 30)));
        }
    }
}

#[test]
fn missing_context_is_reported_by_the_lookup() {
    let style = theme(false, true);
    assert!(matches!(
        style.context_style(WidgetContext::Primary),
        Err(GuiError::InvalidStyleContext)
    ));
    assert!(style.context_style(WidgetContext::Secondary).is_ok());
    assert!(style.context_style(WidgetContext::Normal).is_ok());
    let style = theme(true, false);
    assert!(matches!(
        style.context_style(WidgetContext::Secondary),
        Err(GuiError::InvalidStyleContext)
    ));
}

#[test]
fn missing_context_falls_back_to_normal() {
    let style = theme(false, false);
    for context in [WidgetContext::Primary, WidgetContext::Secondary] {
        let fallback = style.context_style_or_normal(context);
        assert!(same(fallback.normal, plain(40)));
        assert!(same(style.resolve(context, true, Interaction::Hovered), plain(50)));
        assert!(same(style.resolve(context, false, Interaction::Hovered), plain(70)));
    }
    let style = theme(true, false);
    assert!(same(
        style.context_style_or_normal(WidgetContext::Primary).normal,
        plain(80)
    ));
}

fn scaled(value: u8, max: u32) -> u16 {
    ((value as u32 * ((max << 24) / 255) + (1 << 23)) >> 24) as u16
}

#[test]
fn rgb565_scales_every_channel_value() {
    for value in 0..=255u8 {
        assert_eq!(rgb565(value, 0, 0), scaled(value, 31) << 11);
        assert_eq!(rgb565(0, value, 0), scaled(value, 63) << 5);
        assert_eq!(rgb565(0, 0, value), scaled(value, 31));
        assert_eq!(
            rgb565(value, value, value),
            scaled(value, 31) * 0x800 + scaled(value, 63) * 0x20 + scaled(value, 31)
        );
    }
}

#[test]
fn rgb565_known_words() {
    assert_eq!(rgb565(0, 0, 0), 0x0000);
    assert_eq!(rgb565(255, 255, 255), 0xFFFF);
    assert_eq!(rgb565(255, 0, 0), 0xF800);
    assert_eq!(rgb565(0, 255, 0), 0x07E0);
    assert_eq!(rgb565(0, 0, 255), 0x001F);
    assert_eq!(rgb565(13, 110, 253), 0x137F);
    assert_eq!(rgb565(4, 4, 4), 0x0020);
    assert_eq!(rgb565(5, 5, 5), 0x0821);
}
