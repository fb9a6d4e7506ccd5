use weixin::theme::{rgb, rgba, weixin_colors, Theme, ThemeColors, ThemeMode};

#[test]
fn toggle_switches_mode() {
    assert_eq!(ThemeMode::Light.toggle(), ThemeMode::Dark);
    assert_eq!(ThemeMode::Dark.toggle(), ThemeMode::Light);
    assert_eq!(ThemeMode::Light.toggle().toggle(), ThemeMode::Light);
}

#[test]
fn colour_encoding() {
    assert_eq!(rgb(0xEDEDED).hex, 0xEDEDEDFF);
    assert_eq!(rgba(0x00000020).hex, 0x00000020);
}

#[test]
fn theme_palettes() {
    let light = Theme::light();
    assert_eq!(light.mode, ThemeMode::Light);
    assert!(!light.is_dark());
    assert_eq!(light.colors, ThemeColors::light());
    assert_eq!(light.colors.toolbar_background.hex, 0xEDEDEDFF);
    assert_eq!(light.colors.shadow.hex, 0x00000020);
    let dark = Theme::dark();
    assert!(dark.is_dark());
    assert_eq!(dark.colors.toolbar_background.hex, 0x1E1E1EFF);
    assert_eq!(dark.colors.toolbar_icon_normal.hex, 0xFFFFFFAA);
    assert_ne!(light.colors, dark.colors);
}

#[test]
fn toggled_theme() {
    let t = Theme::new(ThemeMode::Light).toggled();
    assert_eq!(t.mode, ThemeMode::Dark);
    assert_eq!(t.colors, ThemeColors::dark());
    let back = t.toggled();
    assert_eq!(back.mode, ThemeMode::Light);
    assert_eq!(back.colors, ThemeColors::light());
}

#[test]
fn layout_colours() {
    let l = weixin_colors(ThemeMode::Light);
    let d = weixin_colors(ThemeMode::Dark);
    assert_eq!(l.session_list_bg.hex, 0xF7F7F7FF);
    assert_eq!(d.session_list_bg.hex, 0x1F1F1FFF);
    assert_eq!(l.weixin_green, d.weixin_green);
    assert_eq!(d.message_bubble_other.hex, 0x3A3A3AFF);
}
