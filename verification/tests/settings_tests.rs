use weixin::settings::{
    font_size_slider_index, shows_shortcut, slider_font_size, tab_icon_path, tab_id,
    theme_mode_label, InputFocusEvent, LanguageHover, SettingsState, SettingsTab,
    ShortcutInputField, ShortcutSendHover, ThemeHover, TranslateLanguageHover,
    SHORTCUT_INPUT_PLACEHOLDER,
};
use weixin::theme::ThemeMode;

#[test]
fn settings_defaults() {
    let s = SettingsState::new();
    assert_eq!(s.get_active_tab(), SettingsTab::General);
    assert_eq!(s.current_language, "简体中文");
    assert_eq!(s.shortcut_send_selection_label(), "Enter");
    assert_eq!(s.translate_language_selection_label(), "简体中文");
    assert_eq!(s.stored_shortcut_text(ShortcutInputField::Screenshot), "Ctrl + Alt + A");
    assert_eq!(s.stored_shortcut_text(ShortcutInputField::Lock), "Ctrl + Alt + L");
    assert_eq!(s.stored_shortcut_text(ShortcutInputField::ToggleWindow), "Ctrl + Alt + W");
    assert!(!s.is_auto_download_input_focused());
}

#[test]
fn tabs() {
    let mut s = SettingsState::new();
    s.set_active_tab(0);
    assert_eq!(s.get_active_tab(), SettingsTab::AccountAndStorage);
    s.set_active_tab(5);
    assert_eq!(s.get_active_tab(), SettingsTab::About);
    s.set_active_tab(9);
    assert_eq!(s.get_active_tab(), SettingsTab::General);
    assert_eq!(tab_icon_path(2), "setting/arrow-up9.svg");
    assert_eq!(tab_icon_path(7), "setting/setting.svg");
    assert_eq!(tab_id(4), "tab-4");
    assert_eq!(tab_id(6), "tab-unknown");
    assert_eq!(SettingsTab::Plugins.sidebar_id(), "tab-plugins");
}

#[test]
fn hover_marks() {
    let mut s = SettingsState::new();
    s.hover_theme_item(ThemeHover::Light, true);
    assert_eq!(s.theme_hover, ThemeHover::Light);
    s.hover_theme_item(ThemeHover::Dark, false);
    assert_eq!(s.theme_hover, ThemeHover::Light);
    s.hover_theme_item(ThemeHover::Light, false);
    assert_eq!(s.theme_hover, ThemeHover::Nothing);
    s.hover_language_item(LanguageHover::English, true);
    s.choose_language_item();
    assert_eq!(s.language_hover, LanguageHover::Nothing);
    s.set_shortcut_send_hover(ShortcutSendHover::CtrlEnter);
    s.clear_shortcut_send_hover(ShortcutSendHover::Enter);
    assert_eq!(s.shortcut_send_hover_state(), ShortcutSendHover::CtrlEnter);
    s.clear_shortcut_send_hover(ShortcutSendHover::CtrlEnter);
    assert_eq!(s.shortcut_send_hover_state(), ShortcutSendHover::Nothing);
    s.set_translate_language_hover(TranslateLanguageHover::TraditionalChinese);
    s.choose_translate_language("繁体中文", TranslateLanguageHover::TraditionalChinese);
    assert_eq!(s.translate_language_selection_label(), "繁体中文");
    assert_eq!(s.translate_language_hover_state(), TranslateLanguageHover::Nothing);
    s.set_shortcut_send_selection("Ctrl + Enter");
    assert_eq!(s.shortcut_send_selection_label(), "Ctrl + Enter");
}

#[test]
fn auto_download_focus() {
    let mut s = SettingsState::new();
    assert!(s.handle_auto_download_input_focus(InputFocusEvent::Focus));
    assert!(!s.handle_auto_download_input_focus(InputFocusEvent::Focus));
    assert!(s.is_auto_download_input_focused());
    assert!(!s.handle_auto_download_input_focus(InputFocusEvent::Other));
    assert!(s.handle_auto_download_input_focus(InputFocusEvent::Blur));
    assert!(!s.is_auto_download_input_focused());
}

#[test]
fn shortcut_editing() {
    let mut s = SettingsState::new();
    let f = ShortcutInputField::Lock;
    let out = s.handle_shortcut_input_focus(f, InputFocusEvent::Focus, "");
    assert!(out.focus_changed && out.clear_input && out.committed_text.is_none());
    assert!(s.is_shortcut_input_focused(f));
    assert_eq!(s.shortcut_display_text(f, ""), SHORTCUT_INPUT_PLACEHOLDER);
    assert_eq!(s.shortcut_display_text(f, "Ctrl"), "Ctrl");
    assert_eq!(s.shortcut_display_text(ShortcutInputField::Screenshot, "zzz"), "Ctrl + Alt + A");
    let out = s.handle_shortcut_input_focus(f, InputFocusEvent::Blur, "  Shift +   K ");
    assert!(out.focus_changed);
    assert_eq!(out.committed_text.as_deref(), Some("Shift + K"));
    assert!(!s.is_shortcut_input_focused(f));
    assert_eq!(s.stored_shortcut_text(f), "Shift + K");
    let out = s.handle_shortcut_input_focus(f, InputFocusEvent::PressEnter, "   ");
    assert_eq!(out.committed_text.as_deref(), Some("Shift + K"));
    assert_eq!(s.set_shortcut_field_text(ShortcutInputField::Screenshot, " A   B "), "A B");
    s.reset_shortcut_fields();
    assert_eq!(s.stored_shortcut_text(f), "Ctrl + Alt + L");
    assert_eq!(s.stored_shortcut_text(ShortcutInputField::Screenshot), "Ctrl + Alt + A");
    let mut e = SettingsState::new();
    e.set_shortcut_field_text(f, "");
    assert_eq!(e.shortcut_display_text(f, "ignored"), SHORTCUT_INPUT_PLACEHOLDER);
}

#[test]
fn clear_button_shown_for_shortcuts_only() {
    assert!(shows_shortcut("Ctrl + A"));
    assert!(!shows_shortcut(SHORTCUT_INPUT_PLACEHOLDER));
    assert!(!shows_shortcut("点击设置"));
}

#[test]
fn font_slider() {
    assert_eq!(slider_font_size(0), 14);
    assert_eq!(slider_font_size(1), 16);
    assert_eq!(slider_font_size(7), 22);
    assert_eq!(slider_font_size(8), 16);
    assert_eq!(font_size_slider_index(14), 0);
    assert_eq!(font_size_slider_index(15), 1);
    assert_eq!(font_size_slider_index(19), 4);
    assert_eq!(font_size_slider_index(30), 1);
    for ix in 0..8 {
        assert_eq!(font_size_slider_index(slider_font_size(ix) as i32), ix as u32);
    }
}

#[test]
fn theme_labels() {
    assert_eq!(theme_mode_label(ThemeMode::Light), "浅色模式");
    assert_eq!(theme_mode_label(ThemeMode::Dark), "深色模式");
}
