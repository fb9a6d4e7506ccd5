//! The settings window: tabs, the hover and selection state of its menus,
//! the shortcut inputs and the font size slider.
use vstd::prelude::*;
use vstd::string::*;
use crate::text::{lemma_normalize_idempotent, normalize_shortcut_text, normalize_seq, str_eq, string_of};
use crate::theme::ThemeMode;

verus! {

/// What an empty shortcut input shows.
pub const SHORTCUT_INPUT_PLACEHOLDER: &'static str = "按下快捷键";
/// Default shortcut of the screenshot.
pub const SHORTCUT_SCREENSHOT_DEFAULT: &'static str = "Ctrl + Alt + A";
/// Default shortcut of locking the client.
pub const SHORTCUT_LOCK_DEFAULT: &'static str = "Ctrl + Alt + L";
/// Default shortcut of showing or hiding the window.
pub const SHORTCUT_TOGGLE_DEFAULT: &'static str = "Ctrl + Alt + W";

/// The tabs of the settings window, in sidebar order.
#[derive(Clone, Copy, Debug, PartialEq, Eq, Structural)]
pub enum SettingsTab {
    AccountAndStorage,
    General,
    Shortcuts,
    Notifications,
    Plugins,
    About,
}

impl SettingsTab {
    /// The element id of the tab in the sidebar of the first settings
    /// window.
    pub fn sidebar_id(&self) -> (r: &'static str)
        ensures
            r@ == match *self {
                SettingsTab::AccountAndStorage => "tab-account"@,
                SettingsTab::General => "tab-general"@,
                SettingsTab::Shortcuts => "tab-shortcuts"@,
                SettingsTab::Notifications => "tab-notifications"@,
                SettingsTab::Plugins => "tab-plugins"@,
                SettingsTab::About => "tab-about"@,
            },
    {
        match self {
            SettingsTab::AccountAndStorage => "tab-account",
            SettingsTab::General => "tab-general",
            SettingsTab::Shortcuts => "tab-shortcuts",
            SettingsTab::Notifications => "tab-notifications",
            SettingsTab::Plugins => "tab-plugins",
            SettingsTab::About => "tab-about",
        }
    }
}

/// The tab at position `ix` of the sidebar; an unknown position shows the
/// general tab.
pub open spec fn tab_at(ix: int) -> SettingsTab {
    if ix == 0 { SettingsTab::AccountAndStorage }
    else if ix == 1 { SettingsTab::General }
    else if ix == 2 { SettingsTab::Shortcuts }
    else if ix == 3 { SettingsTab::Notifications }
    else if ix == 4 { SettingsTab::Plugins }
    else if ix == 5 { SettingsTab::About }
    else { SettingsTab::General }
}

/// The icon that stands for each tab.
pub open spec fn tab_icon_of(tab: SettingsTab) -> Seq<char> {
    match tab {
        SettingsTab::AccountAndStorage => "setting/user.svg"@,
        SettingsTab::General => "setting/setting.svg"@,
        SettingsTab::Shortcuts => "setting/arrow-up9.svg"@,
        SettingsTab::Notifications => "setting/notifications.svg"@,
        SettingsTab::Plugins => "setting/risk.svg"@,
        SettingsTab::About => "setting/about.svg"@,
    }
}

/// The label of each tab in the sidebar.
pub open spec fn tab_label_of(tab: SettingsTab) -> Seq<char> {
    match tab {
        SettingsTab::AccountAndStorage => "账号与存储"@,
        SettingsTab::General => "通用"@,
        SettingsTab::Shortcuts => "快捷键"@,
        SettingsTab::Notifications => "通知"@,
        SettingsTab::Plugins => "插件"@,
        SettingsTab::About => "关于微信"@,
    }
}

/// The sidebar labels from top to bottom.
pub open spec fn sidebar_labels() -> Seq<Seq<char>> {
    seq!["账号与存储"@, "通用"@, "快捷键"@, "通知"@, "插件"@, "关于微信"@]
}

/// The icon of the tab at position `ix`.
pub open spec fn tab_icon_seq(ix: int) -> Seq<char> {
    if ix == 0 { "setting/user.svg"@ }
    else if ix == 2 { "setting/arrow-up9.svg"@ }
    else if ix == 3 { "setting/notifications.svg"@ }
    else if ix == 4 { "setting/risk.svg"@ }
    else if ix == 5 { "setting/about.svg"@ }
    else { "setting/setting.svg"@ }
}

/// The element id of the tab at position `ix`.
pub open spec fn tab_id_seq(ix: int) -> Seq<char> {
    if ix == 0 { "tab-0"@ }
    else if ix == 1 { "tab-1"@ }
    else if ix == 2 { "tab-2"@ }
    else if ix == 3 { "tab-3"@ }
    else if ix == 4 { "tab-4"@ }
    else if ix == 5 { "tab-5"@ }
    else { "tab-unknown"@ }
}

/// The icon of the tab at position `ix`.
pub fn tab_icon_path(ix: usize) -> (r: &'static str)
    ensures
        r@ == tab_icon_seq(ix as int),
{
    if ix == 0 { "setting/user.svg" }
    else if ix == 2 { "setting/arrow-up9.svg" }
    else if ix == 3 { "setting/notifications.svg" }
    else if ix == 4 { "setting/risk.svg" }
    else if ix == 5 { "setting/about.svg" }
    else { "setting/setting.svg" }
}

/// The element id of the tab at position `ix`.
pub fn tab_id(ix: usize) -> (r: &'static str)
    ensures
        r@ == tab_id_seq(ix as int),
{
    if ix == 0 { "tab-0" }
    else if ix == 1 { "tab-1" }
    else if ix == 2 { "tab-2" }
    else if ix == 3 { "tab-3" }
    else if ix == 4 { "tab-4" }
    else if ix == 5 { "tab-5" }
    else { "tab-unknown" }
}

/// Which entry of the appearance menu the pointer is over.
#[derive(Clone, Copy, Debug, PartialEq, Eq, Structural)]
pub enum ThemeHover {
    Nothing,
    Light,
    Dark,
}

/// Which entry of the language menu the pointer is over.
#[derive(Clone, Copy, Debug, PartialEq, Eq, Structural)]
pub enum LanguageHover {
    Nothing,
    ChineseSimplified,
    ChineseTraditional,
    English,
}

/// Which entry of the translation language menu the pointer is over.
#[derive(Clone, Copy, Debug, PartialEq, Eq, Structural)]
pub enum TranslateLanguageHover {
    Nothing,
    SimplifiedChinese,
    TraditionalChinese,
}

/// Which entry of the send-key menu the pointer is over.
#[derive(Clone, Copy, Debug, PartialEq, Eq, Structural)]
pub enum ShortcutSendHover {
    Nothing,
    Enter,
    CtrlEnter,
}

/// The three shortcut inputs.
#[derive(Clone, Copy, Debug, PartialEq, Eq, Structural)]
pub enum ShortcutInputField {
    Screenshot,
    Lock,
    ToggleWindow,
}

/// What an input reports.
#[derive(Clone, Copy, Debug, PartialEq, Eq, Structural)]
pub enum InputFocusEvent {
    Focus,
    Blur,
    PressEnter,
    Other,
}

/// The hover state after the pointer enters (`hovering`) or leaves the
/// entry `target`: entering marks it; leaving clears the mark only if it is
/// on that entry.
pub open spec fn next_hover<T>(current: T, target: T, none: T, hovering: bool) -> T {
    if hovering {
        target
    } else if current == target {
        none
    } else {
        current
    }
}

/// What an edit of a shortcut input stores when its input holds `raw`:
/// the typed shortcut with its whitespace collapsed, or the stored one
/// when nothing was typed.
pub open spec fn committed_text(stored: Seq<char>, raw: Seq<char>) -> Seq<char> {
    if normalize_seq(raw).len() == 0 {
        stored
    } else {
        normalize_seq(raw)
    }
}

/// The texts the three shortcut inputs show when not being edited.
pub struct ShortcutTexts {
    pub screenshot: String,
    pub lock: String,
    pub toggle_window: String,
}

/// The state of the settings window that its decisions read and change.
pub struct SettingsState {
    pub active_tab_ix: usize,
    pub current_language: String,
    pub theme_hover: ThemeHover,
    pub language_hover: LanguageHover,
    pub translate_language_selection: String,
    pub translate_language_hover: TranslateLanguageHover,
    pub auto_download_input_focused: bool,
    pub shortcut_send_selection: String,
    pub shortcut_send_hover: ShortcutSendHover,
    pub shortcut_display_texts: ShortcutTexts,
    pub focused_shortcut_input: Option<ShortcutInputField>,
}

/// What the view does after a shortcut input reported an event: whether
/// the focus moved, whether the input is to be emptied for a new
/// shortcut, and the text to put back into it when an edit ends.
pub struct ShortcutInputOutcome {
    pub focus_changed: bool,
    pub clear_input: bool,
    pub committed_text: Option<String>,
}

impl SettingsState {
    /// The text shown for `field` when it is not being edited.
    pub open spec fn display_text_of(&self, field: ShortcutInputField) -> Seq<char> {
        match field {
            ShortcutInputField::Screenshot => self.shortcut_display_texts.screenshot@,
            ShortcutInputField::Lock => self.shortcut_display_texts.lock@,
            ShortcutInputField::ToggleWindow => self.shortcut_display_texts.toggle_window@,
        }
    }

    /// The settings window as it opens: the general tab, Simplified
    /// Chinese, Enter to send, the default shortcuts, nothing hovered or
    /// focused.
    pub fn new() -> (r: Self)
        ensures
            r.active_tab_ix == 1,
            r.current_language@ == "简体中文"@,
            r.theme_hover == ThemeHover::Nothing,
            r.language_hover == LanguageHover::Nothing,
            r.translate_language_selection@ == "简体中文"@,
            r.translate_language_hover == TranslateLanguageHover::Nothing,
            !r.auto_download_input_focused,
            r.shortcut_send_selection@ == "Enter"@,
            r.shortcut_send_hover == ShortcutSendHover::Nothing,
            r.display_text_of(ShortcutInputField::Screenshot) == SHORTCUT_SCREENSHOT_DEFAULT@,
            r.display_text_of(ShortcutInputField::Lock) == SHORTCUT_LOCK_DEFAULT@,
            r.display_text_of(ShortcutInputField::ToggleWindow) == SHORTCUT_TOGGLE_DEFAULT@,
            r.focused_shortcut_input is None,
    {
        SettingsState {
            active_tab_ix: 1,
            current_language: string_of("简体中文"),
            theme_hover: ThemeHover::Nothing,
            language_hover: LanguageHover::Nothing,
            translate_language_selection: string_of("简体中文"),
            translate_language_hover: TranslateLanguageHover::Nothing,
            auto_download_input_focused: false,
            shortcut_send_selection: string_of("Enter"),
            shortcut_send_hover: ShortcutSendHover::Nothing,
            shortcut_display_texts: ShortcutTexts {
                screenshot: string_of(SHORTCUT_SCREENSHOT_DEFAULT),
                lock: string_of(SHORTCUT_LOCK_DEFAULT),
                toggle_window: string_of(SHORTCUT_TOGGLE_DEFAULT),
            },
            focused_shortcut_input: None,
        }
    }

    /// The tab being shown.
    pub fn get_active_tab(&self) -> (r: SettingsTab)
        ensures
            r == tab_at(self.active_tab_ix as int),
    {
        let ix = self.active_tab_ix;
        if ix == 0 { SettingsTab::AccountAndStorage }
        else if ix == 1 { SettingsTab::General }
        else if ix == 2 { SettingsTab::Shortcuts }
        else if ix == 3 { SettingsTab::Notifications }
        else if ix == 4 { SettingsTab::Plugins }
        else if ix == 5 { SettingsTab::About }
        else { SettingsTab::General }
    }

    /// Shows the tab at position `ix`.
    pub fn set_active_tab(&mut self, ix: usize)
        ensures
            *final(self) == (SettingsState { active_tab_ix: final(self).active_tab_ix, ..*old(self) }),
            final(self).active_tab_ix == ix,
    {
        self.active_tab_ix = ix;
    }

    /// Whether the auto-download limit input has the focus.
    pub fn is_auto_download_input_focused(&self) -> (r: bool)
        ensures
            r == self.auto_download_input_focused,
    {
        self.auto_download_input_focused
    }

    /// Follows the focus of the auto-download limit input; true when the
    /// state changed and the view is to be redrawn.
    pub fn handle_auto_download_input_focus(&mut self, event: InputFocusEvent) -> (r: bool)
        ensures
            *final(self) == (SettingsState { auto_download_input_focused: final(self).auto_download_input_focused, ..*old(self) }),
            final(self).auto_download_input_focused == match event {
                InputFocusEvent::Focus => true,
                InputFocusEvent::Blur => false,
                _ => old(self).auto_download_input_focused,
            },
            r == (final(self).auto_download_input_focused != old(self).auto_download_input_focused),
    {
        match event {
            InputFocusEvent::Focus => {
                if !self.auto_download_input_focused {
                    self.auto_download_input_focused = true;
                    true
                } else {
                    false
                }
            },
            InputFocusEvent::Blur => {
                if self.auto_download_input_focused {
                    self.auto_download_input_focused = false;
                    true
                } else {
                    false
                }
            },
            _ => false,
        }
    }

    /// The selected send key.
    pub fn shortcut_send_selection_label(&self) -> (r: String)
        ensures
            r@ == self.shortcut_send_selection@,
    {
        self.shortcut_send_selection.clone()
    }

    /// The hovered entry of the send-key menu.
    pub fn shortcut_send_hover_state(&self) -> (r: ShortcutSendHover)
        ensures
            r == self.shortcut_send_hover,
    {
        self.shortcut_send_hover
    }

    /// The selected translation language.
    pub fn translate_language_selection_label(&self) -> (r: String)
        ensures
            r@ == self.translate_language_selection@,
    {
        self.translate_language_selection.clone()
    }

    /// The hovered entry of the translation language menu.
    pub fn translate_language_hover_state(&self) -> (r: TranslateLanguageHover)
        ensures
            r == self.translate_language_hover,
    {
        self.translate_language_hover
    }

    /// Marks an entry of the send-key menu as hovered.
    pub fn set_shortcut_send_hover(&mut self, hover: ShortcutSendHover)
        ensures
            *final(self) == (SettingsState { shortcut_send_hover: final(self).shortcut_send_hover, ..*old(self) }),
            final(self).shortcut_send_hover == hover,
    {
        self.shortcut_send_hover = hover;
    }

    /// Clears the hover mark of the send-key menu if it is on `hover`.
    pub fn clear_shortcut_send_hover(&mut self, hover: ShortcutSendHover)
        ensures
            *final(self) == (SettingsState { shortcut_send_hover: final(self).shortcut_send_hover, ..*old(self) }),
            final(self).shortcut_send_hover == next_hover(
                old(self).shortcut_send_hover,
                hover,
                ShortcutSendHover::Nothing,
                false,
            ),
    {
        if self.shortcut_send_hover == hover {
            self.shortcut_send_hover = ShortcutSendHover::Nothing;
        }
    }

    /// Selects a send key.
    pub fn set_shortcut_send_selection(&mut self, value: &str)
        ensures
            *final(self) == (SettingsState { shortcut_send_selection: final(self).shortcut_send_selection, ..*old(self) }),
            final(self).shortcut_send_selection@ == value@,
    {
        self.shortcut_send_selection = string_of(value);
    }

    /// Selects a translation language.
    pub fn set_translate_language_selection(&mut self, value: &str)
        ensures
            *final(self) == (SettingsState { translate_language_selection: final(self).translate_language_selection, ..*old(self) }),
            final(self).translate_language_selection@ == value@,
    {
        self.translate_language_selection = string_of(value);
    }

    /// Marks an entry of the translation language menu as hovered.
    pub fn set_translate_language_hover(&mut self, hover: TranslateLanguageHover)
        ensures
            *final(self) == (SettingsState { translate_language_hover: final(self).translate_language_hover, ..*old(self) }),
            final(self).translate_language_hover == hover,
    {
        self.translate_language_hover = hover;
    }

    /// Clears the hover mark of the translation language menu if it is on
    /// `hover`.
    pub fn clear_translate_language_hover(&mut self, hover: TranslateLanguageHover)
        ensures
            *final(self) == (SettingsState { translate_language_hover: final(self).translate_language_hover, ..*old(self) }),
            final(self).translate_language_hover == next_hover(
                old(self).translate_language_hover,
                hover,
                TranslateLanguageHover::Nothing,
                false,
            ),
    {
        if self.translate_language_hover == hover {
            self.translate_language_hover = TranslateLanguageHover::Nothing;
        }
    }

    /// The pointer entered or left an entry of the appearance menu.
    pub fn hover_theme_item(&mut self, target: ThemeHover, hovering: bool)
        ensures
            *final(self) == (SettingsState { theme_hover: final(self).theme_hover, ..*old(self) }),
            final(self).theme_hover == next_hover(
                old(self).theme_hover,
                target,
                ThemeHover::Nothing,
                hovering,
            ),
    {
        if hovering {
            self.theme_hover = target;
        } else if self.theme_hover == target {
            self.theme_hover = ThemeHover::Nothing;
        }
    }

    /// The pointer entered or left an entry of the language menu.
    pub fn hover_language_item(&mut self, target: LanguageHover, hovering: bool)
        ensures
            *final(self) == (SettingsState { language_hover: final(self).language_hover, ..*old(self) }),
            final(self).language_hover == next_hover(
                old(self).language_hover,
                target,
                LanguageHover::Nothing,
                hovering,
            ),
    {
        if hovering {
            self.language_hover = target;
        } else if self.language_hover == target {
            self.language_hover = LanguageHover::Nothing;
        }
    }

    /// An entry of the appearance menu was chosen: the menu closes.
    pub fn choose_theme_item(&mut self)
        ensures
            *final(self) == (SettingsState { theme_hover: final(self).theme_hover, ..*old(self) }),
            final(self).theme_hover == ThemeHover::Nothing,
    {
        self.theme_hover = ThemeHover::Nothing;
    }

    /// An entry of the language menu was chosen: the menu closes.
    pub fn choose_language_item(&mut self)
        ensures
            *final(self) == (SettingsState { language_hover: final(self).language_hover, ..*old(self) }),
            final(self).language_hover == LanguageHover::Nothing,
    {
        self.language_hover = LanguageHover::Nothing;
    }

    /// A translation language was chosen: it is selected and its entry
    /// loses the hover mark.
    pub fn choose_translate_language(&mut self, value: &str, item: TranslateLanguageHover)
        ensures
            *final(self) == (SettingsState { translate_language_selection: final(self).translate_language_selection, translate_language_hover: final(self).translate_language_hover, ..*old(self) }),
            final(self).translate_language_selection@ == value@,
            final(self).translate_language_hover == next_hover(
                old(self).translate_language_hover,
                item,
                TranslateLanguageHover::Nothing,
                false,
            ),
    {
        self.set_translate_language_selection(value);
        self.clear_translate_language_hover(item);
    }

    /// Whether `field` is being edited.
    pub fn is_shortcut_input_focused(&self, field: ShortcutInputField) -> (r: bool)
        ensures
            r == (self.focused_shortcut_input == Some(field)),
    {
        match self.focused_shortcut_input {
            Some(f) => f == field,
            None => false,
        }
    }

    /// The stored text of `field`.
    pub fn stored_shortcut_text(&self, field: ShortcutInputField) -> (r: &String)
        ensures
            r@ == self.display_text_of(field),
    {
        match field {
            ShortcutInputField::Screenshot => &self.shortcut_display_texts.screenshot,
            ShortcutInputField::Lock => &self.shortcut_display_texts.lock,
            ShortcutInputField::ToggleWindow => &self.shortcut_display_texts.toggle_window,
        }
    }

    fn store_shortcut_text(&mut self, field: ShortcutInputField, text: String)
        ensures
            *final(self) == (SettingsState { shortcut_display_texts: final(self).shortcut_display_texts, ..*old(self) }),
            final(self).display_text_of(field) == text@,
            forall|f: ShortcutInputField|
                f != field ==> final(self).display_text_of(f) == old(self).display_text_of(f),
            final(self).focused_shortcut_input == old(self).focused_shortcut_input,
    {
        match field {
            ShortcutInputField::Screenshot => self.shortcut_display_texts.screenshot = text,
            ShortcutInputField::Lock => self.shortcut_display_texts.lock = text,
            ShortcutInputField::ToggleWindow => self.shortcut_display_texts.toggle_window = text,
        }
    }

    /// The text the input of `field` shows: while it is being edited, what
    /// has been typed (`live_text`); otherwise the stored text; the
    /// placeholder where that is empty.
    pub fn shortcut_display_text(&self, field: ShortcutInputField, live_text: &str) -> (r: String)
        ensures
            r@ == {
                let t = if self.focused_shortcut_input == Some(field) {
                    live_text@
                } else {
                    self.display_text_of(field)
                };
                if t.len() == 0 { SHORTCUT_INPUT_PLACEHOLDER@ } else { t }
            },
    {
        let t: &str = if self.is_shortcut_input_focused(field) {
            live_text
        } else {
            self.stored_shortcut_text(field).as_str()
        };
        if t.unicode_len() == 0 {
            string_of(SHORTCUT_INPUT_PLACEHOLDER)
        } else {
            string_of(t)
        }
    }

    /// Sets the text of `field`: stored with its whitespace collapsed; the
    /// view puts the returned text into the input.
    pub fn set_shortcut_field_text(&mut self, field: ShortcutInputField, value: &str) -> (r: String)
        ensures
            *final(self) == (SettingsState { shortcut_display_texts: final(self).shortcut_display_texts, ..*old(self) }),
            r@ == normalize_seq(value@),
            final(self).display_text_of(field) == normalize_seq(value@),
            forall|f: ShortcutInputField|
                f != field ==> final(self).display_text_of(f) == old(self).display_text_of(f),
            final(self).focused_shortcut_input == old(self).focused_shortcut_input,
    {
        let owned = normalize_shortcut_text(value);
        self.store_shortcut_text(field, owned.clone());
        owned
    }

    /// Puts the default shortcuts back.
    pub fn reset_shortcut_fields(&mut self)
        ensures
            *final(self) == (SettingsState { shortcut_display_texts: final(self).shortcut_display_texts, ..*old(self) }),
            final(self).display_text_of(ShortcutInputField::Screenshot) == normalize_seq(
                SHORTCUT_SCREENSHOT_DEFAULT@,
            ),
            final(self).display_text_of(ShortcutInputField::Lock) == normalize_seq(
                SHORTCUT_LOCK_DEFAULT@,
            ),
            final(self).display_text_of(ShortcutInputField::ToggleWindow) == normalize_seq(
                SHORTCUT_TOGGLE_DEFAULT@,
            ),
            final(self).focused_shortcut_input == old(self).focused_shortcut_input,
    {
        self.set_shortcut_field_text(ShortcutInputField::Screenshot, SHORTCUT_SCREENSHOT_DEFAULT);
        self.set_shortcut_field_text(ShortcutInputField::Lock, SHORTCUT_LOCK_DEFAULT);
        self.set_shortcut_field_text(ShortcutInputField::ToggleWindow, SHORTCUT_TOGGLE_DEFAULT);
    }

    /// Ends an edit of `field` whose input holds `raw`: the typed shortcut,
    /// whitespace collapsed, replaces the stored one; an edit that typed
    /// nothing keeps the stored one. Returns the text the input is to show.
    pub fn commit_shortcut_input_text(&mut self, field: ShortcutInputField, raw: &str) -> (r:
        String)
        ensures
            *final(self) == (SettingsState { shortcut_display_texts: final(self).shortcut_display_texts, ..*old(self) }),
            r@ == committed_text(old(self).display_text_of(field), raw@),
            final(self).display_text_of(field) == r@,
            forall|f: ShortcutInputField|
                f != field ==> final(self).display_text_of(f) == old(self).display_text_of(f),
            final(self).focused_shortcut_input == old(self).focused_shortcut_input,
    {
        let normalized = normalize_shortcut_text(raw);
        let final_text = if normalized.as_str().unicode_len() == 0 {
            self.stored_shortcut_text(field).clone()
        } else {
            normalized
        };
        self.store_shortcut_text(field, final_text.clone());
        final_text
    }

    /// Follows an event of the input of `field`, which holds `raw`: focus
    /// starts an edit (the input is emptied); leaving it or pressing Enter
    /// ends the edit and commits what was typed.
    pub fn handle_shortcut_input_focus(
        &mut self,
        field: ShortcutInputField,
        event: InputFocusEvent,
        raw: &str,
    ) -> (r: ShortcutInputOutcome)
        ensures
            *final(self) == (SettingsState { shortcut_display_texts: final(self).shortcut_display_texts, focused_shortcut_input: final(self).focused_shortcut_input, ..*old(self) }),
            final(self).focused_shortcut_input == match event {
                InputFocusEvent::Focus => Some(field),
                InputFocusEvent::Blur => if old(self).focused_shortcut_input == Some(field) {
                    None
                } else {
                    old(self).focused_shortcut_input
                },
                _ => old(self).focused_shortcut_input,
            },
            r.focus_changed == (final(self).focused_shortcut_input
                != old(self).focused_shortcut_input),
            r.clear_input == (event == InputFocusEvent::Focus),
            match event {
                InputFocusEvent::Blur | InputFocusEvent::PressEnter => {
                    let expected = committed_text(old(self).display_text_of(field), raw@);
                    &&& r.committed_text matches Some(t) && t@ == expected
                    &&& final(self).display_text_of(field) == expected
                },
                _ => r.committed_text is None && final(self).display_text_of(field)
                    == old(self).display_text_of(field),
            },
            forall|f: ShortcutInputField|
                f != field ==> final(self).display_text_of(f) == old(self).display_text_of(f),
    {
        match event {
            InputFocusEvent::Focus => {
                let changed = !self.is_shortcut_input_focused(field);
                self.focused_shortcut_input = Some(field);
                ShortcutInputOutcome { focus_changed: changed, clear_input: true, committed_text: None }
            },
            InputFocusEvent::Blur => {
                let changed = self.is_shortcut_input_focused(field);
                if changed {
                    self.focused_shortcut_input = None;
                }
                let text = self.commit_shortcut_input_text(field, raw);
                ShortcutInputOutcome {
                    focus_changed: changed,
                    clear_input: false,
                    committed_text: Some(text),
                }
            },
            InputFocusEvent::PressEnter => {
                let text = self.commit_shortcut_input_text(field, raw);
                ShortcutInputOutcome {
                    focus_changed: false,
                    clear_input: false,
                    committed_text: Some(text),
                }
            },
            InputFocusEvent::Other => ShortcutInputOutcome {
                focus_changed: false,
                clear_input: false,
                committed_text: None,
            },
        }
    }
}

/// Whether a shortcut input shows its clear button, and keeps its minimum
/// width: only when it shows a shortcut rather than a prompt.
pub fn shows_shortcut(display_text: &str) -> (r: bool)
    ensures
        r == (display_text@ != SHORTCUT_INPUT_PLACEHOLDER@ && display_text@ != "点击设置"@),
{
    !str_eq(display_text, SHORTCUT_INPUT_PLACEHOLDER) && !str_eq(display_text, "点击设置")
}

/// The label of the appearance menu for a mode.
pub fn theme_mode_label(mode: ThemeMode) -> (r: String)
    ensures
        r@ == (match mode {
            ThemeMode::Light => "浅色模式"@,
            ThemeMode::Dark => "深色模式"@,
        }),
{
    match mode {
        ThemeMode::Light => string_of("浅色模式"),
        ThemeMode::Dark => string_of("深色模式"),
    }
}

/// The font size in pixels of each of the eight slider positions: small
/// (14), standard (16), then 17 to 22; an unknown position gives the
/// standard size.
pub open spec fn font_size_at(ix: int) -> int {
    if ix == 0 { 14 }
    else if 1 <= ix <= 7 { ix + 15 }
    else { 16 }
}

/// The slider position of a font size in whole pixels; a size the slider
/// does not offer gives the standard position.
pub open spec fn slider_index_of(px: int) -> int {
    if px == 14 { 0 }
    else if 16 <= px <= 22 { px - 15 }
    else { 1 }
}

/// The font size of a slider position.
pub fn slider_font_size(ix: i32) -> (r: u32)
    ensures
        r as int == font_size_at(ix as int),
{
    if ix == 0 { 14 }
    else if 1 <= ix && ix <= 7 { (ix + 15) as u32 }
    else { 16 }
}

/// The slider position of a font size rounded to whole pixels.
pub fn font_size_slider_index(px: i32) -> (r: u32)
    ensures
        r as int == slider_index_of(px as int),
        r <= 7,
{
    if px == 14 { 0 }
    else if 16 <= px && px <= 22 { (px - 15) as u32 }
    else { 1 }
}

/// The slider and the font size agree: every position gives a size that
/// leads back to it, and every size the slider offers comes from exactly
/// the position it leads to.
pub proof fn lemma_font_slider_round_trip(ix: int, px: int)
    ensures
        0 <= ix <= 7 ==> slider_index_of(font_size_at(ix)) == ix,
        (px == 14 || 16 <= px <= 22) ==> font_size_at(slider_index_of(px)) == px,
        14 <= font_size_at(ix) <= 22,
        0 <= slider_index_of(px) <= 7,
{
}

/// Each sidebar position shows its own tab: the tab shown at a position is
/// the one whose label and icon the sidebar draws there, no two positions
/// show the same tab, and every tab has a position; the default position
/// shows the general tab.
pub proof fn lemma_sidebar_positions(i: int, j: int, tab: SettingsTab)
    ensures
        0 <= i <= 5 ==> tab_label_of(tab_at(i)) == sidebar_labels()[i] && tab_icon_of(tab_at(i))
            == tab_icon_seq(i),
        0 <= i < j <= 5 ==> tab_at(i) != tab_at(j),
        exists|k: int| 0 <= k <= 5 && tab_at(k) == tab,
        !(0 <= i <= 5) ==> tab_at(i) == SettingsTab::General,
{
    match tab {
        SettingsTab::AccountAndStorage => assert(tab_at(0) == tab),
        SettingsTab::General => assert(tab_at(1) == tab),
        SettingsTab::Shortcuts => assert(tab_at(2) == tab),
        SettingsTab::Notifications => assert(tab_at(3) == tab),
        SettingsTab::Plugins => assert(tab_at(4) == tab),
        SettingsTab::About => assert(tab_at(5) == tab),
    }
}

/// The slider is ordered: its smallest position is 14 px, its largest
/// 22 px, each step to the right gives a larger size by one or two pixels,
/// and a larger position always gives a larger size.
pub proof fn lemma_font_slider_ordered(i: int, j: int)
    ensures
        font_size_at(0) == 14,
        font_size_at(7) == 22,
        0 <= i < 7 ==> font_size_at(i) < font_size_at(i + 1) <= font_size_at(i) + 2,
        0 <= i < j <= 7 ==> font_size_at(i) < font_size_at(j),
        0 <= i < j <= 7 ==> slider_index_of(font_size_at(i)) < slider_index_of(font_size_at(j)),
{
}

/// Leaving a menu entry clears the hover mark only if it is on that entry,
/// and entering then leaving an entry leaves no mark on it.
pub proof fn lemma_hover_enter_leave<T>(current: T, target: T, other: T, none: T)
    requires
        other != target,
    ensures
        next_hover(next_hover(current, target, none, true), target, none, false) == none,
        next_hover(next_hover(current, target, none, true), other, none, false) == target,
{
}

/// Ending an edit without changing what the input shows keeps the stored
/// shortcut: a stored shortcut is its own collapsed form.
pub proof fn lemma_commit_shown_text_keeps_it(typed: Seq<char>)
    ensures
        committed_text(normalize_seq(typed), normalize_seq(typed)) == normalize_seq(typed),
{
    lemma_normalize_idempotent(typed);
}

} // verus!
