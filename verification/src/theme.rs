//! Light and dark themes: the mode, the colour palettes and the theme that
//! pairs a mode with its palette.
use vstd::prelude::*;

verus! {

/// A colour as `0xRRGGBBAA`.
#[derive(Clone, Copy, Debug, PartialEq, Eq, Structural)]
pub struct Rgba {
    pub hex: u32,
}

/// An opaque colour from `0xRRGGBB`.
pub fn rgb(hex: u32) -> (r: Rgba)
    requires
        hex <= 0xFF_FFFF,
    ensures
        r.hex == hex * 256 + 255,
{
    Rgba { hex: hex * 256 + 255 }
}

/// A colour from `0xRRGGBBAA`.
pub fn rgba(hex: u32) -> (r: Rgba)
    ensures
        r.hex == hex,
{
    Rgba { hex }
}

/// Light or dark appearance.
#[derive(Clone, Copy, Debug, PartialEq, Eq, Structural)]
pub enum ThemeMode {
    Light,
    Dark,
}

/// The other mode.
pub open spec fn other_mode(m: ThemeMode) -> ThemeMode {
    match m {
        ThemeMode::Light => ThemeMode::Dark,
        ThemeMode::Dark => ThemeMode::Light,
    }
}

impl ThemeMode {
    /// Switches between light and dark.
    pub fn toggle(&self) -> (r: Self)
        ensures
            r == other_mode(*self),
    {
        match self {
            ThemeMode::Light => ThemeMode::Dark,
            ThemeMode::Dark => ThemeMode::Light,
        }
    }
}

/// Toggling twice gives back the mode one started from, and toggling never
/// keeps the mode.
pub proof fn lemma_toggle_involution(m: ThemeMode)
    ensures
        other_mode(other_mode(m)) == m,
        other_mode(m) != m,
{
}

/// The colours of every area of the window.
#[derive(Clone, Copy, Debug, PartialEq, Eq, Structural)]
pub struct ThemeColors {
    pub toolbar_background: Rgba,
    pub toolbar_icon_normal: Rgba,
    pub toolbar_icon_hover: Rgba,
    pub toolbar_icon_active: Rgba,
    pub toolbar_active_bg: Rgba,
    pub session_list_background: Rgba,
    pub session_list_search_bg: Rgba,
    pub session_list_item_hover: Rgba,
    pub session_list_item_active: Rgba,
    pub session_list_text: Rgba,
    pub session_list_text_muted: Rgba,
    pub session_list_border: Rgba,
    pub chat_background: Rgba,
    pub chat_input_bg: Rgba,
    pub chat_toolbar_bg: Rgba,
    pub chat_text: Rgba,
    pub chat_text_muted: Rgba,
    pub message_bubble_self: Rgba,
    pub message_bubble_other: Rgba,
    pub message_text_self: Rgba,
    pub message_text_other: Rgba,
    pub button_primary: Rgba,
    pub button_primary_hover: Rgba,
    pub button_primary_text: Rgba,
    pub titlebar_background: Rgba,
    pub titlebar_text: Rgba,
    pub titlebar_button_hover: Rgba,
    pub titlebar_close_hover: Rgba,
    pub border: Rgba,
    pub divider: Rgba,
    pub shadow: Rgba,
    pub unread_badge: Rgba,
    pub unread_badge_text: Rgba,
    pub scrollbar_track: Rgba,
    pub scrollbar_thumb: Rgba,
    pub scrollbar_thumb_hover: Rgba,
    pub settings_sidebar_bg: Rgba,
    pub settings_sidebar_active_bg: Rgba,
    pub settings_sidebar_hover_bg: Rgba,
    pub settings_content_bg: Rgba,
    pub settings_text_primary: Rgba,
    pub settings_text_secondary: Rgba,
    pub settings_input_bg: Rgba,
}

/// The light palette, each colour as `0xRRGGBBAA`.
pub open spec fn palette_light() -> ThemeColors {
    ThemeColors {
        toolbar_background: Rgba { hex: 0xEDEDEDFF },
        toolbar_icon_normal: Rgba { hex: 0x666666FF },
        toolbar_icon_hover: Rgba { hex: 0x333333FF },
        toolbar_icon_active: Rgba { hex: 0x07C160FF },
        toolbar_active_bg: Rgba { hex: 0xDCDCDCFF },
        session_list_background: Rgba { hex: 0xF7F7F7FF },
        session_list_search_bg: Rgba { hex: 0xEAEAEAFF },
        session_list_item_hover: Rgba { hex: 0xEDEDEDFF },
        session_list_item_active: Rgba { hex: 0xD6D6D6FF },
        session_list_text: Rgba { hex: 0x333333FF },
        session_list_text_muted: Rgba { hex: 0x999999FF },
        session_list_border: Rgba { hex: 0xE7E7E7FF },
        chat_background: Rgba { hex: 0xEDEDEDFF },
        chat_input_bg: Rgba { hex: 0xFFFFFFFF },
        chat_toolbar_bg: Rgba { hex: 0xFFFFFFFF },
        chat_text: Rgba { hex: 0x333333FF },
        chat_text_muted: Rgba { hex: 0x999999FF },
        message_bubble_self: Rgba { hex: 0x95EC69FF },
        message_bubble_other: Rgba { hex: 0xFFFFFFFF },
        message_text_self: Rgba { hex: 0x000000FF },
        message_text_other: Rgba { hex: 0x333333FF },
        button_primary: Rgba { hex: 0x07C160FF },
        button_primary_hover: Rgba { hex: 0x06AD56FF },
        button_primary_text: Rgba { hex: 0xFFFFFFFF },
        titlebar_background: Rgba { hex: 0xEDEDEDFF },
        titlebar_text: Rgba { hex: 0x333333FF },
        titlebar_button_hover: Rgba { hex: 0xE0E0E0FF },
        titlebar_close_hover: Rgba { hex: 0xE81123FF },
        border: Rgba { hex: 0xE7E7E7FF },
        divider: Rgba { hex: 0xDDDDDDFF },
        shadow: Rgba { hex: 0x00000020 },
        unread_badge: Rgba { hex: 0xFA5151FF },
        unread_badge_text: Rgba { hex: 0xFFFFFFFF },
        scrollbar_track: Rgba { hex: 0x00000010 },
        scrollbar_thumb: Rgba { hex: 0x00000040 },
        scrollbar_thumb_hover: Rgba { hex: 0x00000060 },
        settings_sidebar_bg: Rgba { hex: 0xF7F7F7FF },
        settings_sidebar_active_bg: Rgba { hex: 0xE7E7E7FF },
        settings_sidebar_hover_bg: Rgba { hex: 0xEDEDEDFF },
        settings_content_bg: Rgba { hex: 0xEDEDEDFF },
        settings_text_primary: Rgba { hex: 0x333333FF },
        settings_text_secondary: Rgba { hex: 0x999999FF },
        settings_input_bg: Rgba { hex: 0xF0F0F0FF },
    }
}

/// The dark palette, each colour as `0xRRGGBBAA`.
pub open spec fn palette_dark() -> ThemeColors {
    ThemeColors {
        toolbar_background: Rgba { hex: 0x1E1E1EFF },
        toolbar_icon_normal: Rgba { hex: 0xFFFFFFAA },
        toolbar_icon_hover: Rgba { hex: 0xFFFFFFFF },
        toolbar_icon_active: Rgba { hex: 0x07C160FF },
        toolbar_active_bg: Rgba { hex: 0x2A2A2AFF },
        session_list_background: Rgba { hex: 0x252525FF },
        session_list_search_bg: Rgba { hex: 0x1E1E1EFF },
        session_list_item_hover: Rgba { hex: 0x2E2E2EFF },
        session_list_item_active: Rgba { hex: 0x333333FF },
        session_list_text: Rgba { hex: 0xE6E6E6FF },
        session_list_text_muted: Rgba { hex: 0x888888FF },
        session_list_border: Rgba { hex: 0x3A3A3AFF },
        chat_background: Rgba { hex: 0x1E1E1EFF },
        chat_input_bg: Rgba { hex: 0x2B2B2BFF },
        chat_toolbar_bg: Rgba { hex: 0x252525FF },
        chat_text: Rgba { hex: 0xE6E6E6FF },
        chat_text_muted: Rgba { hex: 0x888888FF },
        message_bubble_self: Rgba { hex: 0x95EC69FF },
        message_bubble_other: Rgba { hex: 0xFFFFFFFF },
        message_text_self: Rgba { hex: 0x000000FF },
        message_text_other: Rgba { hex: 0x333333FF },
        button_primary: Rgba { hex: 0x07C160FF },
        button_primary_hover: Rgba { hex: 0x06AD56FF },
        button_primary_text: Rgba { hex: 0xFFFFFFFF },
        titlebar_background: Rgba { hex: 0x252525FF },
        titlebar_text: Rgba { hex: 0xE6E6E6FF },
        titlebar_button_hover: Rgba { hex: 0x3A3A3AFF },
        titlebar_close_hover: Rgba { hex: 0xE81123FF },
        border: Rgba { hex: 0x3A3A3AFF },
        divider: Rgba { hex: 0x404040FF },
        shadow: Rgba { hex: 0x00000040 },
        unread_badge: Rgba { hex: 0xFA5151FF },
        unread_badge_text: Rgba { hex: 0xFFFFFFFF },
        scrollbar_track: Rgba { hex: 0xFFFFFF10 },
        scrollbar_thumb: Rgba { hex: 0xFFFFFF30 },
        scrollbar_thumb_hover: Rgba { hex: 0xFFFFFF50 },
        settings_sidebar_bg: Rgba { hex: 0x252525FF },
        settings_sidebar_active_bg: Rgba { hex: 0x333333FF },
        settings_sidebar_hover_bg: Rgba { hex: 0x2E2E2EFF },
        settings_content_bg: Rgba { hex: 0x1E1E1EFF },
        settings_text_primary: Rgba { hex: 0xE6E6E6FF },
        settings_text_secondary: Rgba { hex: 0x888888FF },
        settings_input_bg: Rgba { hex: 0x2B2B2BFF },
    }
}

impl ThemeColors {
    /// The light palette.
    pub fn light() -> (r: Self)
        ensures
            r == palette_light(),
    {
        ThemeColors {
            toolbar_background: rgb(0xEDEDED),
            toolbar_icon_normal: rgb(0x666666),
            toolbar_icon_hover: rgb(0x333333),
            toolbar_icon_active: rgb(0x07c160),
            toolbar_active_bg: rgb(0xDCDCDC),
            session_list_background: rgb(0xF7F7F7),
            session_list_search_bg: rgb(0xEAEAEA),
            session_list_item_hover: rgb(0xEDEDED),
            session_list_item_active: rgb(0xD6D6D6),
            session_list_text: rgb(0x333333),
            session_list_text_muted: rgb(0x999999),
            session_list_border: rgb(0xe7e7e7),
            chat_background: rgb(0xEDEDED),
            chat_input_bg: rgb(0xffffff),
            chat_toolbar_bg: rgb(0xffffff),
            chat_text: rgb(0x333333),
            chat_text_muted: rgb(0x999999),
            message_bubble_self: rgb(0x95ec69),
            message_bubble_other: rgb(0xffffff),
            message_text_self: rgb(0x000000),
            message_text_other: rgb(0x333333),
            button_primary: rgb(0x07c160),
            button_primary_hover: rgb(0x06ad56),
            button_primary_text: rgb(0xffffff),
            titlebar_background: rgb(0xEDEDED),
            titlebar_text: rgb(0x333333),
            titlebar_button_hover: rgb(0xe0e0e0),
            titlebar_close_hover: rgb(0xe81123),
            border: rgb(0xe7e7e7),
            divider: rgb(0xdddddd),
            shadow: rgba(0x00000020),
            unread_badge: rgb(0xfa5151),
            unread_badge_text: rgb(0xffffff),
            scrollbar_track: rgba(0x00000010),
            scrollbar_thumb: rgba(0x00000040),
            scrollbar_thumb_hover: rgba(0x00000060),
            settings_sidebar_bg: rgb(0xF7F7F7),
            settings_sidebar_active_bg: rgb(0xe7e7e7),
            settings_sidebar_hover_bg: rgb(0xEDEDED),
            settings_content_bg: rgb(0xEDEDED),
            settings_text_primary: rgb(0x333333),
            settings_text_secondary: rgb(0x999999),
            settings_input_bg: rgb(0xf0f0f0),
        }
    }

    /// The dark palette.
    pub fn dark() -> (r: Self)
        ensures
            r == palette_dark(),
    {
        ThemeColors {
            toolbar_background: rgb(0x1e1e1e),
            toolbar_icon_normal: rgba(0xffffffaa),
            toolbar_icon_hover: rgb(0xffffff),
            toolbar_icon_active: rgb(0x07c160),
            toolbar_active_bg: rgb(0x2a2a2a),
            session_list_background: rgb(0x252525),
            session_list_search_bg: rgb(0x1e1e1e),
            session_list_item_hover: rgb(0x2e2e2e),
            session_list_item_active: rgb(0x333333),
            session_list_text: rgb(0xe6e6e6),
            session_list_text_muted: rgb(0x888888),
            session_list_border: rgb(0x3a3a3a),
            chat_background: rgb(0x1e1e1e),
            chat_input_bg: rgb(0x2b2b2b),
            chat_toolbar_bg: rgb(0x252525),
            chat_text: rgb(0xe6e6e6),
            chat_text_muted: rgb(0x888888),
            message_bubble_self: rgb(0x95ec69),
            message_bubble_other: rgb(0xffffff),
            message_text_self: rgb(0x000000),
            message_text_other: rgb(0x333333),
            button_primary: rgb(0x07c160),
            button_primary_hover: rgb(0x06ad56),
            button_primary_text: rgb(0xffffff),
            titlebar_background: rgb(0x252525),
            titlebar_text: rgb(0xe6e6e6),
            titlebar_button_hover: rgb(0x3a3a3a),
            titlebar_close_hover: rgb(0xe81123),
            border: rgb(0x3a3a3a),
            divider: rgb(0x404040),
            shadow: rgba(0x00000040),
            unread_badge: rgb(0xfa5151),
            unread_badge_text: rgb(0xffffff),
            scrollbar_track: rgba(0xffffff10),
            scrollbar_thumb: rgba(0xffffff30),
            scrollbar_thumb_hover: rgba(0xffffff50),
            settings_sidebar_bg: rgb(0x252525),
            settings_sidebar_active_bg: rgb(0x333333),
            settings_sidebar_hover_bg: rgb(0x2e2e2e),
            settings_content_bg: rgb(0x1e1e1e),
            settings_text_primary: rgb(0xe6e6e6),
            settings_text_secondary: rgb(0x888888),
            settings_input_bg: rgb(0x2b2b2b),
        }
    }

}

/// The palette of a mode.
pub open spec fn palette_of(mode: ThemeMode) -> ThemeColors {
    match mode {
        ThemeMode::Light => palette_light(),
        ThemeMode::Dark => palette_dark(),
    }
}

/// A mode with its palette.
#[derive(Clone, Copy, Debug)]
pub struct Theme {
    pub mode: ThemeMode,
    pub colors: ThemeColors,
}

impl Theme {
    /// The theme of `mode`, with the palette of that mode.
    pub fn new(mode: ThemeMode) -> (r: Self)
        ensures
            r.mode == mode,
            r.colors == palette_of(mode),
    {
        let colors = match mode {
            ThemeMode::Light => ThemeColors::light(),
            ThemeMode::Dark => ThemeColors::dark(),
        };
        Theme { mode, colors }
    }

    /// The light theme.
    pub fn light() -> (r: Self)
        ensures
            r.mode == ThemeMode::Light,
            r.colors == palette_light(),
    {
        Self::new(ThemeMode::Light)
    }

    /// The dark theme.
    pub fn dark() -> (r: Self)
        ensures
            r.mode == ThemeMode::Dark,
            r.colors == palette_dark(),
    {
        Self::new(ThemeMode::Dark)
    }

    /// Whether the theme is the dark one.
    pub fn is_dark(&self) -> (r: bool)
        ensures
            r == (self.mode == ThemeMode::Dark),
    {
        match self.mode {
            ThemeMode::Dark => true,
            ThemeMode::Light => false,
        }
    }

    /// The theme that toggling switches to: the other mode, with its palette.
    pub fn toggled(&self) -> (r: Self)
        ensures
            r.mode == other_mode(self.mode),
            r.colors == palette_of(other_mode(self.mode)),
    {
        Self::new(self.mode.toggle())
    }
}

/// Toggling the theme twice gives the theme of the mode one started from.
pub proof fn lemma_theme_toggle_twice(m: ThemeMode)
    ensures
        other_mode(other_mode(m)) == m,
        palette_of(other_mode(other_mode(m))) == palette_of(m),
{
}

/// The two palettes differ, so the palette tells the mode: two modes with
/// the same palette are the same mode.
pub proof fn lemma_palettes_differ(m1: ThemeMode, m2: ThemeMode)
    ensures
        palette_of(m1) == palette_of(m2) ==> m1 == m2,
{
    assert(palette_light().toolbar_background != palette_dark().toolbar_background);
}

/// The colours of the chat layout: backgrounds, bubbles, the brand green.
#[derive(Clone, Copy, Debug, PartialEq, Eq, Structural)]
pub struct WeixinThemeColors {
    pub toolbar_bg: Rgba,
    pub session_list_bg: Rgba,
    pub chat_area_bg: Rgba,
    pub search_bar_bg: Rgba,
    pub item_hover: Rgba,
    pub item_selected: Rgba,
    pub message_bubble_self: Rgba,
    pub message_bubble_other: Rgba,
    pub message_text_self: Rgba,
    pub message_text_other: Rgba,
    pub weixin_green: Rgba,
    pub unread_badge: Rgba,
    pub caret: Rgba,
}

/// The light palette, each colour as `0xRRGGBBAA`.
pub open spec fn layout_palette_light() -> WeixinThemeColors {
    WeixinThemeColors {
        toolbar_bg: Rgba { hex: 0xEDEDEDFF },
        session_list_bg: Rgba { hex: 0xF7F7F7FF },
        chat_area_bg: Rgba { hex: 0xEDEDEDFF },
        search_bar_bg: Rgba { hex: 0xEDEDEDFF },
        item_hover: Rgba { hex: 0xEAEAEAFF },
        item_selected: Rgba { hex: 0xDEDEDEFF },
        message_bubble_self: Rgba { hex: 0x95EC69FF },
        message_bubble_other: Rgba { hex: 0xFFFFFFFF },
        message_text_self: Rgba { hex: 0x000000FF },
        message_text_other: Rgba { hex: 0x333333FF },
        weixin_green: Rgba { hex: 0x07C160FF },
        unread_badge: Rgba { hex: 0xFA5151FF },
        caret: Rgba { hex: 0x07C160FF },
    }
}

/// The dark palette, each colour as `0xRRGGBBAA`.
pub open spec fn layout_palette_dark() -> WeixinThemeColors {
    WeixinThemeColors {
        toolbar_bg: Rgba { hex: 0x2A2A2AFF },
        session_list_bg: Rgba { hex: 0x1F1F1FFF },
        chat_area_bg: Rgba { hex: 0x2A2A2AFF },
        search_bar_bg: Rgba { hex: 0x2A2A2AFF },
        item_hover: Rgba { hex: 0x333333FF },
        item_selected: Rgba { hex: 0x3A3A3AFF },
        message_bubble_self: Rgba { hex: 0x95EC69FF },
        message_bubble_other: Rgba { hex: 0x3A3A3AFF },
        message_text_self: Rgba { hex: 0x000000FF },
        message_text_other: Rgba { hex: 0xE6E6E6FF },
        weixin_green: Rgba { hex: 0x07C160FF },
        unread_badge: Rgba { hex: 0xFA5151FF },
        caret: Rgba { hex: 0x07C160FF },
    }
}

impl WeixinThemeColors {
    /// The light palette.
    pub fn light() -> (r: Self)
        ensures
            r == layout_palette_light(),
    {
        WeixinThemeColors {
            toolbar_bg: rgb(0xEDEDED),
            session_list_bg: rgb(0xF7F7F7),
            chat_area_bg: rgb(0xEDEDED),
            search_bar_bg: rgb(0xEDEDED),
            item_hover: rgb(0xEAEAEA),
            item_selected: rgb(0xDEDEDE),
            message_bubble_self: rgb(0x95ec69),
            message_bubble_other: rgb(0xffffff),
            message_text_self: rgb(0x000000),
            message_text_other: rgb(0x333333),
            weixin_green: rgb(0x07c160),
            unread_badge: rgb(0xfa5151),
            caret: rgb(0x07c160),
        }
    }

    /// The dark palette.
    pub fn dark() -> (r: Self)
        ensures
            r == layout_palette_dark(),
    {
        WeixinThemeColors {
            toolbar_bg: rgb(0x2A2A2A),
            session_list_bg: rgb(0x1F1F1F),
            chat_area_bg: rgb(0x2A2A2A),
            search_bar_bg: rgb(0x2A2A2A),
            item_hover: rgb(0x333333),
            item_selected: rgb(0x3A3A3A),
            message_bubble_self: rgb(0x95ec69),
            message_bubble_other: rgb(0x3a3a3a),
            message_text_self: rgb(0x000000),
            message_text_other: rgb(0xe6e6e6),
            weixin_green: rgb(0x07c160),
            unread_badge: rgb(0xfa5151),
            caret: rgb(0x07c160),
        }
    }

}

/// The layout colours of a mode.
pub fn weixin_colors(mode: ThemeMode) -> (r: WeixinThemeColors)
    ensures
        r == (match mode {
            ThemeMode::Light => layout_palette_light(),
            ThemeMode::Dark => layout_palette_dark(),
        }),
{
    match mode {
        ThemeMode::Light => WeixinThemeColors::light(),
        ThemeMode::Dark => WeixinThemeColors::dark(),
    }
}

} // verus!
