//! Small pieces of the window: the toolbar, the window buttons, the chat
//! header and input toolbars, and the avatars.
use vstd::prelude::*;
use crate::events::ToolbarClickEvent;
use crate::models::{Contact, Message, ToolbarItem, icon_path_seq, icon_path_fill_seq, preview_seq, title_seq};
use crate::theme::{Rgba, WeixinThemeColors};
use crate::time::{format_time_friendly, friendly_seq};
use crate::clock::{CALENDAR_BOUND_MS, LocalTime, TIMESTAMP_BOUND_MS};
use crate::text::string_of;

verus! {

/// The toolbar on the left: which entry is active.
#[derive(Clone, Copy, Debug, PartialEq, Eq, Structural)]
pub struct ToolBar {
    pub active_item: ToolbarItem,
}

/// The icon of a toolbar entry: the filled one while the entry is active
/// (when it has one), the outline one otherwise.
pub open spec fn button_icon_seq(active: ToolbarItem, item: ToolbarItem) -> Seq<char> {
    if active == item && icon_path_fill_seq(item) is Some {
        icon_path_fill_seq(item)->0
    } else {
        icon_path_seq(item)
    }
}

impl ToolBar {
    /// The toolbar with the chats active.
    pub fn new() -> (r: Self)
        ensures
            r.active_item == ToolbarItem::Chat,
    {
        ToolBar { active_item: ToolbarItem::Chat }
    }

    /// Makes `item` the active entry.
    pub fn set_active_item(&mut self, item: ToolbarItem)
        ensures
            final(self).active_item == item,
    {
        self.active_item = item;
    }

    /// A click on `item`: it becomes active and the click is announced.
    pub fn click(&mut self, item: ToolbarItem) -> (r: ToolbarClickEvent)
        ensures
            final(self).active_item == item,
            r.item == item,
    {
        self.active_item = item;
        ToolbarClickEvent { item }
    }

    /// The icon shown for `item`.
    pub fn button_icon(&self, item: ToolbarItem) -> (r: &'static str)
        ensures
            r@ == button_icon_seq(self.active_item, item),
    {
        if self.active_item == item {
            match item.icon_path_fill() {
                Some(p) => p,
                None => item.icon_path(),
            }
        } else {
            item.icon_path()
        }
    }

    /// Whether `item` is drawn in the highlight colour: only an active
    /// entry with a filled icon is.
    pub fn icon_highlighted(&self, item: ToolbarItem) -> (r: bool)
        ensures
            r == (self.active_item == item && icon_path_fill_seq(item) is Some),
    {
        self.active_item == item && item.has_fill()
    }
}

/// The entries of the toolbar's menu, in order.
#[derive(Clone, Copy, Debug, PartialEq, Eq, Structural)]
pub enum ToolbarMenuEntry {
    VideoLiveCompanion,
    ChatFiles,
    ChatHistoryManagement,
    Lock,
    Feedback,
    Settings,
}

/// What choosing a menu entry does: tell that the feature is still being
/// built, or open the settings window.
pub enum MenuAction {
    Notify(String),
    OpenSettings,
}

/// The label of each menu entry.
pub open spec fn menu_label_seq(e: ToolbarMenuEntry) -> Seq<char> {
    match e {
        ToolbarMenuEntry::VideoLiveCompanion => "视频号直播伴侣"@,
        ToolbarMenuEntry::ChatFiles => "聊天文件"@,
        ToolbarMenuEntry::ChatHistoryManagement => "聊天记录管理"@,
        ToolbarMenuEntry::Lock => "锁定"@,
        ToolbarMenuEntry::Feedback => "意见反馈"@,
        ToolbarMenuEntry::Settings => "设置"@,
    }
}

impl ToolbarMenuEntry {
    /// The label of the entry.
    pub fn label(&self) -> (r: &'static str)
        ensures
            r@ == menu_label_seq(*self),
    {
        match self {
            ToolbarMenuEntry::VideoLiveCompanion => "视频号直播伴侣",
            ToolbarMenuEntry::ChatFiles => "聊天文件",
            ToolbarMenuEntry::ChatHistoryManagement => "聊天记录管理",
            ToolbarMenuEntry::Lock => "锁定",
            ToolbarMenuEntry::Feedback => "意见反馈",
            ToolbarMenuEntry::Settings => "设置",
        }
    }

    /// What choosing the entry does: the settings entry opens the settings
    /// window; every other entry tells that its feature is being built.
    pub fn action(&self) -> (r: MenuAction)
        ensures
            match r {
                MenuAction::OpenSettings => *self == ToolbarMenuEntry::Settings,
                MenuAction::Notify(text) => *self != ToolbarMenuEntry::Settings && text@
                    == menu_label_seq(*self) + "功能开发中..."@,
            },
    {
        match self {
            ToolbarMenuEntry::Settings => MenuAction::OpenSettings,
            _ => {
                let mut t = string_of(self.label());
                t.append("功能开发中...");
                MenuAction::Notify(t)
            },
        }
    }
}

/// The entries of the menu in the order they are shown.
pub fn toolbar_menu_entries() -> (r: Vec<ToolbarMenuEntry>)
    ensures
        r@ == seq![
            ToolbarMenuEntry::VideoLiveCompanion,
            ToolbarMenuEntry::ChatFiles,
            ToolbarMenuEntry::ChatHistoryManagement,
            ToolbarMenuEntry::Lock,
            ToolbarMenuEntry::Feedback,
            ToolbarMenuEntry::Settings,
        ],
{
    let r = vec![
        ToolbarMenuEntry::VideoLiveCompanion,
        ToolbarMenuEntry::ChatFiles,
        ToolbarMenuEntry::ChatHistoryManagement,
        ToolbarMenuEntry::Lock,
        ToolbarMenuEntry::Feedback,
        ToolbarMenuEntry::Settings,
    ];
    assert(r@ =~= seq![
        ToolbarMenuEntry::VideoLiveCompanion,
        ToolbarMenuEntry::ChatFiles,
        ToolbarMenuEntry::ChatHistoryManagement,
        ToolbarMenuEntry::Lock,
        ToolbarMenuEntry::Feedback,
        ToolbarMenuEntry::Settings,
    ]);
    r
}

/// The entries of the phone menu.
#[derive(Clone, Copy, Debug, PartialEq, Eq, Structural)]
pub enum PhoneMenuEntry {
    VideoCall,
    VoiceCall,
}

impl PhoneMenuEntry {
    /// The label of the entry.
    pub fn label(&self) -> (r: &'static str)
        ensures
            r@ == match *self {
                PhoneMenuEntry::VideoCall => "视频通话"@,
                PhoneMenuEntry::VoiceCall => "语音通话"@,
            },
    {
        match self {
            PhoneMenuEntry::VideoCall => "视频通话",
            PhoneMenuEntry::VoiceCall => "语音通话",
        }
    }

    /// What the entry tells: that its feature is being built.
    pub fn notification(&self) -> (r: String)
        ensures
            r@ == match *self {
                PhoneMenuEntry::VideoCall => "视频通话"@,
                PhoneMenuEntry::VoiceCall => "语音通话"@,
            } + "功能开发中..."@,
    {
        let mut t = string_of(self.label());
        t.append("功能开发中...");
        t
    }
}

/// The part of the window a title bar button controls.
#[derive(Clone, Copy, Debug, PartialEq, Eq, Structural)]
pub enum WindowControlArea {
    Min,
    Max,
    Close,
}

/// One button of the title bar: its id, its icon and what it controls.
#[derive(Clone, Copy, Debug)]
pub struct WindowButton {
    pub id: &'static str,
    pub icon: &'static str,
    pub control: WindowControlArea,
}

/// The buttons at the right of a title bar.
#[derive(Clone, Copy, Debug, PartialEq, Eq, Structural)]
pub struct WindowControls {
    pub is_maximized: bool,
    pub show_pin: bool,
}

impl WindowControls {
    /// Buttons of a window that is not maximized, without the pin.
    pub fn new() -> (r: Self)
        ensures
            !r.is_maximized,
            !r.show_pin,
    {
        WindowControls { is_maximized: false, show_pin: false }
    }

    /// The same buttons for a maximized window or not.
    pub fn maximized(self, maximized: bool) -> (r: Self)
        ensures
            r == (WindowControls { is_maximized: maximized, ..self }),
    {
        WindowControls { is_maximized: maximized, ..self }
    }

    /// The same buttons with or without the pin.
    pub fn show_pin(self, show: bool) -> (r: Self)
        ensures
            r == (WindowControls { show_pin: show, ..self }),
    {
        WindowControls { show_pin: show, ..self }
    }

    /// The buttons from left to right: the pin when it is shown, then
    /// minimize, maximize (restore on a maximized window) and close.
    pub fn buttons(&self) -> (r: Vec<WindowButton>)
        ensures
            r@.len() == if self.show_pin { 4nat } else { 3nat },
            self.show_pin ==> r@[0].id@ == "win-btn-pin"@ && r@[0].icon@ == "nail.svg"@
                && r@[0].control == WindowControlArea::Min,
            ({
                let k = if self.show_pin { 1int } else { 0int };
                &&& r@[k].id@ == "win-btn-min"@
                &&& r@[k].icon@ == "window-minimize.svg"@
                &&& r@[k].control == WindowControlArea::Min
                &&& r@[k + 1].id@ == "win-btn-max"@
                &&& r@[k + 1].icon@ == if self.is_maximized {
                    "window-restore.svg"@
                } else {
                    "window-maximize.svg"@
                }
                &&& r@[k + 1].control == WindowControlArea::Max
                &&& r@[k + 2].id@ == "win-btn-close"@
                &&& r@[k + 2].icon@ == "window-close.svg"@
                &&& r@[k + 2].control == WindowControlArea::Close
            }),
    {
        let mut r: Vec<WindowButton> = Vec::new();
        if self.show_pin {
            r.push(WindowButton { id: "win-btn-pin", icon: "nail.svg", control: WindowControlArea::Min });
        }
        r.push(WindowButton {
            id: "win-btn-min",
            icon: "window-minimize.svg",
            control: WindowControlArea::Min,
        });
        let max_icon = if self.is_maximized { "window-restore.svg" } else { "window-maximize.svg" };
        r.push(WindowButton { id: "win-btn-max", icon: max_icon, control: WindowControlArea::Max });
        r.push(WindowButton {
            id: "win-btn-close",
            icon: "window-close.svg",
            control: WindowControlArea::Close,
        });
        r
    }
}

/// The action buttons under the window buttons of a chat header.
#[derive(Clone, Copy, Debug, PartialEq, Eq, Structural)]
pub struct ChatHeaderActions;

impl ChatHeaderActions {
    pub fn new() -> (r: Self) {
        ChatHeaderActions
    }
}

/// The toolbar above the chat input.
#[derive(Clone, Copy, Debug, PartialEq, Eq, Structural)]
pub struct ChatToolbar {
    pub is_group: bool,
}

impl ChatToolbar {
    /// The toolbar of a one-to-one chat.
    pub fn new() -> (r: Self)
        ensures
            !r.is_group,
    {
        ChatToolbar { is_group: false }
    }

    /// The same toolbar for a group chat or not.
    pub fn is_group(self, is_group: bool) -> (r: Self)
        ensures
            r.is_group == is_group,
    {
        ChatToolbar { is_group }
    }

    /// The icons at the left end, from left to right: emoji, favourites,
    /// file, screenshot, and the narrow arrow of the screenshot menu.
    pub fn left_icons(&self) -> (r: Vec<&'static str>)
        ensures
            r@.len() == 5,
            r@[0]@ == "emoji.svg"@,
            r@[1]@ == "favorite.svg"@,
            r@[2]@ == "file.svg"@,
            r@[3]@ == "scissors.svg"@,
            r@[4]@ == "down.svg"@,
    {
        vec!["emoji.svg", "favorite.svg", "file.svg", "scissors.svg", "down.svg"]
    }

    /// The icons at the right end: a group offers a live room and a video
    /// call, a one-to-one chat a voice and a video call.
    pub fn right_icons(&self) -> (r: (&'static str, &'static str))
        ensures
            r.0@ == if self.is_group { "circle.svg"@ } else { "phone-call.svg"@ },
            r.1@ == if self.is_group { "video-call.svg"@ } else { "video.svg"@ },
    {
        if self.is_group {
            ("circle.svg", "video-call.svg")
        } else {
            ("phone-call.svg", "video.svg")
        }
    }
}

/// The avatar images a key is given one of.
pub open spec fn avatar_paths() -> Seq<Seq<char>> {
    seq![
        "ava/afro.svg"@,
        "ava/angry-.svg"@,
        "ava/angry-_1.svg"@,
        "ava/angry-_2.svg"@,
        "ava/arrogant.svg"@,
        "ava/baby-.svg"@,
        "ava/baby.svg"@,
        "ava/bully.svg"@,
        "ava/businessman.svg"@,
        "ava/cheeky-.svg"@,
        "ava/confused-.svg"@,
        "ava/crying-.svg"@,
        "ava/dazed.svg"@,
        "ava/dead-.svg"@,
        "ava/dead-_1.svg"@,
        "ava/desperate-.svg"@,
        "ava/desperate.svg"@,
        "ava/dissapointment.svg"@,
        "ava/drunk.svg"@,
        "ava/evil.svg"@,
        "ava/gangster.svg"@,
        "ava/geek.svg"@,
        "ava/gentleman-.svg"@
    ]
}

/// The number of avatar images.
pub const AVATAR_COUNT: u64 = 23;

/// The avatar image at position `ix` (below `AVATAR_COUNT`).
pub fn avatar_path(ix: u64) -> (r: &'static str)
    requires
        ix < AVATAR_COUNT,
    ensures
        r@ == avatar_paths()[ix as int],
{
    if ix == 0 { "ava/afro.svg" }
    else if ix == 1 { "ava/angry-.svg" }
    else if ix == 2 { "ava/angry-_1.svg" }
    else if ix == 3 { "ava/angry-_2.svg" }
    else if ix == 4 { "ava/arrogant.svg" }
    else if ix == 5 { "ava/baby-.svg" }
    else if ix == 6 { "ava/baby.svg" }
    else if ix == 7 { "ava/bully.svg" }
    else if ix == 8 { "ava/businessman.svg" }
    else if ix == 9 { "ava/cheeky-.svg" }
    else if ix == 10 { "ava/confused-.svg" }
    else if ix == 11 { "ava/crying-.svg" }
    else if ix == 12 { "ava/dazed.svg" }
    else if ix == 13 { "ava/dead-.svg" }
    else if ix == 14 { "ava/dead-_1.svg" }
    else if ix == 15 { "ava/desperate-.svg" }
    else if ix == 16 { "ava/desperate.svg" }
    else if ix == 17 { "ava/dissapointment.svg" }
    else if ix == 18 { "ava/drunk.svg" }
    else if ix == 19 { "ava/evil.svg" }
    else if ix == 20 { "ava/gangster.svg" }
    else if ix == 21 { "ava/geek.svg" }
    else { "ava/gentleman-.svg" }
}

/// The avatar image of a key whose hash is `h`: the hash picks one of the
/// images.
pub fn avatar_for_hash(h: u64) -> (r: &'static str)
    ensures
        r@ == avatar_paths()[(h % 23) as int],
{
    avatar_path(h % AVATAR_COUNT)
}

/// The names a group avatar shows: the first four members, with empty
/// names filling the four places.
pub open spec fn group_avatar_names(members: Seq<Seq<char>>) -> Seq<Seq<char>> {
    Seq::new(4, |i: int| if i < members.len() { members[i] } else { Seq::<char>::empty() })
}

/// The four names of a group avatar.
pub fn group_avatar_members(members: &Vec<String>) -> (r: Vec<String>)
    ensures
        r.deep_view() == group_avatar_names(members.deep_view()),
{
    let mut r: Vec<String> = Vec::new();
    let mut i: usize = 0;
    while i < 4
        invariant
            i <= 4,
            r@.len() == i,
            forall|j: int| 0 <= j < i ==> (#[trigger] r@[j])@ == group_avatar_names(members.deep_view())[j],
        decreases 4 - i,
    {
        if i < members.len() {
            r.push(members[i].clone());
        } else {
            r.push(String::new());
        }
        i = i + 1;
    }
    assert(r.deep_view() =~= group_avatar_names(members.deep_view()));
    r
}

/// How a message bubble is laid out: the user's own messages on the right
/// (the row reversed) in the own-message colours, others on the left in
/// the other colours with the bubble's arrow turned; in a group the
/// sender's name is shown above the messages of others.
pub struct BubbleLayout {
    pub reversed: bool,
    pub show_sender_name: bool,
    pub background: Rgba,
    pub text_color: Rgba,
    pub arrow_turned: bool,
}

/// One message as a bubble.
pub struct MessageBubble {
    pub message: Message,
    pub is_group: bool,
}

impl MessageBubble {
    /// The bubble of a message of a one-to-one chat.
    pub fn new(message: Message) -> (r: Self)
        ensures
            r.message@ == message@,
            !r.is_group,
    {
        MessageBubble { message, is_group: false }
    }

    /// The same bubble in a group chat or not.
    pub fn group(self, is_group: bool) -> (r: Self)
        ensures
            r.message@ == self.message@,
            r.is_group == is_group,
    {
        MessageBubble { message: self.message, is_group }
    }

    /// The layout of the bubble with the colours `colors`.
    pub fn layout(&self, colors: &WeixinThemeColors) -> (r: BubbleLayout)
        ensures
            r.reversed == self.message.is_self,
            r.arrow_turned == !self.message.is_self,
            r.show_sender_name == (self.is_group && !self.message.is_self),
            r.background == if self.message.is_self {
                colors.message_bubble_self
            } else {
                colors.message_bubble_other
            },
            r.text_color == if self.message.is_self {
                colors.message_text_self
            } else {
                colors.message_text_other
            },
    {
        let mine = self.message.is_self;
        BubbleLayout {
            reversed: mine,
            show_sender_name: self.is_group && !mine,
            background: if mine { colors.message_bubble_self } else { colors.message_bubble_other },
            text_color: if mine { colors.message_text_self } else { colors.message_text_other },
            arrow_turned: !mine,
        }
    }
}

/// The largest unread count a badge spells out; above it the badge shows
/// this number as its cap.
pub const UNREAD_BADGE_MAX: u32 = 99;

/// The number on the unread badge of `contact`'s row: its unread count, or
/// no badge when nothing is unread.
pub fn unread_badge(contact: &Contact) -> (r: Option<u32>)
    ensures
        r == if contact.unread_count > 0 { Some(contact.unread_count) } else { None::<u32> },
{
    if contact.unread_count > 0 {
        Some(contact.unread_count)
    } else {
        None
    }
}

/// The texts of a row of the session list: title, time and preview.
pub struct SessionRowText {
    pub title: String,
    pub time: String,
    pub preview: String,
}

/// The texts of the row of `contact` (the preview only from the first line
/// of the last message when `first_line_only`).
pub fn session_row_text(contact: &Contact, first_line_only: bool) -> (r: SessionRowText)
    requires
        contact.last_message_time matches Some(t) ==> -TIMESTAMP_BOUND_MS < t < TIMESTAMP_BOUND_MS,
    ensures
        r.title@ == title_seq(contact@),
        r.preview@ == preview_seq(contact@, first_line_only),
        match contact.last_message_time {
            None => r.time@.len() == 0,
            Some(t) => exists|now: int, local: Option<LocalTime>|
                r.time@ == #[trigger] friendly_seq(now, t as int, local),
        },
        match contact.last_message_time {
            None => true,
            Some(t) => -CALENDAR_BOUND_MS < t < CALENDAR_BOUND_MS ==> exists|now: int, lt: LocalTime|
                1 <= lt.month <= 12 && 1 <= lt.day <= 31 && lt.hour < 24 && lt.minute < 60
                    && r.time@ == #[trigger] friendly_seq(now, t as int, Some(lt)),
        },
{
    let time = match contact.last_message_time {
        Some(t) => format_time_friendly(t),
        None => String::new(),
    };
    SessionRowText {
        title: contact.display_title(),
        time,
        preview: contact.preview_text(first_line_only),
    }
}

} // verus!
