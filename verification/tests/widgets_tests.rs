use weixin::clock::LocalTime;
use weixin::models::{Contact, Message, ToolbarItem};
use weixin::theme::{weixin_colors, ThemeMode};
use weixin::time::{format_hhmm, format_mmdd, format_time_friendly, format_time_friendly_at, format_time_hhmm};
use weixin::widgets::{
    avatar_for_hash, group_avatar_members, session_row_text, toolbar_menu_entries, ChatToolbar,
    MenuAction, MessageBubble, PhoneMenuEntry, ToolBar, ToolbarMenuEntry, WindowControlArea,
    WindowControls,
};

#[test]
fn toolbar_buttons() {
    let mut bar = ToolBar::new();
    assert_eq!(bar.active_item, ToolbarItem::Chat);
    assert_eq!(bar.button_icon(ToolbarItem::Chat), "chat-round-fill.svg");
    assert_eq!(bar.button_icon(ToolbarItem::Contacts), "user-list.svg");
    assert!(bar.icon_highlighted(ToolbarItem::Chat));
    let ev = bar.click(ToolbarItem::Moments);
    assert_eq!(ev.item, ToolbarItem::Moments);
    assert_eq!(bar.button_icon(ToolbarItem::Moments), "moments.svg");
    assert!(!bar.icon_highlighted(ToolbarItem::Moments));
    bar.set_active_item(ToolbarItem::Favorites);
    assert_eq!(bar.button_icon(ToolbarItem::Favorites), "favorite-fill.svg");
}

#[test]
fn toolbar_menu() {
    let entries = toolbar_menu_entries();
    assert_eq!(entries.len(), 6);
    assert_eq!(entries[0].label(), "视频号直播伴侣");
    match entries[1].action() {
        MenuAction::Notify(t) => assert_eq!(t, "聊天文件功能开发中..."),
        MenuAction::OpenSettings => panic!("chat files opens no settings"),
    }
    assert!(matches!(ToolbarMenuEntry::Settings.action(), MenuAction::OpenSettings));
    assert_eq!(PhoneMenuEntry::VoiceCall.notification(), "语音通话功能开发中...");
    assert_eq!(PhoneMenuEntry::VideoCall.label(), "视频通话");
}

#[test]
fn window_buttons() {
    let b = WindowControls::new().buttons();
    assert_eq!(b.len(), 3);
    assert_eq!(b[0].id, "win-btn-min");
    assert_eq!(b[1].icon, "window-maximize.svg");
    assert_eq!(b[2].control, WindowControlArea::Close);
    let b = WindowControls::new().maximized(true).show_pin(true).buttons();
    assert_eq!(b.len(), 4);
    assert_eq!(b[0].icon, "nail.svg");
    assert_eq!(b[2].icon, "window-restore.svg");
}

#[test]
fn chat_toolbar_icons() {
    assert_eq!(ChatToolbar::new().right_icons(), ("phone-call.svg", "video.svg"));
    assert_eq!(ChatToolbar::new().is_group(true).right_icons(), ("circle.svg", "video-call.svg"));
}

#[test]
fn avatars() {
    assert_eq!(avatar_for_hash(0), "ava/afro.svg");
    assert_eq!(avatar_for_hash(22), "ava/gentleman-.svg");
    assert_eq!(avatar_for_hash(23), "ava/afro.svg");
    assert_eq!(avatar_for_hash(u64::MAX), avatar_for_hash(u64::MAX % 23));
    let m = group_avatar_members(&vec!["a".to_string(), "b".to_string()]);
    assert_eq!(m, vec!["a", "b", "", ""]);
    let m = group_avatar_members(&(0..6).map(|i| i.to_string()).collect());
    assert_eq!(m, vec!["0", "1", "2", "3"]);
}

#[test]
fn bubbles() {
    let colors = weixin_colors(ThemeMode::Light);
    let mine = MessageBubble::new(Message::at("1", "self", "我", "x", true, 0)).group(true);
    let l = mine.layout(&colors);
    assert!(l.reversed && !l.show_sender_name && !l.arrow_turned);
    assert_eq!(l.background, colors.message_bubble_self);
    let theirs = MessageBubble::new(Message::at("2", "u", "U", "y", false, 0)).group(true);
    let l = theirs.layout(&colors);
    assert!(!l.reversed && l.show_sender_name && l.arrow_turned);
    assert_eq!(l.text_color, colors.message_text_other);
    let one_to_one = MessageBubble::new(Message::at("3", "u", "U", "y", false, 0));
    assert!(!one_to_one.layout(&colors).show_sender_name);
}

#[test]
fn time_formats() {
    let lt = LocalTime { month: 3, day: 7, hour: 9, minute: 5 };
    assert_eq!(format_hhmm(lt), "09:05");
    assert_eq!(format_mmdd(lt), "03/07");
    let day = 86_400_000i64;
    assert_eq!(format_time_friendly_at(10 * day, 10 * day - 1, Some(lt)), "09:05");
    assert_eq!(format_time_friendly_at(10 * day, 9 * day, Some(lt)), "03/07");
    assert_eq!(format_time_friendly_at(10 * day, 9 * day + 1, Some(lt)), "09:05");
    assert_eq!(format_time_friendly_at(10 * day, 0, None), "");
    let s = format_time_friendly(1_700_000_000_000);
    assert!(s.len() == 5 && (s.contains('/') || s.contains(':')));
    assert_eq!(format_time_hhmm(1_700_000_000_000).len(), 5);
}

#[test]
fn session_rows() {
    let mut c = Contact::new("g", "Team").as_group(5, vec!["A".to_string()]);
    c.last_message = Some("hi\nthere".to_string());
    c.last_sender_name = Some("A".to_string());
    let row = session_row_text(&c, true);
    assert_eq!(row.title, "Team (5)");
    assert_eq!(row.preview, "A: hi");
    assert_eq!(row.time, "");
    c.last_message_time = Some(1_700_000_000_000);
    assert_eq!(session_row_text(&c, false).time.len(), 5);
    assert_eq!(session_row_text(&c, false).preview, "A: hi\nthere");
}
