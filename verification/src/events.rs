//! The actions and events the views exchange.
use vstd::prelude::*;
use crate::models::ToolbarItem;

verus! {

/// Select a conversation; raised by the session list, handled by the main
/// window.
pub struct SelectSession {
    pub contact_id: String,
}

/// Open the conversation in a window of its own (a double click in the
/// session list).
pub struct OpenChatWindow {
    pub contact_id: String,
}

/// A toolbar entry was clicked.
#[derive(Clone, Copy, Debug, PartialEq, Eq, Structural)]
pub struct ToolbarClicked {
    pub item: ToolbarItem,
}

/// Events of the application as a whole.
pub enum AppEvent {
    SessionSelected { contact_id: String },
    ToolbarClicked { item: ToolbarItem },
}

/// What the chat input raises.
pub enum ChatInputEvent {
    SendMessage(String),
}

/// What the chat area raises: the input area was resized (to be saved), or
/// a message is to be sent.
pub enum ChatAreaEvent {
    InputResized,
    SendMessage(String),
}

/// A session row was clicked.
pub struct SessionSelectEvent {
    pub contact_id: String,
}

/// A toolbar entry was clicked.
#[derive(Clone, Copy, Debug, PartialEq, Eq, Structural)]
pub struct ToolbarClickEvent {
    pub item: ToolbarItem,
}

/// The settings window is to be opened.
#[derive(Clone, Copy, Debug, PartialEq, Eq, Structural)]
pub struct OpenSettingsEvent;

/// The divider between the session list and the chat was released.
#[derive(Clone, Copy, Debug, PartialEq, Eq, Structural)]
pub enum FixedResizableEvent {
    Resized,
}

} // verus!
