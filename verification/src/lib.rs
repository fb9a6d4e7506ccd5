//! Domain model and view state of a desktop chat client: contacts, chat
//! sessions and messages, the shared chat store, the settings panel and the
//! small decisions the user interface takes, each with its contract.

pub mod chat;
pub mod clock;
pub mod events;
pub mod main_window;
pub mod models;
pub mod registry;
pub mod repos;
pub mod sample_data;
pub mod session_list;
pub mod settings;
pub mod store;
pub mod text;
pub mod theme;
pub mod time;
pub mod widgets;
