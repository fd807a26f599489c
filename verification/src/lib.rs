//! Decision logic of a desktop shell that hosts a chat website in a native
//! window: the persisted chrome preference, the navigation allow-list, the
//! download notices and the chrome toggle.  Everything here works on plain
//! values; the window toolkit, the file system and the environment stay with
//! the caller.

pub mod chrome;
pub mod config;
pub mod downloads;
pub mod navigation;
pub mod text;
