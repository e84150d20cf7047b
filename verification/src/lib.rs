//! Verified core of a terminal-multiplexer front-end.
//!
//! The library models the two subsystems that carry the logic: a VT/ANSI
//! terminal emulator (escape-sequence parser plus screen buffer) and the
//! control-mode protocol driver (line framing, output decoding, response
//! assembly). Around them sit the tab registry, the command builders and the
//! key, mouse and layout translation. Process I/O and painting live outside
//! the library.

pub mod cell;
pub mod commands;
pub mod dispatch;
pub mod driver;
pub mod input;
pub mod laws;
pub mod layout;
pub mod overlay;
pub mod parser;
pub mod protocol;
pub mod registry;
pub mod screen;
pub mod sgr;
pub mod sidebar;
pub mod strutil;

pub use cell::{ansi_to_color, Cell, CellAttributes, Color};
pub use commands::{escape_for_send_keys, escape_single_quotes, is_key_name, Commands};
pub use driver::{ConnectionError, Driver, TmuxEvent};
pub use input::{
    command_for_action, key_to_send_action, mouse_event_to_tmux, Action, InputHandler, InputMode,
    KeyCode, KeyEvent, MouseButton, MouseEventKind,
};
pub use layout::{HitRegion, Layout, Rect, COLLAPSED_SIDEBAR_WIDTH, DEFAULT_SIDEBAR_WIDTH};
pub use overlay::RenameOverlay;
pub use parser::{VtEvent, VtParser};
pub use protocol::{decode_output, Notification, ProtocolError};
pub use registry::{App, Tab, WindowEntry};
pub use screen::TerminalBuffer;
pub use sidebar::{
    is_new_tab_button, row_to_tab_index, truncate_to_width, Sidebar, SidebarMode, TabInfo,
};
