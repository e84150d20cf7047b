//! Keyboard and mouse handling: the modal input handler, the mapping of
//! host keys to server key tokens, and the SGR-1006 mouse translation.

use vstd::prelude::*;

use crate::registry::find_tab;
use crate::strutil::{dec_str, append_u16, push_char};

verus! {

/// A host key, modelled with plain values.
#[derive(Debug, Clone, Copy, PartialEq, Eq, Structural)]
pub enum KeyCode {
    Char(char),
    Enter,
    Backspace,
    Tab,
    Esc,
    Up,
    Down,
    Left,
    Right,
    Home,
    End,
    PageUp,
    PageDown,
    Delete,
    Insert,
    F(u8),
    /// Any key this layer does not translate.
    Other,
}

/// A host key event: the key plus its modifiers.
#[derive(Debug, Clone, Copy, PartialEq, Eq, Structural)]
pub struct KeyEvent {
    pub code: KeyCode,
    pub ctrl: bool,
    pub alt: bool,
    pub shift: bool,
}

/// What a key stroke asks the application to do.
#[derive(Debug, Clone)]
pub enum Action {
    /// Nothing further.
    Idle,
    /// Leave the application.
    Exit,
    /// Create a new tab.
    NewTab,
    /// Close the active tab.
    CloseTab,
    /// Switch to the next tab.
    NextTab,
    /// Switch to the previous tab.
    PrevTab,
    /// Switch to the tab at a 1-based index.
    SelectTab(usize),
    /// Collapse or expand the sidebar.
    ToggleSidebar,
    /// Begin renaming the active tab.
    StartRename,
    /// Detach from the session.
    Detach,
    /// Send a literal prefix key to the pane.
    SendCtrlB,
    /// Send a key to the active pane; the payload is the argument part of
    /// a `send-keys` line.
    SendKey(String),
}

/// The model of an [`Action`].
#[verifier::ext_equal]
pub ghost enum ActionModel {
    Idle,
    Exit,
    NewTab,
    CloseTab,
    NextTab,
    PrevTab,
    SelectTab(usize),
    ToggleSidebar,
    StartRename,
    Detach,
    SendCtrlB,
    SendKey(Seq<char>),
}

impl View for Action {
    type V = ActionModel;

    open spec fn view(&self) -> ActionModel {
        match self {
            Action::Idle => ActionModel::Idle,
            Action::Exit => ActionModel::Exit,
            Action::NewTab => ActionModel::NewTab,
            Action::CloseTab => ActionModel::CloseTab,
            Action::NextTab => ActionModel::NextTab,
            Action::PrevTab => ActionModel::PrevTab,
            Action::SelectTab(i) => ActionModel::SelectTab(*i),
            Action::ToggleSidebar => ActionModel::ToggleSidebar,
            Action::StartRename => ActionModel::StartRename,
            Action::Detach => ActionModel::Detach,
            Action::SendCtrlB => ActionModel::SendCtrlB,
            Action::SendKey(s) => ActionModel::SendKey(s@),
        }
    }
}

/// The `send-keys` argument a key event passes through to the pane, if
/// any: a plain character goes in literal mode with its quote escaped, a
/// `C-`/`M-` prefix carries the modifier, and named keys go as their
/// tokens.
pub open spec fn key_send_spec(key: KeyEvent) -> Option<Seq<char>> {
    match key.code {
        KeyCode::Char(c) => {
            if key.ctrl {
                Some("C-"@ + seq![c])
            } else if key.alt {
                Some("M-"@ + seq![c])
            } else {
                Some(
                    "-l '"@ + (if c == '\'' {
                        seq!['\'', '\\', '\'', '\'']
                    } else {
                        seq![c]
                    }) + "'"@,
                )
            }
        },
        KeyCode::Enter => Some("Enter"@),
        KeyCode::Backspace => Some("BSpace"@),
        KeyCode::Tab => {
            if key.shift {
                Some("BTab"@)
            } else {
                Some("Tab"@)
            }
        },
        KeyCode::Esc => Some("Escape"@),
        KeyCode::Up => Some("Up"@),
        KeyCode::Down => Some("Down"@),
        KeyCode::Left => Some("Left"@),
        KeyCode::Right => Some("Right"@),
        KeyCode::Home => Some("Home"@),
        KeyCode::End => Some("End"@),
        KeyCode::PageUp => Some("PageUp"@),
        KeyCode::PageDown => Some("PageDown"@),
        KeyCode::Delete => Some("DC"@),
        KeyCode::Insert => Some("IC"@),
        KeyCode::F(n) => Some("F"@ + dec_str(n as nat)),
        KeyCode::Other => None,
    }
}

/// Translate a pass-through key to its [`Action::SendKey`] (see
/// [`key_send_spec`]); untranslatable keys become [`Action::Idle`].
pub fn key_to_send_action(key: KeyEvent) -> (r: Action)
    ensures
        match key_send_spec(key) {
            Some(s) => (r@ matches ActionModel::SendKey(t) && t == s),
            None => r@ == ActionModel::Idle,
        },
{
    match key.code {
        KeyCode::Char(c) => {
            if key.ctrl {
                let mut s = String::from_str("C-");
                push_char(&mut s, c);
                Action::SendKey(s)
            } else if key.alt {
                let mut s = String::from_str("M-");
                push_char(&mut s, c);
                Action::SendKey(s)
            } else {
                let mut s = String::from_str("-l '");
                if c == '\'' {
                    s.append("'\\''");
                    proof {
                        reveal_strlit("'\\''");
                        assert("'\\''"@ =~= seq!['\'', '\\', '\'', '\'']);
                    }
                } else {
                    push_char(&mut s, c);
                }
                s.append("'");
                proof {
                    assert(s@ =~= ("-l '"@ + (if c == '\'' {
                        seq!['\'', '\\', '\'', '\'']
                    } else {
                        seq![c]
                    }) + "'"@));
                }
                Action::SendKey(s)
            }
        },
        KeyCode::Enter => Action::SendKey(String::from_str("Enter")),
        KeyCode::Backspace => Action::SendKey(String::from_str("BSpace")),
        KeyCode::Tab => {
            if key.shift {
                Action::SendKey(String::from_str("BTab"))
            } else {
                Action::SendKey(String::from_str("Tab"))
            }
        },
        KeyCode::Esc => Action::SendKey(String::from_str("Escape")),
        KeyCode::Up => Action::SendKey(String::from_str("Up")),
        KeyCode::Down => Action::SendKey(String::from_str("Down")),
        KeyCode::Left => Action::SendKey(String::from_str("Left")),
        KeyCode::Right => Action::SendKey(String::from_str("Right")),
        KeyCode::Home => Action::SendKey(String::from_str("Home")),
        KeyCode::End => Action::SendKey(String::from_str("End")),
        KeyCode::PageUp => Action::SendKey(String::from_str("PageUp")),
        KeyCode::PageDown => Action::SendKey(String::from_str("PageDown")),
        KeyCode::Delete => Action::SendKey(String::from_str("DC")),
        KeyCode::Insert => Action::SendKey(String::from_str("IC")),
        KeyCode::F(n) => {
            let mut s = String::from_str("F");
            append_u16(&mut s, n as u16);
            Action::SendKey(s)
        },
        KeyCode::Other => Action::Idle,
    }
}

/// The input handler's mode.
#[derive(Debug, Clone, Copy, PartialEq, Eq, Structural)]
pub enum InputMode {
    /// Keys pass through to the pane.
    Normal,
    /// The prefix key was pressed; the next key is a command.
    Prefix,
    /// A rename is being typed.
    Rename,
}

/// The model of the input handler: its mode and the rename buffer.
#[verifier::ext_equal]
pub ghost struct InputModel {
    pub mode: InputMode,
    pub rename: Seq<char>,
}

/// What one key does to the handler (see
/// [`InputHandler::handle_key`]): the next mode, the next rename buffer,
/// and the resulting action.
pub open spec fn handle_key_spec(m: InputModel, key: KeyEvent) -> (InputModel, ActionModel) {
    if key.code == KeyCode::Char('q') && key.ctrl {
        (m, ActionModel::Exit)
    } else {
        match m.mode {
            InputMode::Normal => {
                if key.code == KeyCode::Char('b') && key.ctrl {
                    (InputModel { mode: InputMode::Prefix, ..m }, ActionModel::Idle)
                } else {
                    (
                        m,
                        match key_send_spec(key) {
                            Some(s) => ActionModel::SendKey(s),
                            None => ActionModel::Idle,
                        },
                    )
                }
            },
            InputMode::Prefix => {
                let m1 = InputModel { mode: InputMode::Normal, ..m };
                match key.code {
                    KeyCode::Char(c) => {
                        if c == 'c' {
                            (m1, ActionModel::NewTab)
                        } else if c == 'x' {
                            (m1, ActionModel::CloseTab)
                        } else if c == 'n' {
                            (m1, ActionModel::NextTab)
                        } else if c == 'p' {
                            (m1, ActionModel::PrevTab)
                        } else if '1' <= c && c <= '9' {
                            (m1, ActionModel::SelectTab((c as int - '0' as int) as usize))
                        } else if c == 'b' {
                            (m1, ActionModel::ToggleSidebar)
                        } else if c == ',' {
                            (m1, ActionModel::StartRename)
                        } else if c == 'd' {
                            (m1, ActionModel::Detach)
                        } else if c == 'B' && key.shift {
                            (m1, ActionModel::SendCtrlB)
                        } else {
                            (m1, ActionModel::Idle)
                        }
                    },
                    _ => (m1, ActionModel::Idle),
                }
            },
            InputMode::Rename => {
                match key.code {
                    KeyCode::Esc => (
                        InputModel { mode: InputMode::Normal, rename: Seq::empty() },
                        ActionModel::Idle,
                    ),
                    KeyCode::Enter => (m, ActionModel::Idle),
                    KeyCode::Backspace => (
                        InputModel {
                            rename: if m.rename.len() > 0 {
                                m.rename.drop_last()
                            } else {
                                m.rename
                            },
                            ..m
                        },
                        ActionModel::Idle,
                    ),
                    KeyCode::Char(c) => {
                        if !key.ctrl && !key.alt {
                            (InputModel { rename: m.rename.push(c), ..m }, ActionModel::Idle)
                        } else {
                            (m, ActionModel::Idle)
                        }
                    },
                    _ => (m, ActionModel::Idle),
                }
            },
        }
    }
}

/// The modal input handler.
pub struct InputHandler {
    mode: InputMode,
    rename_buffer: String,
}

impl View for InputHandler {
    type V = InputModel;

    closed spec fn view(&self) -> InputModel {
        InputModel { mode: self.mode, rename: self.rename_buffer@ }
    }
}

impl InputHandler {
    /// A fresh handler in normal mode with an empty rename buffer.
    pub fn new() -> (r: InputHandler)
        ensures
            r@ == (InputModel { mode: InputMode::Normal, rename: Seq::empty() }),
    {
        let h = InputHandler { mode: InputMode::Normal, rename_buffer: String::new() };
        proof {
            assert(h@ =~~= (InputModel { mode: InputMode::Normal, rename: Seq::empty() }));
        }
        h
    }

    /// The current mode.
    pub fn mode(&self) -> (r: &InputMode)
        ensures
            *r == self@.mode,
    {
        &self.mode
    }

    /// Whether a rename is being typed.
    pub fn is_renaming(&self) -> (r: bool)
        ensures
            r == (self@.mode == InputMode::Rename),
    {
        self.mode == InputMode::Rename
    }

    /// The rename buffer's content.
    pub fn rename_buffer(&self) -> (r: &str)
        ensures
            r@ == self@.rename,
    {
        self.rename_buffer.as_str()
    }

    /// Enter rename mode, seeding the buffer with the current name.
    pub fn start_rename(&mut self, current_name: &str)
        ensures
            final(self)@ == (InputModel { mode: InputMode::Rename, rename: current_name@ }),
    {
        self.mode = InputMode::Rename;
        self.rename_buffer = current_name.to_owned();
        proof {
            assert(self@ =~~= (InputModel { mode: InputMode::Rename, rename: current_name@ }));
        }
    }

    /// Abandon a rename.
    pub fn cancel_rename(&mut self)
        ensures
            final(self)@ == (InputModel { mode: InputMode::Normal, rename: Seq::empty() }),
    {
        self.mode = InputMode::Normal;
        self.rename_buffer = String::new();
        proof {
            assert(self@ =~~= (InputModel { mode: InputMode::Normal, rename: Seq::empty() }));
        }
    }

    /// Leave rename mode and hand the typed name over.
    pub fn finish_rename(&mut self) -> (r: String)
        ensures
            r@ == old(self)@.rename,
            final(self)@ == (InputModel { mode: InputMode::Normal, rename: Seq::empty() }),
    {
        self.mode = InputMode::Normal;
        let mut taken = String::new();
        core::mem::swap(&mut taken, &mut self.rename_buffer);
        proof {
            assert(self@ =~~= (InputModel { mode: InputMode::Normal, rename: Seq::empty() }));
        }
        taken
    }

    /// Feed one key event through the modal logic (see
    /// [`handle_key_spec`]): `Ctrl-Q` always exits; in normal mode the
    /// prefix key arms the prefix and everything else passes through; a
    /// prefix command maps to its action; in rename mode characters edit
    /// the buffer, escape cancels, and enter is left to the caller to
    /// finish.
    pub fn handle_key(&mut self, key: KeyEvent) -> (r: Action)
        ensures
            final(self)@ == handle_key_spec(old(self)@, key).0,
            r@ == handle_key_spec(old(self)@, key).1,
    {
        if key.code == KeyCode::Char('q') && key.ctrl {
            return Action::Exit;
        }
        match self.mode {
            InputMode::Normal => {
                if key.code == KeyCode::Char('b') && key.ctrl {
                    self.mode = InputMode::Prefix;
                    proof {
                        assert(self@ =~~= (InputModel { mode: InputMode::Prefix, ..old(self)@ }));
                    }
                    Action::Idle
                } else {
                    key_to_send_action(key)
                }
            },
            InputMode::Prefix => {
                self.mode = InputMode::Normal;
                proof {
                    assert(self@ =~~= (InputModel { mode: InputMode::Normal, ..old(self)@ }));
                }
                match key.code {
                    KeyCode::Char(c) => {
                        if c == 'c' {
                            Action::NewTab
                        } else if c == 'x' {
                            Action::CloseTab
                        } else if c == 'n' {
                            Action::NextTab
                        } else if c == 'p' {
                            Action::PrevTab
                        } else if '1' <= c && c <= '9' {
                            let d = (c as u32) - 48;
                            Action::SelectTab(d as usize)
                        } else if c == 'b' {
                            Action::ToggleSidebar
                        } else if c == ',' {
                            Action::StartRename
                        } else if c == 'd' {
                            Action::Detach
                        } else if c == 'B' && key.shift {
                            Action::SendCtrlB
                        } else {
                            Action::Idle
                        }
                    },
                    _ => Action::Idle,
                }
            },
            InputMode::Rename => {
                match key.code {
                    KeyCode::Esc => {
                        self.cancel_rename();
                        Action::Idle
                    },
                    KeyCode::Enter => Action::Idle,
                    KeyCode::Backspace => {
                        let len = self.rename_buffer.unicode_len();
                        if len > 0 {
                            let shorter = self.rename_buffer.as_str().substring_char(
                                0,
                                len - 1,
                            ).to_owned();
                            self.rename_buffer = shorter;
                            proof {
                                assert(old(self)@.rename.subrange(
                                    0,
                                    old(self)@.rename.len() - 1,
                                ) =~= old(self)@.rename.drop_last());
                                assert(self@ =~~= (InputModel {
                                    rename: old(self)@.rename.drop_last(),
                                    ..old(self)@
                                }));
                            }
                        }
                        Action::Idle
                    },
                    KeyCode::Char(c) => {
                        if !key.ctrl && !key.alt {
                            push_char(&mut self.rename_buffer, c);
                            proof {
                                assert(self@ =~~= (InputModel {
                                    rename: old(self)@.rename.push(c),
                                    ..old(self)@
                                }));
                            }
                        }
                        Action::Idle
                    },
                    _ => Action::Idle,
                }
            },
        }
    }
}

/// A mouse button.
#[derive(Debug, Clone, Copy, PartialEq, Eq, Structural)]
pub enum MouseButton {
    Left,
    Middle,
    Right,
}

/// A host mouse event kind, modelled with plain values.
#[derive(Debug, Clone, Copy, PartialEq, Eq, Structural)]
pub enum MouseEventKind {
    Down(MouseButton),
    Up(MouseButton),
    Drag(MouseButton),
    ScrollUp,
    ScrollDown,
    ScrollLeft,
    ScrollRight,
    Moved,
}

/// The SGR-1006 button code and press flag of a mouse event, or nothing
/// for plain motion: buttons are 0, 1, 2; a drag adds 32; wheel
/// directions are 64 to 67; only a button release clears the press flag.
pub open spec fn mouse_code_spec(kind: MouseEventKind) -> Option<(u16, bool)> {
    match kind {
        MouseEventKind::Down(MouseButton::Left) => Some((0u16, true)),
        MouseEventKind::Down(MouseButton::Middle) => Some((1u16, true)),
        MouseEventKind::Down(MouseButton::Right) => Some((2u16, true)),
        MouseEventKind::Up(MouseButton::Left) => Some((0u16, false)),
        MouseEventKind::Up(MouseButton::Middle) => Some((1u16, false)),
        MouseEventKind::Up(MouseButton::Right) => Some((2u16, false)),
        MouseEventKind::Drag(MouseButton::Left) => Some((32u16, true)),
        MouseEventKind::Drag(MouseButton::Middle) => Some((33u16, true)),
        MouseEventKind::Drag(MouseButton::Right) => Some((34u16, true)),
        MouseEventKind::ScrollUp => Some((64u16, true)),
        MouseEventKind::ScrollDown => Some((65u16, true)),
        MouseEventKind::ScrollLeft => Some((66u16, true)),
        MouseEventKind::ScrollRight => Some((67u16, true)),
        MouseEventKind::Moved => None,
    }
}

/// The `send-keys` line delivering a mouse event to a pane as an
/// SGR-1006 escape sequence with 1-based coordinates.
pub open spec fn mouse_command_spec(pane_id: Seq<char>, kind: MouseEventKind, col: u16, row: u16)
    -> Option<Seq<char>> {
    match mouse_code_spec(kind) {
        Some((code, press)) => Some(
            "send-keys -t "@ + pane_id + " -l $'\\e[<"@ + dec_str(code as nat) + ";"@ + dec_str(
                col as nat + 1,
            ) + ";"@ + dec_str(row as nat + 1) + (if press {
                seq!['M']
            } else {
                seq!['m']
            }) + "'"@,
        ),
        None => None,
    }
}

/// Build the `send-keys` line for a mouse event (see
/// [`mouse_command_spec`]); plain motion without a button sends nothing.
pub fn mouse_event_to_tmux(pane_id: &str, kind: MouseEventKind, col: u16, row: u16) -> (r: Option<
    String,
>)
    requires
        col < 0xFFFF,
        row < 0xFFFF,
    ensures
        match r {
            Some(s) => mouse_command_spec(pane_id@, kind, col, row) == Some(s@),
            None => mouse_command_spec(pane_id@, kind, col, row) is None,
        },
{
    let coded: Option<(u16, bool)> = match kind {
        MouseEventKind::Down(MouseButton::Left) => Some((0, true)),
        MouseEventKind::Down(MouseButton::Middle) => Some((1, true)),
        MouseEventKind::Down(MouseButton::Right) => Some((2, true)),
        MouseEventKind::Up(MouseButton::Left) => Some((0, false)),
        MouseEventKind::Up(MouseButton::Middle) => Some((1, false)),
        MouseEventKind::Up(MouseButton::Right) => Some((2, false)),
        MouseEventKind::Drag(MouseButton::Left) => Some((32, true)),
        MouseEventKind::Drag(MouseButton::Middle) => Some((33, true)),
        MouseEventKind::Drag(MouseButton::Right) => Some((34, true)),
        MouseEventKind::ScrollUp => Some((64, true)),
        MouseEventKind::ScrollDown => Some((65, true)),
        MouseEventKind::ScrollLeft => Some((66, true)),
        MouseEventKind::ScrollRight => Some((67, true)),
        MouseEventKind::Moved => None,
    };
    match coded {
        Some((code, press)) => {
            let mut s = String::from_str("send-keys -t ");
            s.append(pane_id);
            s.append(" -l $'\\e[<");
            append_u16(&mut s, code);
            s.append(";");
            append_u16(&mut s, col + 1);
            s.append(";");
            append_u16(&mut s, row + 1);
            if press {
                push_char(&mut s, 'M');
            } else {
                push_char(&mut s, 'm');
            }
            s.append("'");
            Some(s)
        },
        None => None,
    }
}


/// What an action asks the event loop to do: a command line to send, an
/// exit, or entering rename mode.
pub struct ActionOutcome {
    pub command: Option<String>,
    pub exit: bool,
    pub start_rename: bool,
}

/// Decide what an action does against the current registry (the
/// decision core of the action handler): tab commands address the active
/// or indexed window, key sends address the active pane, detaching both
/// sends and exits, and renaming only begins when an active tab exists.
pub fn command_for_action(app: &crate::registry::App, action: &Action) -> (r: ActionOutcome)
    requires
        app.wf(),
    ensures
        match action@ {
            ActionModel::Idle => r.command is None && !r.exit && !r.start_rename,
            ActionModel::ToggleSidebar => r.command is None && !r.exit && !r.start_rename,
            ActionModel::Exit => r.command is None && r.exit && !r.start_rename,
            ActionModel::NewTab => (r.command matches Some(c) && c@ == "new-window"@) && !r.exit
                && !r.start_rename,
            ActionModel::CloseTab => match app@.active {
                Some(aid) => (r.command matches Some(c) && c@ == "kill-window -t "@ + aid)
                    && !r.exit && !r.start_rename,
                None => r.command is None && !r.exit && !r.start_rename,
            },
            ActionModel::NextTab => match app@.active {
                Some(aid) => (r.command matches Some(c) && exists|i: int|
                    0 <= i < app@.tabs.len() && (#[trigger] app@.tabs[i]).window_id == aid && c@
                        == "select-window -t "@ + app@.tabs[if i + 1 < app@.tabs.len() {
                        i + 1
                    } else {
                        0
                    }].window_id) && !r.exit && !r.start_rename,
                None => r.command is None && !r.exit && !r.start_rename,
            },
            ActionModel::PrevTab => match app@.active {
                Some(aid) => (r.command matches Some(c) && exists|i: int|
                    0 <= i < app@.tabs.len() && (#[trigger] app@.tabs[i]).window_id == aid && c@
                        == "select-window -t "@ + app@.tabs[if i == 0 {
                        app@.tabs.len() as int - 1
                    } else {
                        i - 1
                    }].window_id) && !r.exit && !r.start_rename,
                None => r.command is None && !r.exit && !r.start_rename,
            },
            ActionModel::SelectTab(n) => {
                &&& (1 <= n && n as int <= app@.tabs.len()) ==> (r.command matches Some(c) && c@
                    == "select-window -t "@ + app@.tabs[n as int - 1].window_id)
                &&& !(1 <= n && n as int <= app@.tabs.len()) ==> r.command is None
                &&& !r.exit
                &&& !r.start_rename
            },
            ActionModel::StartRename => r.command is None && !r.exit && r.start_rename == (
            app@.active is Some),
            ActionModel::Detach => (r.command matches Some(c) && c@ == "detach-client"@) && r.exit
                && !r.start_rename,
            ActionModel::SendCtrlB => match app@.active {
                Some(aid) => (r.command matches Some(c) && (find_tab(app@.tabs, aid) matches Some(
                    t,
                ) && c@ == "send-keys -t "@ + t.pane_id + " C-b"@)) && !r.exit && !r.start_rename,
                None => r.command is None && !r.exit && !r.start_rename,
            },
            ActionModel::SendKey(k) => match app@.active {
                Some(aid) => (r.command matches Some(c) && (find_tab(app@.tabs, aid) matches Some(
                    t,
                ) && c@ == "send-keys -t "@ + t.pane_id + " "@ + k)) && !r.exit
                    && !r.start_rename,
                None => r.command is None && !r.exit && !r.start_rename,
            },
        },
{
    match action {
        Action::Idle => ActionOutcome { command: None, exit: false, start_rename: false },
        Action::ToggleSidebar => ActionOutcome {
            command: None,
            exit: false,
            start_rename: false,
        },
        Action::Exit => ActionOutcome { command: None, exit: true, start_rename: false },
        Action::NewTab => ActionOutcome {
            command: Some(crate::commands::Commands::new_window(None)),
            exit: false,
            start_rename: false,
        },
        Action::CloseTab => {
            let command = match app.active_window_id() {
                Some(wid) => Some(crate::commands::Commands::kill_window(wid)),
                None => None,
            };
            ActionOutcome { command, exit: false, start_rename: false }
        },
        Action::NextTab => {
            let command = match app.next_window_id() {
                Some(wid) => Some(crate::commands::Commands::select_window(wid)),
                None => None,
            };
            ActionOutcome { command, exit: false, start_rename: false }
        },
        Action::PrevTab => {
            let command = match app.prev_window_id() {
                Some(wid) => Some(crate::commands::Commands::select_window(wid)),
                None => None,
            };
            ActionOutcome { command, exit: false, start_rename: false }
        },
        Action::SelectTab(n) => {
            let command = match app.window_id_by_index(*n) {
                Some(wid) => Some(crate::commands::Commands::select_window(wid)),
                None => None,
            };
            ActionOutcome { command, exit: false, start_rename: false }
        },
        Action::StartRename => {
            let start = match app.active_window_id() {
                Some(_) => true,
                None => false,
            };
            ActionOutcome { command: None, exit: false, start_rename: start }
        },
        Action::Detach => ActionOutcome {
            command: Some(crate::commands::Commands::detach()),
            exit: true,
            start_rename: false,
        },
        Action::SendCtrlB => {
            let command = match app.active_pane_id() {
                Some(p) => {
                    let mut c = String::from_str("send-keys -t ");
                    c.append(p);
                    c.append(" C-b");
                    Some(c)
                },
                None => None,
            };
            ActionOutcome { command, exit: false, start_rename: false }
        },
        Action::SendKey(k) => {
            let command = match app.active_pane_id() {
                Some(p) => {
                    let mut c = String::from_str("send-keys -t ");
                    c.append(p);
                    c.append(" ");
                    c.append(k.as_str());
                    Some(c)
                },
                None => None,
            };
            ActionOutcome { command, exit: false, start_rename: false }
        },
    }
}

/// Whether a click at `index` within `threshold_ms` of the previous
/// click on the same index counts as a double click.
pub fn is_double_click(
    last: &Option<(usize, u64)>,
    index: usize,
    now_ms: u64,
    threshold_ms: u64,
) -> (r: bool)
    ensures
        r == match *last {
            Some((li, lt)) => li == index && lt <= now_ms && now_ms - lt < threshold_ms,
            None => false,
        },
{
    match last {
        Some((li, lt)) => *li == index && *lt <= now_ms && now_ms - *lt < threshold_ms,
        None => false,
    }
}

} // verus!
