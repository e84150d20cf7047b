//! Builders for the command lines sent to the multiplexer server.

use vstd::prelude::*;

use crate::strutil::{dec_str, append_u16, push_char, str_eq};

verus! {

/// A string with every single quote escaped for the server's shell-style
/// argument parsing: `'` becomes `'\''`.
pub open spec fn escape_quotes_spec(s: Seq<char>) -> Seq<char>
    decreases s.len(),
{
    if s.len() == 0 {
        Seq::empty()
    } else {
        (if s[0] == '\'' {
            seq!['\'', '\\', '\'', '\'']
        } else {
            seq![s[0]]
        }) + escape_quotes_spec(s.skip(1))
    }
}

/// Escape single quotes for server command arguments (see
/// [`escape_quotes_spec`]).
pub fn escape_single_quotes(s: &str) -> (r: String)
    ensures
        r@ == escape_quotes_spec(s@),
{
    let len = s.unicode_len();
    let mut out = String::new();
    let mut i: usize = 0;
    proof {
        assert(s@.skip(0) =~= s@);
    }
    while i < len
        invariant
            len == s@.len(),
            i <= len,
            escape_quotes_spec(s@) == out@ + escape_quotes_spec(s@.skip(i as int)),
        decreases len - i,
    {
        let ghost i0 = i as int;
        proof {
            assert(s@.skip(i0)[0] == s@[i0]);
            assert(s@.skip(i0).skip(1) =~= s@.skip(i0 + 1));
        }
        let c = s.get_char(i);
        if c == '\'' {
            out.append("'\\''");
            proof {
                reveal_strlit("'\\''");
                assert("'\\''"@ =~= seq!['\'', '\\', '\'', '\'']);
            }
        } else {
            push_char(&mut out, c);
        }
        i = i + 1;
    }
    proof {
        assert(s@.skip(len as int) =~= Seq::<char>::empty());
        assert(out@ =~= escape_quotes_spec(s@));
    }
    out
}

/// Whether the string is one of the named key tokens the server accepts,
/// or a `C-`/`M-` modified key.
pub open spec fn is_key_name_spec(s: Seq<char>) -> bool {
    ||| s == "Space"@
    ||| s == "Enter"@
    ||| s == "Tab"@
    ||| s == "BTab"@
    ||| s == "Escape"@
    ||| s == "BSpace"@
    ||| s == "Up"@
    ||| s == "Down"@
    ||| s == "Left"@
    ||| s == "Right"@
    ||| s == "Home"@
    ||| s == "End"@
    ||| s == "PageUp"@
    ||| s == "PageDown"@
    ||| s == "NPage"@
    ||| s == "PPage"@
    ||| s == "DC"@
    ||| s == "IC"@
    ||| s == "Insert"@
    ||| s == "Delete"@
    ||| s == "F1"@
    ||| s == "F2"@
    ||| s == "F3"@
    ||| s == "F4"@
    ||| s == "F5"@
    ||| s == "F6"@
    ||| s == "F7"@
    ||| s == "F8"@
    ||| s == "F9"@
    ||| s == "F10"@
    ||| s == "F11"@
    ||| s == "F12"@
    ||| (s.len() >= 2 && s[0] == 'C' && s[1] == '-')
    ||| (s.len() >= 2 && s[0] == 'M' && s[1] == '-')
}

/// Whether the string names a key rather than a literal character (see
/// [`is_key_name_spec`]).
pub fn is_key_name(s: &str) -> (r: bool)
    ensures
        r == is_key_name_spec(s@),
{
    if str_eq(s, "Space") || str_eq(s, "Enter") || str_eq(s, "Tab") || str_eq(s, "BTab") || str_eq(
        s,
        "Escape",
    ) || str_eq(s, "BSpace") || str_eq(s, "Up") || str_eq(s, "Down") || str_eq(s, "Left") || str_eq(
        s,
        "Right",
    ) || str_eq(s, "Home") || str_eq(s, "End") || str_eq(s, "PageUp") || str_eq(s, "PageDown")
        || str_eq(s, "NPage") || str_eq(s, "PPage") || str_eq(s, "DC") || str_eq(s, "IC") || str_eq(
        s,
        "Insert",
    ) || str_eq(s, "Delete") || str_eq(s, "F1") || str_eq(s, "F2") || str_eq(s, "F3") || str_eq(
        s,
        "F4",
    ) || str_eq(s, "F5") || str_eq(s, "F6") || str_eq(s, "F7") || str_eq(s, "F8") || str_eq(s, "F9")
        || str_eq(s, "F10") || str_eq(s, "F11") || str_eq(s, "F12") {
        return true;
    }
    if s.unicode_len() >= 2 {
        let c0 = s.get_char(0);
        let c1 = s.get_char(1);
        if (c0 == 'C' || c0 == 'M') && c1 == '-' {
            return true;
        }
    }
    false
}

/// Whether a single literal character needs quoting on a `send-keys`
/// line.
pub open spec fn is_special_char_spec(c: char) -> bool {
    ||| c == ';'
    ||| c == '\\'
    ||| c == '\''
    ||| c == '"'
    ||| c == ' '
    ||| c == '`'
    ||| c == '$'
    ||| c == '!'
    ||| c == '&'
    ||| c == '|'
    ||| c == '('
    ||| c == ')'
    ||| c == '{'
    ||| c == '}'
    ||| c == '['
    ||| c == ']'
    ||| c == '<'
    ||| c == '>'
    ||| c == '*'
    ||| c == '?'
    ||| c == '#'
    ||| c == '~'
}

/// The key argument of a `send-keys` line: key names pass through bare, a
/// single unremarkable character passes through bare, anything else is
/// quoted with its single quotes escaped.
pub open spec fn escape_for_send_keys_spec(s: Seq<char>) -> Seq<char> {
    if is_key_name_spec(s) {
        s
    } else if s.len() == 1 && !is_special_char_spec(s[0]) {
        s
    } else {
        seq!['\''] + escape_quotes_spec(s) + seq!['\'']
    }
}

/// Quote a key for `send-keys` (see [`escape_for_send_keys_spec`]).
pub fn escape_for_send_keys(s: &str) -> (r: String)
    ensures
        r@ == escape_for_send_keys_spec(s@),
{
    if is_key_name(s) {
        return s.to_owned();
    }
    if s.unicode_len() == 1 {
        let c = s.get_char(0);
        let special = c == ';' || c == '\\' || c == '\'' || c == '"' || c == ' ' || c == '`' || c
            == '$' || c == '!' || c == '&' || c == '|' || c == '(' || c == ')' || c == '{' || c
            == '}' || c == '[' || c == ']' || c == '<' || c == '>' || c == '*' || c == '?' || c
            == '#' || c == '~';
        if !special {
            return s.to_owned();
        }
    }
    let mut out = String::from_str("'");
    let escaped = escape_single_quotes(s);
    out.append(escaped.as_str());
    out.append("'");
    proof {
        reveal_strlit("'");
        assert("'"@ =~= seq!['\'']);
        assert(out@ =~= seq!['\''] + escape_quotes_spec(s@) + seq!['\'']);
    }
    out
}

/// Builders for the command lines of common server operations.
pub struct Commands;

impl Commands {
    /// List windows with their ids, names, active flags and pane ids.
    pub fn list_windows() -> (r: String)
        ensures
            r@ == "list-windows -F '#{window_id}:#{window_name}:#{window_active}:#{pane_id}'"@,
    {
        String::from_str("list-windows -F '#{window_id}:#{window_name}:#{window_active}:#{pane_id}'")
    }

    /// Create a new window, optionally named.
    pub fn new_window(name: Option<&str>) -> (r: String)
        ensures
            match name {
                Some(n) => r@ == "new-window -n '"@ + escape_quotes_spec(n@) + "'"@,
                None => r@ == "new-window"@,
            },
    {
        match name {
            Some(n) => {
                let mut out = String::from_str("new-window -n '");
                let escaped = escape_single_quotes(n);
                out.append(escaped.as_str());
                out.append("'");
                out
            },
            None => String::from_str("new-window"),
        }
    }

    /// Select a window by id.
    pub fn select_window(window_id: &str) -> (r: String)
        ensures
            r@ == "select-window -t "@ + window_id@,
    {
        let mut out = String::from_str("select-window -t ");
        out.append(window_id);
        out
    }

    /// Rename a window.
    pub fn rename_window(window_id: &str, name: &str) -> (r: String)
        ensures
            r@ == "rename-window -t "@ + window_id@ + " '"@ + escape_quotes_spec(name@) + "'"@,
    {
        let mut out = String::from_str("rename-window -t ");
        out.append(window_id);
        out.append(" '");
        let escaped = escape_single_quotes(name);
        out.append(escaped.as_str());
        out.append("'");
        out
    }

    /// Re-enable the server's automatic renaming of a window.
    pub fn enable_automatic_rename(window_id: &str) -> (r: String)
        ensures
            r@ == "set-window-option -t "@ + window_id@ + " automatic-rename on"@,
    {
        let mut out = String::from_str("set-window-option -t ");
        out.append(window_id);
        out.append(" automatic-rename on");
        out
    }

    /// Close a window.
    pub fn kill_window(window_id: &str) -> (r: String)
        ensures
            r@ == "kill-window -t "@ + window_id@,
    {
        let mut out = String::from_str("kill-window -t ");
        out.append(window_id);
        out
    }

    /// Send a key token (or quoted literal) to a pane.
    pub fn send_keys(pane_id: &str, keys: &str) -> (r: String)
        ensures
            r@ == "send-keys -t "@ + pane_id@ + " "@ + escape_for_send_keys_spec(keys@),
    {
        let mut out = String::from_str("send-keys -t ");
        out.append(pane_id);
        out.append(" ");
        let escaped = escape_for_send_keys(keys);
        out.append(escaped.as_str());
        out
    }

    /// Send literal text to a pane.
    pub fn send_text(pane_id: &str, text: &str) -> (r: String)
        ensures
            r@ == "send-keys -t "@ + pane_id@ + " -l '"@ + escape_quotes_spec(text@) + "'"@,
    {
        let mut out = String::from_str("send-keys -t ");
        out.append(pane_id);
        out.append(" -l '");
        let escaped = escape_single_quotes(text);
        out.append(escaped.as_str());
        out.append("'");
        out
    }

    /// Tell the server the viewport size.
    pub fn refresh_client_size(width: u16, height: u16) -> (r: String)
        ensures
            r@ == "refresh-client -C "@ + dec_str(width as nat) + ","@ + dec_str(height as nat),
    {
        let mut out = String::from_str("refresh-client -C ");
        append_u16(&mut out, width);
        out.append(",");
        append_u16(&mut out, height);
        out
    }

    /// Capture a pane's content with escape sequences.
    pub fn capture_pane(pane_id: &str) -> (r: String)
        ensures
            r@ == "capture-pane -t "@ + pane_id@ + " -p -e"@,
    {
        let mut out = String::from_str("capture-pane -t ");
        out.append(pane_id);
        out.append(" -p -e");
        out
    }

    /// Ask the server to print a format string.
    pub fn display_message(format: &str) -> (r: String)
        ensures
            r@ == "display-message -p '"@ + escape_quotes_spec(format@) + "'"@,
    {
        let mut out = String::from_str("display-message -p '");
        let escaped = escape_single_quotes(format);
        out.append(escaped.as_str());
        out.append("'");
        out
    }

    /// Detach this client from the session.
    pub fn detach() -> (r: String)
        ensures
            r@ == "detach-client"@,
    {
        String::from_str("detach-client")
    }

    /// List the panes of the current window.
    pub fn list_panes() -> (r: String)
        ensures
            r@ == "list-panes -F '#{pane_id}:#{pane_active}:#{pane_width}:#{pane_height}'"@,
    {
        String::from_str("list-panes -F '#{pane_id}:#{pane_active}:#{pane_width}:#{pane_height}'")
    }
}

} // verus!
