//! The control-mode wire protocol: one server line becomes one typed
//! notification, and escaped output payloads are decoded to bytes.

use vstd::prelude::*;

use crate::strutil::{find_char, first_at, parse_u64, parse_u64_spec, str_eq};

verus! {

/// A fault in a line that claimed to be a notification.
#[derive(Debug, Clone)]
pub enum ProtocolError {
    /// The line's shape does not match its notification type.
    InvalidFormat(String),
    /// A notification type nothing here understands.
    UnknownType(String),
}

impl ProtocolError {
    /// The diagnostic text carried by the error.
    pub fn message(&self) -> (r: &String)
        ensures
            match self {
                ProtocolError::InvalidFormat(m) => r@ == m@,
                ProtocolError::UnknownType(m) => r@ == m@,
            },
    {
        match self {
            ProtocolError::InvalidFormat(m) => m,
            ProtocolError::UnknownType(m) => m,
        }
    }
}

/// A parsed control-mode notification.
#[derive(Debug, Clone)]
pub enum Notification {
    /// `%begin <time> <id> <flags>`
    Begin { id: u64 },
    /// `%end <time> <id> <flags>`
    End { id: u64 },
    /// `%error <time> <id> <flags>`
    Error { id: u64 },
    /// `%output <pane-id> <escaped-data>`
    Output { pane_id: String, data: Vec<u8> },
    /// `%window-add <window-id>`
    WindowAdd { window_id: String },
    /// `%window-close <window-id>`
    WindowClose { window_id: String },
    /// `%window-renamed <window-id> <name>`; the name is the rest of the
    /// line.
    WindowRenamed { window_id: String, name: String },
    /// `%session-changed <session-id> <name>`
    SessionChanged { session_id: String, name: String },
    /// `%sessions-changed`
    SessionsChanged,
    /// `%client-session-changed <client> <session-id> <name>`
    ClientSessionChanged { client: String, session_id: String, name: String },
    /// `%layout-change <window-id> <layout>`
    LayoutChange { window_id: String, layout: String },
    /// `%pane-mode-changed <pane-id>`
    PaneModeChanged { pane_id: String },
    /// `%window-pane-changed <window-id> <pane-id>`
    WindowPaneChanged { window_id: String, pane_id: String },
    /// `%unlinked-window-add <window-id>`
    UnlinkedWindowAdd { window_id: String },
    /// `%client-detached <client> [reason]`
    ClientDetached { client: String, reason: Option<String> },
    /// `%exit [reason]`
    Exit { reason: Option<String> },
    /// A line that is no notification: part of a command response.
    Data(String),
    /// A notification type kept only for logging.
    Unknown { notification_type: String, raw: String },
}

/// The model of a [`Notification`].
#[verifier::ext_equal]
pub ghost enum NotificationModel {
    Begin { id: u64 },
    End { id: u64 },
    Error { id: u64 },
    Output { pane_id: Seq<char>, data: Seq<u8> },
    WindowAdd { window_id: Seq<char> },
    WindowClose { window_id: Seq<char> },
    WindowRenamed { window_id: Seq<char>, name: Seq<char> },
    SessionChanged { session_id: Seq<char>, name: Seq<char> },
    SessionsChanged,
    ClientSessionChanged { client: Seq<char>, session_id: Seq<char>, name: Seq<char> },
    LayoutChange { window_id: Seq<char>, layout: Seq<char> },
    PaneModeChanged { pane_id: Seq<char> },
    WindowPaneChanged { window_id: Seq<char>, pane_id: Seq<char> },
    UnlinkedWindowAdd { window_id: Seq<char> },
    ClientDetached { client: Seq<char>, reason: Option<Seq<char>> },
    Exit { reason: Option<Seq<char>> },
    Data(Seq<char>),
    Unknown { notification_type: Seq<char>, raw: Seq<char> },
}

impl View for Notification {
    type V = NotificationModel;

    open spec fn view(&self) -> NotificationModel {
        match self {
            Notification::Begin { id } => NotificationModel::Begin { id: *id },
            Notification::End { id } => NotificationModel::End { id: *id },
            Notification::Error { id } => NotificationModel::Error { id: *id },
            Notification::Output { pane_id, data } => NotificationModel::Output {
                pane_id: pane_id@,
                data: data@,
            },
            Notification::WindowAdd { window_id } => NotificationModel::WindowAdd {
                window_id: window_id@,
            },
            Notification::WindowClose { window_id } => NotificationModel::WindowClose {
                window_id: window_id@,
            },
            Notification::WindowRenamed { window_id, name } => NotificationModel::WindowRenamed {
                window_id: window_id@,
                name: name@,
            },
            Notification::SessionChanged { session_id, name } => NotificationModel::SessionChanged {
                session_id: session_id@,
                name: name@,
            },
            Notification::SessionsChanged => NotificationModel::SessionsChanged,
            Notification::ClientSessionChanged {
                client,
                session_id,
                name,
            } => NotificationModel::ClientSessionChanged {
                client: client@,
                session_id: session_id@,
                name: name@,
            },
            Notification::LayoutChange { window_id, layout } => NotificationModel::LayoutChange {
                window_id: window_id@,
                layout: layout@,
            },
            Notification::PaneModeChanged { pane_id } => NotificationModel::PaneModeChanged {
                pane_id: pane_id@,
            },
            Notification::WindowPaneChanged {
                window_id,
                pane_id,
            } => NotificationModel::WindowPaneChanged {
                window_id: window_id@,
                pane_id: pane_id@,
            },
            Notification::UnlinkedWindowAdd { window_id } => NotificationModel::UnlinkedWindowAdd {
                window_id: window_id@,
            },
            Notification::ClientDetached { client, reason } => NotificationModel::ClientDetached {
                client: client@,
                reason: match reason {
                    Some(t) => Some(t@),
                    None => None,
                },
            },
            Notification::Exit { reason } => NotificationModel::Exit {
                reason: match reason {
                    Some(t) => Some(t@),
                    None => None,
                },
            },
            Notification::Data(s) => NotificationModel::Data(s@),
            Notification::Unknown { notification_type, raw } => NotificationModel::Unknown {
                notification_type: notification_type@,
                raw: raw@,
            },
        }
    }
}

/// Whether `c` is an octal digit.
pub open spec fn is_octal(c: char) -> bool {
    '0' <= c && c <= '7'
}

/// The value of an octal digit.
pub open spec fn octal_val(c: char) -> int {
    c as int - '0' as int
}

/// The UTF-8 encoding of one code point.
pub open spec fn char_utf8_spec(c: char) -> Seq<u8> {
    let cp = c as int;
    if cp < 0x80 {
        seq![cp as u8]
    } else if cp < 0x800 {
        seq![(0xC0 + cp / 0x40) as u8, (0x80 + cp % 0x40) as u8]
    } else if cp < 0x10000 {
        seq![
            (0xE0 + cp / 0x1000) as u8,
            (0x80 + (cp / 0x40) % 0x40) as u8,
            (0x80 + cp % 0x40) as u8,
        ]
    } else {
        seq![
            (0xF0 + cp / 0x40000) as u8,
            (0x80 + (cp / 0x1000) % 0x40) as u8,
            (0x80 + (cp / 0x40) % 0x40) as u8,
            (0x80 + cp % 0x40) as u8,
        ]
    }
}

/// The decoding of an escaped `%output` payload: `\\`, `\r`, `\n` and
/// `\t` become the bytes they name; `\0` followed by up to two octal
/// digits becomes that byte (nothing when no digit follows); any other
/// escaped character is passed through behind its backslash; everything
/// else is passed through as its UTF-8 bytes. Decoding is a function of
/// the input alone: identical payloads decode identically.
pub open spec fn decode_spec(s: Seq<char>) -> Seq<u8>
    decreases s.len(),
{
    if s.len() == 0 {
        Seq::empty()
    } else if s[0] != '\\' {
        char_utf8_spec(s[0]) + decode_spec(s.skip(1))
    } else if s.len() == 1 {
        seq![0x5Cu8]
    } else {
        let e = s[1];
        if e == '\\' {
            seq![0x5Cu8] + decode_spec(s.skip(2))
        } else if e == 'r' {
            seq![0x0Du8] + decode_spec(s.skip(2))
        } else if e == 'n' {
            seq![0x0Au8] + decode_spec(s.skip(2))
        } else if e == 't' {
            seq![0x09u8] + decode_spec(s.skip(2))
        } else if e == '0' {
            if s.len() > 3 && is_octal(s[2]) && is_octal(s[3]) {
                seq![(octal_val(s[2]) * 8 + octal_val(s[3])) as u8] + decode_spec(s.skip(4))
            } else if s.len() > 2 && is_octal(s[2]) {
                seq![octal_val(s[2]) as u8] + decode_spec(s.skip(3))
            } else {
                decode_spec(s.skip(2))
            }
        } else {
            seq![0x5Cu8] + char_utf8_spec(e) + decode_spec(s.skip(2))
        }
    }
}

/// Append the UTF-8 encoding of `c`.
fn push_char_utf8(out: &mut Vec<u8>, c: char)
    ensures
        final(out)@ == old(out)@ + char_utf8_spec(c),
{
    proof {
        vstd::utf8::char_is_scalar(c);
    }
    let cp = c as u32;
    if cp < 0x80 {
        out.push(cp as u8);
    } else if cp < 0x800 {
        out.push((0xC0 + cp / 0x40) as u8);
        out.push((0x80 + cp % 0x40) as u8);
    } else if cp < 0x10000 {
        out.push((0xE0 + cp / 0x1000) as u8);
        out.push((0x80 + (cp / 0x40) % 0x40) as u8);
        out.push((0x80 + cp % 0x40) as u8);
    } else {
        out.push((0xF0 + cp / 0x40000) as u8);
        out.push((0x80 + (cp / 0x1000) % 0x40) as u8);
        out.push((0x80 + (cp / 0x40) % 0x40) as u8);
        out.push((0x80 + cp % 0x40) as u8);
    }
    proof {
        assert(out@ =~= old(out)@ + char_utf8_spec(c));
    }
}

/// Decode an escaped `%output` payload (see [`decode_spec`]).
pub fn decode_output(encoded: &str) -> (r: Vec<u8>)
    ensures
        r@ == decode_spec(encoded@),
{
    let len = encoded.unicode_len();
    let mut out: Vec<u8> = Vec::new();
    let mut i: usize = 0;
    proof {
        assert(encoded@.skip(0) =~= encoded@);
    }
    while i < len
        invariant
            len == encoded@.len(),
            i <= len,
            decode_spec(encoded@) == out@ + decode_spec(encoded@.skip(i as int)),
        decreases len - i,
    {
        let ghost i0 = i as int;
        let ghost s = encoded@;
        proof {
            assert(s.skip(i0)[0] == s[i0]);
            assert(s.skip(i0).skip(1) =~= s.skip(i0 + 1));
            if i0 + 2 <= s.len() {
                assert(s.skip(i0).skip(2) =~= s.skip(i0 + 2));
            }
            if i0 + 3 <= s.len() {
                assert(s.skip(i0).skip(3) =~= s.skip(i0 + 3));
            }
            if i0 + 4 <= s.len() {
                assert(s.skip(i0).skip(4) =~= s.skip(i0 + 4));
            }
        }
        let c = encoded.get_char(i);
        if c != '\\' {
            push_char_utf8(&mut out, c);
            i = i + 1;
        } else if len - i == 1 {
            out.push(0x5C);
            i = i + 1;
            proof {
                assert(s.skip(i0) =~= seq!['\\']);
                assert(decode_spec(s.skip(i as int)) =~= Seq::<u8>::empty());
            }
        } else {
            proof {
                assert(s.skip(i0)[1] == s[i0 + 1]);
            }
            let e = encoded.get_char(i + 1);
            if e == '\\' {
                out.push(0x5C);
                i = i + 2;
            } else if e == 'r' {
                out.push(0x0D);
                i = i + 2;
            } else if e == 'n' {
                out.push(0x0A);
                i = i + 2;
            } else if e == 't' {
                out.push(0x09);
                i = i + 2;
            } else if e == '0' {
                proof {
                    if len - i > 2 {
                        assert(s.skip(i0)[2] == s[i0 + 2]);
                    }
                    if len - i > 3 {
                        assert(s.skip(i0)[3] == s[i0 + 3]);
                    }
                }
                let d1 = if len - i > 2 {
                    let c2 = encoded.get_char(i + 2);
                    if '0' <= c2 && c2 <= '7' {
                        Some((c2 as u32 - 48) as u8)
                    } else {
                        None
                    }
                } else {
                    None
                };
                let d2 = if len - i > 3 {
                    let c3 = encoded.get_char(i + 3);
                    if '0' <= c3 && c3 <= '7' {
                        Some((c3 as u32 - 48) as u8)
                    } else {
                        None
                    }
                } else {
                    None
                };
                match (d1, d2) {
                    (Some(a), Some(b)) => {
                        out.push(a * 8 + b);
                        i = i + 4;
                    },
                    (Some(a), None) => {
                        out.push(a);
                        i = i + 3;
                    },
                    _ => {
                        i = i + 2;
                    },
                }
            } else {
                out.push(0x5C);
                push_char_utf8(&mut out, e);
                i = i + 2;
            }
        }
    }
    proof {
        assert(encoded@.skip(len as int) =~= Seq::<char>::empty());
        assert(out@ =~= decode_spec(encoded@));
    }
    out
}

/// The start of the token after the one starting at `start`.
pub open spec fn next_start(line: Seq<char>, start: int) -> int {
    first_at(line, start, ' ') + 1
}

/// The token starting at `start`: everything up to the next space.
pub open spec fn token_at(line: Seq<char>, start: int) -> Seq<char> {
    line.subrange(start, first_at(line, start, ' '))
}

/// The rest of the line from `start`.
pub open spec fn rest_at(line: Seq<char>, start: int) -> Seq<char> {
    line.subrange(start, line.len() as int)
}

/// Whether a token starts at `start` (the previous one did not reach the
/// end of the line).
pub open spec fn has_token(line: Seq<char>, start: int) -> bool {
    start <= line.len()
}

/// The command id carried in the third token, or 0 where it is missing or
/// not a number.
pub open spec fn id_spec(line: Seq<char>) -> u64 {
    let s2 = next_start(line, 0);
    let s3 = next_start(line, s2);
    if s3 <= line.len() {
        match parse_u64_spec(token_at(line, s3)) {
            Some(v) => v,
            None => 0,
        }
    } else {
        0
    }
}

/// What parsing a line yields: `Some` of the notification's model, or
/// `None` where a recognised notification type misses a required field
/// (parsing then fails with [`ProtocolError::InvalidFormat`]).
pub open spec fn parse_ok_spec(line: Seq<char>) -> Option<NotificationModel> {
    if line.len() == 0 || line[0] != '%' {
        Some(NotificationModel::Data(line))
    } else {
        let t0 = token_at(line, 0);
        let s2 = next_start(line, 0);
        let has2 = s2 <= line.len();
        let t1 = token_at(line, s2);
        let s3 = next_start(line, s2);
        let has3 = has2 && s3 <= line.len();
        let t2 = token_at(line, s3);
        let s4 = next_start(line, s3);
        let has4 = has3 && s4 <= line.len();
        if t0 == "%begin"@ {
            Some(NotificationModel::Begin { id: id_spec(line) })
        } else if t0 == "%end"@ {
            Some(NotificationModel::End { id: id_spec(line) })
        } else if t0 == "%error"@ {
            Some(NotificationModel::Error { id: id_spec(line) })
        } else if t0 == "%output"@ {
            if has2 {
                Some(
                    NotificationModel::Output {
                        pane_id: t1,
                        data: if has3 {
                            decode_spec(rest_at(line, s3))
                        } else {
                            Seq::empty()
                        },
                    },
                )
            } else {
                None
            }
        } else if t0 == "%window-add"@ {
            if has2 {
                Some(NotificationModel::WindowAdd { window_id: t1 })
            } else {
                None
            }
        } else if t0 == "%window-close"@ {
            if has2 {
                Some(NotificationModel::WindowClose { window_id: t1 })
            } else {
                None
            }
        } else if t0 == "%window-renamed"@ {
            if has2 {
                Some(
                    NotificationModel::WindowRenamed {
                        window_id: t1,
                        name: if has3 {
                            rest_at(line, s3)
                        } else {
                            Seq::empty()
                        },
                    },
                )
            } else {
                None
            }
        } else if t0 == "%session-changed"@ {
            if has2 {
                Some(
                    NotificationModel::SessionChanged {
                        session_id: t1,
                        name: if has3 {
                            rest_at(line, s3)
                        } else {
                            Seq::empty()
                        },
                    },
                )
            } else {
                None
            }
        } else if t0 == "%layout-change"@ {
            if has2 {
                Some(
                    NotificationModel::LayoutChange {
                        window_id: t1,
                        layout: if has3 {
                            rest_at(line, s3)
                        } else {
                            Seq::empty()
                        },
                    },
                )
            } else {
                None
            }
        } else if t0 == "%pane-mode-changed"@ {
            if has2 {
                Some(NotificationModel::PaneModeChanged { pane_id: t1 })
            } else {
                None
            }
        } else if t0 == "%sessions-changed"@ {
            Some(NotificationModel::SessionsChanged)
        } else if t0 == "%client-session-changed"@ {
            Some(
                NotificationModel::ClientSessionChanged {
                    client: if has2 {
                        t1
                    } else {
                        Seq::empty()
                    },
                    session_id: if has3 {
                        t2
                    } else {
                        Seq::empty()
                    },
                    name: if has4 {
                        rest_at(line, s4)
                    } else {
                        Seq::empty()
                    },
                },
            )
        } else if t0 == "%window-pane-changed"@ {
            Some(
                NotificationModel::WindowPaneChanged {
                    window_id: if has2 {
                        t1
                    } else {
                        Seq::empty()
                    },
                    pane_id: if has3 {
                        t2
                    } else {
                        Seq::empty()
                    },
                },
            )
        } else if t0 == "%unlinked-window-add"@ {
            Some(
                NotificationModel::UnlinkedWindowAdd {
                    window_id: if has2 {
                        t1
                    } else {
                        Seq::empty()
                    },
                },
            )
        } else if t0 == "%client-detached"@ {
            Some(
                NotificationModel::ClientDetached {
                    client: if has2 {
                        t1
                    } else {
                        Seq::empty()
                    },
                    reason: if has3 {
                        Some(rest_at(line, s3))
                    } else {
                        None
                    },
                },
            )
        } else if t0 == "%exit"@ {
            Some(
                NotificationModel::Exit {
                    reason: if has2 {
                        Some(rest_at(line, s2))
                    } else {
                        None
                    },
                },
            )
        } else {
            Some(NotificationModel::Unknown { notification_type: t0, raw: line })
        }
    }
}

impl Notification {
    /// Parse one line of server output (see [`parse_ok_spec`]): a line
    /// not starting with `%` is response data; a recognised notification
    /// missing a required field is an `InvalidFormat` error; an
    /// unrecognised `%` type is preserved as `Unknown`.
    pub fn parse(line: &str) -> (r: Result<Notification, ProtocolError>)
        ensures
            match r {
                Ok(n) => parse_ok_spec(line@) == Some(n@),
                Err(e) => parse_ok_spec(line@) is None && e is InvalidFormat,
            },
    {
        let len = line.unicode_len();
        if len == 0 || line.get_char(0) != '%' {
            return Ok(Notification::Data(line.to_owned()));
        }
        proof {
            crate::strutil::lemma_first_at(line@, 0, ' ');
        }
        let i1 = find_char(line, 0, ' ');
        let t0 = line.substring_char(0, i1);
        let has2 = i1 < len;
        let s2 = if has2 {
            i1 + 1
        } else {
            len
        };

        if str_eq(t0, "%begin") {
            Ok(Notification::Begin { id: Self::parse_id(line) })
        } else if str_eq(t0, "%end") {
            Ok(Notification::End { id: Self::parse_id(line) })
        } else if str_eq(t0, "%error") {
            Ok(Notification::Error { id: Self::parse_id(line) })
        } else if str_eq(t0, "%output") {
            if !has2 {
                return Err(ProtocolError::InvalidFormat(String::from_str("missing pane_id")));
            }
            proof {
                crate::strutil::lemma_first_at(line@, s2 as int, ' ');
            }
            let i2 = find_char(line, s2, ' ');
            let pane = line.substring_char(s2, i2);
            let data = if i2 < len {
                let rest = line.substring_char(i2 + 1, len);
                decode_output(rest)
            } else {
                Vec::new()
            };
            Ok(Notification::Output { pane_id: pane.to_owned(), data })
        } else if str_eq(t0, "%window-add") {
            match Self::second_token(line, i1) {
                Some(t1) => Ok(Notification::WindowAdd { window_id: t1 }),
                None => Err(ProtocolError::InvalidFormat(String::from_str("missing window_id"))),
            }
        } else if str_eq(t0, "%window-close") {
            match Self::second_token(line, i1) {
                Some(t1) => Ok(Notification::WindowClose { window_id: t1 }),
                None => Err(ProtocolError::InvalidFormat(String::from_str("missing window_id"))),
            }
        } else if str_eq(t0, "%window-renamed") {
            match Self::second_token(line, i1) {
                Some(t1) => Ok(
                    Notification::WindowRenamed {
                        window_id: t1,
                        name: Self::rest_after_token(line, i1),
                    },
                ),
                None => Err(ProtocolError::InvalidFormat(String::from_str("missing window_id"))),
            }
        } else if str_eq(t0, "%session-changed") {
            match Self::second_token(line, i1) {
                Some(t1) => Ok(
                    Notification::SessionChanged {
                        session_id: t1,
                        name: Self::rest_after_token(line, i1),
                    },
                ),
                None => Err(ProtocolError::InvalidFormat(String::from_str("missing session_id"))),
            }
        } else if str_eq(t0, "%layout-change") {
            match Self::second_token(line, i1) {
                Some(t1) => Ok(
                    Notification::LayoutChange {
                        window_id: t1,
                        layout: Self::rest_after_token(line, i1),
                    },
                ),
                None => Err(ProtocolError::InvalidFormat(String::from_str("missing window_id"))),
            }
        } else if str_eq(t0, "%pane-mode-changed") {
            match Self::second_token(line, i1) {
                Some(t1) => Ok(Notification::PaneModeChanged { pane_id: t1 }),
                None => Err(ProtocolError::InvalidFormat(String::from_str("missing pane_id"))),
            }
        } else if str_eq(t0, "%sessions-changed") {
            Ok(Notification::SessionsChanged)
        } else if str_eq(t0, "%client-session-changed") {
            let client = Self::second_token_or_empty(line, i1);
            let (session_id, name) = if has2 {
                proof {
                    crate::strutil::lemma_first_at(line@, s2 as int, ' ');
                }
                let i2 = find_char(line, s2, ' ');
                if i2 < len {
                    let s3 = i2 + 1;
                    proof {
                        crate::strutil::lemma_first_at(line@, s3 as int, ' ');
                    }
                    let i3 = find_char(line, s3, ' ');
                    let sid = line.substring_char(s3, i3).to_owned();
                    let nm = if i3 < len {
                        line.substring_char(i3 + 1, len).to_owned()
                    } else {
                        String::new()
                    };
                    (sid, nm)
                } else {
                    (String::new(), String::new())
                }
            } else {
                (String::new(), String::new())
            };
            Ok(Notification::ClientSessionChanged { client, session_id, name })
        } else if str_eq(t0, "%window-pane-changed") {
            let window_id = Self::second_token_or_empty(line, i1);
            let pane_id = if has2 {
                proof {
                    crate::strutil::lemma_first_at(line@, s2 as int, ' ');
                }
                let i2 = find_char(line, s2, ' ');
                if i2 < len {
                    let s3 = i2 + 1;
                    proof {
                        crate::strutil::lemma_first_at(line@, s3 as int, ' ');
                    }
                    let i3 = find_char(line, s3, ' ');
                    line.substring_char(s3, i3).to_owned()
                } else {
                    String::new()
                }
            } else {
                String::new()
            };
            Ok(Notification::WindowPaneChanged { window_id, pane_id })
        } else if str_eq(t0, "%unlinked-window-add") {
            Ok(Notification::UnlinkedWindowAdd { window_id: Self::second_token_or_empty(line, i1) })
        } else if str_eq(t0, "%client-detached") {
            let client = Self::second_token_or_empty(line, i1);
            let reason = if has2 {
                proof {
                    crate::strutil::lemma_first_at(line@, s2 as int, ' ');
                }
                let i2 = find_char(line, s2, ' ');
                if i2 < len {
                    Some(line.substring_char(i2 + 1, len).to_owned())
                } else {
                    None
                }
            } else {
                None
            };
            Ok(Notification::ClientDetached { client, reason })
        } else if str_eq(t0, "%exit") {
            let reason = if has2 {
                Some(line.substring_char(s2, len).to_owned())
            } else {
                None
            };
            Ok(Notification::Exit { reason })
        } else {
            Ok(
                Notification::Unknown {
                    notification_type: t0.to_owned(),
                    raw: line.to_owned(),
                },
            )
        }
    }

    /// The command id in the third token, or 0 (see [`id_spec`]).
    fn parse_id(line: &str) -> (r: u64)
        ensures
            r == id_spec(line@),
    {
        let len = line.unicode_len();
        proof {
            crate::strutil::lemma_first_at(line@, 0, ' ');
        }
        let i1 = find_char(line, 0, ' ');
        if i1 >= len {
            return 0;
        }
        let s2 = i1 + 1;
        proof {
            crate::strutil::lemma_first_at(line@, s2 as int, ' ');
        }
        let i2 = find_char(line, s2, ' ');
        if i2 >= len {
            return 0;
        }
        let s3 = i2 + 1;
        proof {
            crate::strutil::lemma_first_at(line@, s3 as int, ' ');
        }
        let i3 = find_char(line, s3, ' ');
        let t2 = line.substring_char(s3, i3);
        match parse_u64(t2) {
            Some(v) => v,
            None => 0,
        }
    }

    /// The second token, where one exists.
    fn second_token(line: &str, i1: usize) -> (r: Option<String>)
        requires
            i1 as int == first_at(line@, 0, ' '),
        ensures
            ({
                let s2 = next_start(line@, 0);
                &&& has_token(line@, s2) ==> (r matches Some(t) && t@ == token_at(line@, s2))
                &&& !has_token(line@, s2) ==> r is None
            }),
    {
        let len = line.unicode_len();
        proof {
            crate::strutil::lemma_first_at(line@, 0, ' ');
        }
        if i1 >= len {
            return None;
        }
        let s2 = i1 + 1;
        proof {
            crate::strutil::lemma_first_at(line@, s2 as int, ' ');
        }
        let i2 = find_char(line, s2, ' ');
        Some(line.substring_char(s2, i2).to_owned())
    }

    /// The second token, or the empty string where none exists.
    fn second_token_or_empty(line: &str, i1: usize) -> (r: String)
        requires
            i1 as int == first_at(line@, 0, ' '),
        ensures
            ({
                let s2 = next_start(line@, 0);
                &&& has_token(line@, s2) ==> r@ == token_at(line@, s2)
                &&& !has_token(line@, s2) ==> r@ == Seq::<char>::empty()
            }),
    {
        match Self::second_token(line, i1) {
            Some(t) => t,
            None => String::new(),
        }
    }

    /// The rest of the line after the second token, or the empty string.
    fn rest_after_token(line: &str, i1: usize) -> (r: String)
        requires
            i1 as int == first_at(line@, 0, ' '),
            (i1 as int) < line@.len(),
        ensures
            ({
                let s3 = next_start(line@, next_start(line@, 0));
                &&& s3 <= line@.len() ==> r@ == rest_at(line@, s3)
                &&& s3 > line@.len() ==> r@ == Seq::<char>::empty()
            }),
    {
        let len = line.unicode_len();
        let s2 = i1 + 1;
        proof {
            crate::strutil::lemma_first_at(line@, s2 as int, ' ');
        }
        let i2 = find_char(line, s2, ' ');
        if i2 < len {
            line.substring_char(i2 + 1, len).to_owned()
        } else {
            String::new()
        }
    }
}

} // verus!
