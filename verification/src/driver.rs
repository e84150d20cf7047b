//! The control-mode driver's logic: command-id allocation, line framing,
//! and the assembly of command responses out of the notification stream.
//!
//! The I/O around it — spawning the server, reading its stdout, writing
//! its stdin — lives outside the library; what is here is the decision
//! core that turns each parsed [`Notification`] into at most one
//! [`TmuxEvent`] while collecting response data between `%begin` and its
//! terminator.

use vstd::prelude::*;

use crate::protocol::{Notification, NotificationModel};
use crate::strutil::push_char;

verus! {

/// A fault of the connection; the I/O layer raises most of them.
#[derive(Debug, Clone)]
pub enum ConnectionError {
    /// The server process could not be spawned; carries the OS error text.
    SpawnFailed(String),
    /// The spawned server exposed no stdin.
    NoStdin,
    /// The spawned server exposed no stdout.
    NoStdout,
    /// A notification line could not be parsed.
    Protocol(crate::protocol::ProtocolError),
    /// The server's stdout reached end of file.
    Closed,
    /// The server reported an error of its own.
    TmuxError(String),
}

/// An event delivered to the consumer of the driver.
#[derive(Debug, Clone)]
pub enum TmuxEvent {
    /// Bytes written by a pane.
    Output { pane_id: String, data: Vec<u8> },
    /// A window appeared.
    WindowAdd { window_id: String },
    /// A window went away.
    WindowClose { window_id: String },
    /// A window changed its name.
    WindowRenamed { window_id: String, name: String },
    /// A command's collected response.
    CommandResponse { id: u64, data: String },
    /// A command failed; the collected lines are its message.
    CommandError { id: u64, message: String },
    /// The client was moved to another session.
    SessionChanged { session_id: String, name: String },
    /// The server is going away.
    Exit { reason: Option<String> },
}

/// The model of a [`TmuxEvent`].
#[verifier::ext_equal]
pub ghost enum TmuxEventModel {
    Output { pane_id: Seq<char>, data: Seq<u8> },
    WindowAdd { window_id: Seq<char> },
    WindowClose { window_id: Seq<char> },
    WindowRenamed { window_id: Seq<char>, name: Seq<char> },
    CommandResponse { id: u64, data: Seq<char> },
    CommandError { id: u64, message: Seq<char> },
    SessionChanged { session_id: Seq<char>, name: Seq<char> },
    Exit { reason: Option<Seq<char>> },
}

impl View for TmuxEvent {
    type V = TmuxEventModel;

    open spec fn view(&self) -> TmuxEventModel {
        match self {
            TmuxEvent::Output { pane_id, data } => TmuxEventModel::Output {
                pane_id: pane_id@,
                data: data@,
            },
            TmuxEvent::WindowAdd { window_id } => TmuxEventModel::WindowAdd {
                window_id: window_id@,
            },
            TmuxEvent::WindowClose { window_id } => TmuxEventModel::WindowClose {
                window_id: window_id@,
            },
            TmuxEvent::WindowRenamed { window_id, name } => TmuxEventModel::WindowRenamed {
                window_id: window_id@,
                name: name@,
            },
            TmuxEvent::CommandResponse { id, data } => TmuxEventModel::CommandResponse {
                id: *id,
                data: data@,
            },
            TmuxEvent::CommandError { id, message } => TmuxEventModel::CommandError {
                id: *id,
                message: message@,
            },
            TmuxEvent::SessionChanged { session_id, name } => TmuxEventModel::SessionChanged {
                session_id: session_id@,
                name: name@,
            },
            TmuxEvent::Exit { reason } => TmuxEventModel::Exit {
                reason: match reason {
                    Some(t) => Some(t@),
                    None => None,
                },
            },
        }
    }
}

/// The view of an optional event.
pub open spec fn opt_event_view(r: Option<TmuxEvent>) -> Option<TmuxEventModel> {
    match r {
        Some(e) => Some(e@),
        None => None,
    }
}

/// The model of the driver's collector state.
#[verifier::ext_equal]
pub ghost struct DriverModel {
    /// The last command id handed out; ids start at 1.
    pub command_id: u64,
    /// The response lines collected since the last `%begin`.
    pub buffer: Seq<Seq<char>>,
    /// The command id a response is being collected for, if any.
    pub collecting: Option<u64>,
}

/// Lines joined with a newline between each pair.
pub open spec fn join_lines(lines: Seq<Seq<char>>) -> Seq<char>
    decreases lines.len(),
{
    if lines.len() == 0 {
        Seq::empty()
    } else if lines.len() == 1 {
        lines[0]
    } else {
        join_lines(lines.drop_last()) + seq!['\n'] + lines.last()
    }
}

/// One collector step (see [`Driver::handle_notification`]): what the
/// driver's state becomes and which event, if any, reaches the consumer.
pub open spec fn handle_spec(m: DriverModel, n: NotificationModel) -> (
    DriverModel,
    Option<TmuxEventModel>,
) {
    match n {
        NotificationModel::Begin { id } => (
            DriverModel { collecting: Some(id), buffer: Seq::empty(), ..m },
            None,
        ),
        NotificationModel::End { id } => {
            if m.collecting == Some(id) {
                (
                    DriverModel { collecting: None, buffer: Seq::empty(), ..m },
                    Some(TmuxEventModel::CommandResponse { id, data: join_lines(m.buffer) }),
                )
            } else {
                (m, None)
            }
        },
        NotificationModel::Error { id } => (
            DriverModel { collecting: None, buffer: Seq::empty(), ..m },
            Some(TmuxEventModel::CommandError { id, message: join_lines(m.buffer) }),
        ),
        NotificationModel::Data(s) => {
            if m.collecting is Some {
                (DriverModel { buffer: m.buffer.push(s), ..m }, None)
            } else {
                (m, None)
            }
        },
        NotificationModel::Output { pane_id, data } => (
            m,
            Some(TmuxEventModel::Output { pane_id, data }),
        ),
        NotificationModel::WindowAdd { window_id } => (
            m,
            Some(TmuxEventModel::WindowAdd { window_id }),
        ),
        NotificationModel::WindowClose { window_id } => (
            m,
            Some(TmuxEventModel::WindowClose { window_id }),
        ),
        NotificationModel::WindowRenamed { window_id, name } => (
            m,
            Some(TmuxEventModel::WindowRenamed { window_id, name }),
        ),
        NotificationModel::SessionChanged { session_id, name } => (
            m,
            Some(TmuxEventModel::SessionChanged { session_id, name }),
        ),
        NotificationModel::Exit { reason } => (m, Some(TmuxEventModel::Exit { reason })),
        _ => (m, None),
    }
}

/// The collector run over a whole notification sequence: the final state
/// and the events delivered, in order.
pub open spec fn run_spec(m: DriverModel, ns: Seq<NotificationModel>) -> (
    DriverModel,
    Seq<TmuxEventModel>,
)
    decreases ns.len(),
{
    if ns.len() == 0 {
        (m, Seq::empty())
    } else {
        let (m1, ev) = handle_spec(m, ns[0]);
        let (m2, evs) = run_spec(m1, ns.skip(1));
        match ev {
            Some(e) => (m2, seq![e] + evs),
            None => (m2, evs),
        }
    }
}

/// The verified core of the control-mode driver.
pub struct Driver {
    command_id: u64,
    response_buffer: Vec<String>,
    collecting_for: Option<u64>,
}

impl View for Driver {
    type V = DriverModel;

    closed spec fn view(&self) -> DriverModel {
        DriverModel {
            command_id: self.command_id,
            buffer: Seq::new(
                self.response_buffer@.len() as nat,
                |i: int| self.response_buffer@[i]@,
            ),
            collecting: self.collecting_for,
        }
    }
}

impl Driver {
    /// A fresh driver: no command issued yet, nothing being collected.
    pub fn new() -> (r: Driver)
        ensures
            r@ == (DriverModel { command_id: 0, buffer: Seq::empty(), collecting: None }),
    {
        let d = Driver { command_id: 0, response_buffer: Vec::new(), collecting_for: None };
        proof {
            assert(d@ =~~= (DriverModel {
                command_id: 0,
                buffer: Seq::empty(),
                collecting: None,
            }));
        }
        d
    }

    /// Allocate the next command id: ids are handed out in strictly
    /// increasing order, starting at 1.
    pub fn next_command_id(&mut self) -> (r: u64)
        requires
            old(self)@.command_id < u64::MAX,
        ensures
            r == old(self)@.command_id + 1,
            final(self)@ == (DriverModel { command_id: r, ..old(self)@ }),
    {
        self.command_id = self.command_id + 1;
        proof {
            assert(self@ =~~= (DriverModel { command_id: self.command_id, ..old(self)@ }));
        }
        self.command_id
    }

    /// The last command id handed out (0 before the first).
    pub fn last_command_id(&self) -> (r: u64)
        ensures
            r == self@.command_id,
    {
        self.command_id
    }

    /// Frame a command for the wire: the text with a newline appended.
    pub fn command_line(cmd: &str) -> (r: String)
        ensures
            r@ == cmd@ + seq!['\n'],
    {
        let mut s = cmd.to_owned();
        push_char(&mut s, '\n');
        s
    }

    /// One step of response assembly (see [`handle_spec`]): `%begin`
    /// opens collection, data lines are buffered while it is open, the
    /// matching `%end` or any `%error` closes it and yields the joined
    /// lines; pane output and window, session and exit notifications pass
    /// through untouched — arriving between `%begin` and its terminator
    /// they are delivered at once, before the response; everything else
    /// is informational and yields nothing.
    pub fn handle_notification(&mut self, n: Notification) -> (r: Option<TmuxEvent>)
        ensures
            final(self)@ == handle_spec(old(self)@, n@).0,
            opt_event_view(r) == handle_spec(old(self)@, n@).1,
    {
        match n {
            Notification::Begin { id } => {
                self.collecting_for = Some(id);
                self.response_buffer = Vec::new();
                proof {
                    assert(self@ =~~= handle_spec(old(self)@, n@).0);
                }
                None
            },
            Notification::End { id } => {
                let matches_open = match self.collecting_for {
                    Some(c) => c == id,
                    None => false,
                };
                if matches_open {
                    let data = self.join_buffer();
                    self.collecting_for = None;
                    self.response_buffer = Vec::new();
                    proof {
                        assert(self@ =~~= handle_spec(old(self)@, n@).0);
                    }
                    Some(TmuxEvent::CommandResponse { id, data })
                } else {
                    None
                }
            },
            Notification::Error { id } => {
                let message = self.join_buffer();
                self.collecting_for = None;
                self.response_buffer = Vec::new();
                proof {
                    assert(self@ =~~= handle_spec(old(self)@, n@).0);
                }
                Some(TmuxEvent::CommandError { id, message })
            },
            Notification::Data(s) => {
                if self.collecting_for.is_some() {
                    self.response_buffer.push(s);
                    proof {
                        assert(self@ =~~= handle_spec(old(self)@, n@).0);
                    }
                }
                None
            },
            Notification::Output { pane_id, data } => Some(TmuxEvent::Output { pane_id, data }),
            Notification::WindowAdd { window_id } => Some(TmuxEvent::WindowAdd { window_id }),
            Notification::WindowClose { window_id } => Some(TmuxEvent::WindowClose { window_id }),
            Notification::WindowRenamed { window_id, name } => Some(
                TmuxEvent::WindowRenamed { window_id, name },
            ),
            Notification::SessionChanged { session_id, name } => Some(
                TmuxEvent::SessionChanged { session_id, name },
            ),
            Notification::Exit { reason } => Some(TmuxEvent::Exit { reason }),
            _ => None,
        }
    }

    /// The buffered response lines joined with newlines.
    fn join_buffer(&self) -> (r: String)
        ensures
            r@ == join_lines(self@.buffer),
    {
        let mut acc = String::new();
        let len = self.response_buffer.len();
        let mut i: usize = 0;
        while i < len
            invariant
                len == self@.buffer.len(),
                i <= len,
                acc@ == join_lines(self@.buffer.take(i as int)),
            decreases len - i,
        {
            if i > 0 {
                push_char(&mut acc, '\n');
            }
            acc.append(self.response_buffer[i].as_str());
            i = i + 1;
            proof {
                assert(self@.buffer.take(i as int).drop_last() =~= self@.buffer.take(i as int - 1));
                assert(acc@ =~= join_lines(self@.buffer.take(i as int)));
            }
        }
        proof {
            assert(self@.buffer.take(len as int) =~= self@.buffer);
        }
        acc
    }
}

/// Whether a notification can interleave with a command response: all but
/// `%begin`, `%end` and `%error`.
pub open spec fn interleavable(n: NotificationModel) -> bool {
    !(n is Begin || n is End || n is Error)
}

/// Whether an event terminates a command lifecycle.
pub open spec fn is_terminator(e: TmuxEventModel) -> bool {
    e is CommandResponse || e is CommandError
}

/// The events an interleavable notification sequence delivers on its own:
/// they do not depend on the collector's state.
pub open spec fn passthrough_events(ns: Seq<NotificationModel>) -> Seq<TmuxEventModel>
    decreases ns.len(),
{
    if ns.len() == 0 {
        Seq::empty()
    } else {
        let rest = passthrough_events(ns.skip(1));
        match ns[0] {
            NotificationModel::Output { pane_id, data } => seq![
                TmuxEventModel::Output { pane_id, data },
            ] + rest,
            NotificationModel::WindowAdd { window_id } => seq![
                TmuxEventModel::WindowAdd { window_id },
            ] + rest,
            NotificationModel::WindowClose { window_id } => seq![
                TmuxEventModel::WindowClose { window_id },
            ] + rest,
            NotificationModel::WindowRenamed { window_id, name } => seq![
                TmuxEventModel::WindowRenamed { window_id, name },
            ] + rest,
            NotificationModel::SessionChanged { session_id, name } => seq![
                TmuxEventModel::SessionChanged { session_id, name },
            ] + rest,
            NotificationModel::Exit { reason } => seq![TmuxEventModel::Exit { reason }] + rest,
            _ => rest,
        }
    }
}

/// None of the passthrough events is a terminator.
proof fn lemma_passthrough_no_terminator(ns: Seq<NotificationModel>)
    ensures
        forall|i: int|
            0 <= i < passthrough_events(ns).len() ==> !is_terminator(
                #[trigger] passthrough_events(ns)[i],
            ),
    decreases ns.len(),
{
    if ns.len() > 0 {
        lemma_passthrough_no_terminator(ns.skip(1));
        let rest = passthrough_events(ns.skip(1));
        let all = passthrough_events(ns);
        assert forall|i: int| 0 <= i < all.len() implies !is_terminator(all[i]) by {
            if all.len() == rest.len() + 1 {
                if i > 0 {
                    assert(all[i] == rest[i - 1]);
                }
            } else {
                assert(all[i] == rest[i]);
            }
        }
    }
}

/// From a collecting state, a run of interleavable notifications closed
/// by the matching `%end` delivers exactly the passthrough events, in
/// arrival order, followed by the one `CommandResponse`.
proof fn lemma_run_collecting(m: DriverModel, id: u64, middle: Seq<NotificationModel>)
    requires
        m.collecting == Some(id),
        forall|i: int| 0 <= i < middle.len() ==> interleavable(#[trigger] middle[i]),
    ensures
        ({
            let (m1, evs) = run_spec(m, middle + seq![NotificationModel::End { id }]);
            &&& evs.len() == passthrough_events(middle).len() + 1
            &&& evs.drop_last() == passthrough_events(middle)
            &&& (evs.last() matches TmuxEventModel::CommandResponse { id: eid, .. } && eid == id)
        }),
    decreases middle.len(),
{
    let ns = middle + seq![NotificationModel::End { id }];
    if middle.len() == 0 {
        assert(ns =~= seq![NotificationModel::End { id }]);
        assert(ns[0] == NotificationModel::End { id });
        let (ma, ev) = handle_spec(m, ns[0]);
        assert(ev == Some(
            TmuxEventModel::CommandResponse { id, data: join_lines(m.buffer) },
        ));
        assert(ns.skip(1) =~= Seq::<NotificationModel>::empty());
        assert(run_spec(ma, ns.skip(1)).1 =~= Seq::<TmuxEventModel>::empty());
        let (m1, evs) = run_spec(m, ns);
        assert(evs =~= seq![
            TmuxEventModel::CommandResponse { id, data: join_lines(m.buffer) },
        ]);
        assert(evs.drop_last() =~= passthrough_events(middle));
    } else {
        let n0 = middle[0];
        assert(interleavable(n0));
        let (ma, ev) = handle_spec(m, n0);
        assert(ma.collecting == Some(id));
        assert(ns.skip(1) =~= middle.skip(1) + seq![NotificationModel::End { id }]);
        lemma_run_collecting(ma, id, middle.skip(1));
        let (m1, evs_rest) = run_spec(ma, ns.skip(1));
        let (m1b, evs) = run_spec(m, ns);
        match ev {
            Some(e) => {
                assert(evs =~= seq![e] + evs_rest);
                assert(passthrough_events(middle) =~= seq![e] + passthrough_events(
                    middle.skip(1),
                ));
                assert(evs.drop_last() =~= passthrough_events(middle));
            },
            None => {
                assert(evs == evs_rest);
                assert(passthrough_events(middle) =~= passthrough_events(middle.skip(1)));
                assert(evs.drop_last() =~= passthrough_events(middle));
            },
        }
    }
}

/// The law of the command lifecycle: after a `%begin`, any interleavable
/// notifications, and the matching `%end`, the consumer sees exactly the
/// interleaved events first — none of them a terminator — and then
/// exactly one terminator, the `CommandResponse` for that command.
pub proof fn lemma_command_lifecycle(m: DriverModel, id: u64, middle: Seq<NotificationModel>)
    requires
        forall|i: int| 0 <= i < middle.len() ==> interleavable(#[trigger] middle[i]),
    ensures
        ({
            let ns = seq![NotificationModel::Begin { id }] + middle + seq![
                NotificationModel::End { id },
            ];
            let (m1, evs) = run_spec(m, ns);
            &&& evs.len() == passthrough_events(middle).len() + 1
            &&& evs.drop_last() == passthrough_events(middle)
            &&& forall|i: int| 0 <= i < evs.len() - 1 ==> !is_terminator(#[trigger] evs[i])
            &&& (evs.last() matches TmuxEventModel::CommandResponse { id: eid, .. } && eid == id)
        }),
{
    let ns = seq![NotificationModel::Begin { id }] + middle + seq![NotificationModel::End { id }];
    let (ma, ev0) = handle_spec(m, NotificationModel::Begin { id });
    assert(ns[0] == NotificationModel::Begin { id });
    assert(ns.skip(1) =~= middle + seq![NotificationModel::End { id }]);
    lemma_run_collecting(ma, id, middle);
    lemma_passthrough_no_terminator(middle);
    let (m1, evs) = run_spec(m, ns);
    let (m2, evs_rest) = run_spec(ma, ns.skip(1));
    assert(evs == evs_rest);
    assert forall|i: int| 0 <= i < evs.len() - 1 implies !is_terminator(#[trigger] evs[i]) by {
        assert(evs[i] == evs.drop_last()[i]);
        assert(evs.drop_last()[i] == passthrough_events(middle)[i]);
    }
}

/// Command ids only grow: the collector never touches the counter, and
/// each allocation raises it, so an id handed out after any amount of
/// notification handling is strictly greater than every id handed out
/// before.
pub proof fn lemma_command_ids_strictly_increase(m: DriverModel, ns: Seq<NotificationModel>)
    ensures
        run_spec(m, ns).0.command_id == m.command_id,
    decreases ns.len(),
{
    if ns.len() > 0 {
        let (m1, ev) = handle_spec(m, ns[0]);
        assert(m1.command_id == m.command_id);
        lemma_command_ids_strictly_increase(m1, ns.skip(1));
    }
}

} // verus!
