//! The decisions of a connection session: what to write, surface and report
//! for each thing that happens on the transport or the command queue.  The
//! caller performs the actions and feeds back what happened.
use vstd::prelude::*;
use crate::client::{Event, EventView, ServInfo};
use crate::protocol::{decode, encode, encoding, parse_msg, ClientCmd, ClientCmdView};
use crate::text::{chars_of, string_of, views};

verus! {

/// Something that happened to a session.
#[derive(Debug)]
pub enum SessionInput {
    /// A line arrived from the server, its terminator removed.
    Line(String),
    /// The server closed the stream.
    EndOfStream,
    /// Reading from or writing to the transport failed.
    TransportError,
    /// The user's handle queued a raw command line.
    Command(String),
}

/// Something the caller must do for a session.
#[derive(Debug)]
pub enum SessionAction {
    /// Write these bytes to the transport.
    Write(String),
    /// Surface a raw inbound line on the debug stream.
    Debug(String),
    /// Hand an event to the consumer.
    Deliver(Event),
}

pub enum InputView {
    Line(Seq<char>),
    EndOfStream,
    TransportError,
    Command(Seq<char>),
}

pub enum ActionView {
    Write(Seq<char>),
    Debug(Seq<char>),
    Deliver(EventView),
}

impl View for SessionInput {
    type V = InputView;

    open spec fn view(&self) -> InputView {
        match self {
            SessionInput::Line(l) => InputView::Line(l@),
            SessionInput::EndOfStream => InputView::EndOfStream,
            SessionInput::TransportError => InputView::TransportError,
            SessionInput::Command(c) => InputView::Command(c@),
        }
    }
}

impl View for SessionAction {
    type V = ActionView;

    open spec fn view(&self) -> ActionView {
        match self {
            SessionAction::Write(s) => ActionView::Write(s@),
            SessionAction::Debug(s) => ActionView::Debug(s@),
            SessionAction::Deliver(e) => ActionView::Deliver(e@),
        }
    }
}

/// The views of a list of actions.
pub open spec fn action_views(v: Seq<SessionAction>) -> Seq<ActionView> {
    v.map_values(|a: SessionAction| a@)
}

/// Whether a line is a keepalive probe.
pub open spec fn is_ping(l: Seq<char>) -> bool {
    l.len() >= 4 && l.subrange(0, 4) == "PING"@
}

/// The token that a keepalive reply echoes: all that follows `PING `.
pub open spec fn ping_token(l: Seq<char>) -> Seq<char> {
    if l.len() >= 5 {
        l.subrange(5, l.len() as int)
    } else {
        seq![]
    }
}

/// One step of a session: whether it is closed afterwards, and the actions.
/// A closed session does nothing.  A probe is answered at once and shown raw
/// without being decoded; any other line is shown raw, then decoded and
/// delivered; the end of the stream or a transport failure delivers one
/// `Disconnected` and closes the session; a queued command is written as is.
pub open spec fn session_step(closed: bool, input: InputView) -> (bool, Seq<ActionView>) {
    if closed {
        (true, seq![])
    } else {
        match input {
            InputView::Line(l) => if is_ping(l) {
                (
                    false,
                    seq![
                        ActionView::Write(encoding(ClientCmdView::Pong(ping_token(l)))),
                        ActionView::Debug(l),
                    ],
                )
            } else {
                (
                    false,
                    seq![ActionView::Debug(l), ActionView::Deliver(EventView::Msg(decode(l)))],
                )
            },
            InputView::EndOfStream => (true, seq![ActionView::Deliver(EventView::Disconnected)]),
            InputView::TransportError => (
                true,
                seq![ActionView::Deliver(EventView::Disconnected)],
            ),
            InputView::Command(c) => (false, seq![ActionView::Write(c)]),
        }
    }
}

/// The actions of a run of inputs, from the given state.
pub open spec fn session_run(closed: bool, inputs: Seq<InputView>) -> Seq<ActionView>
    decreases inputs.len(),
{
    if inputs.len() == 0 {
        seq![]
    } else {
        let (next, acts) = session_step(closed, inputs[0]);
        acts + session_run(next, inputs.drop_first())
    }
}

/// The lines a session writes first, in order: its nick, then its user.
pub open spec fn handshake_lines(info_nick: Seq<char>, user: Seq<char>, realname: Seq<char>) -> Seq<
    Seq<char>,
> {
    seq![
        encoding(ClientCmdView::Nick(info_nick)),
        encoding(ClientCmdView::User { user, realname }),
    ]
}

/// The state of one connection session.
pub struct Session {
    closed: bool,
}

impl Session {
    /// Whether the session has ended.
    pub closed spec fn is_closed_spec(&self) -> bool {
        self.closed
    }

    /// An active session; the caller writes the `handshake` lines first.
    pub fn new() -> (r: Session)
        ensures
            !r.is_closed_spec(),
    {
        Session { closed: false }
    }

    /// Whether the session has ended.
    pub fn is_closed(&self) -> (r: bool)
        ensures
            r == self.is_closed_spec(),
    {
        self.closed
    }

    /// The lines to write when the connection is up.
    pub fn handshake(info: &ServInfo) -> (r: Vec<String>)
        ensures
            views(r@) == handshake_lines(info.nick@, info.user@, info.realname@),
    {
        let mut r: Vec<String> = Vec::new();
        r.push(encode(&ClientCmd::Nick(info.nick.clone())));
        r.push(
            encode(&ClientCmd::User { user: info.user.clone(), realname: info.realname.clone() }),
        );
        assert(views(r@) =~= handshake_lines(info.nick@, info.user@, info.realname@));
        r
    }

    /// Takes one input; see `session_step`.
    pub fn step(&mut self, input: SessionInput) -> (r: Vec<SessionAction>)
        ensures
            (final(self).is_closed_spec(), action_views(r@)) == session_step(
                old(self).is_closed_spec(),
                input@,
            ),
    {
        let mut r: Vec<SessionAction> = Vec::new();
        if self.closed {
            assert(action_views(r@) =~= seq![]);
            return r;
        }
        match input {
            SessionInput::Line(l) => {
                let v = chars_of(l.as_str());
                let n = v.len();
                let ping = n >= 4 && v[0] == 'P' && v[1] == 'I' && v[2] == 'N' && v[3] == 'G';
                proof {
                    reveal_strlit("PING");
                    let w = "PING"@;
                    assert(w.len() == 4 && w[0] == 'P' && w[1] == 'I' && w[2] == 'N' && w[3] == 'G');
                    if n >= 4 {
                        if ping {
                            assert(v@.subrange(0, 4) =~= w);
                        } else {
                            assert(v@.subrange(0, 4) != w) by {
                                if v@.subrange(0, 4) == w {
                                    assert(v@.subrange(0, 4)[0] == v@[0]);
                                }
                            }
                        }
                    }
                }
                if ping {
                    let token = if n >= 5 {
                        string_of(&v, 5, n)
                    } else {
                        String::new()
                    };
                    r.push(SessionAction::Write(encode(&ClientCmd::Pong(token))));
                    r.push(SessionAction::Debug(l));
                } else {
                    let msg = parse_msg(l.as_str());
                    r.push(SessionAction::Debug(l));
                    r.push(SessionAction::Deliver(Event::Msg { msg }));
                }
            },
            SessionInput::EndOfStream | SessionInput::TransportError => {
                self.closed = true;
                r.push(SessionAction::Deliver(Event::Disconnected));
            },
            SessionInput::Command(c) => {
                r.push(SessionAction::Write(c));
            },
        }
        assert(action_views(r@) =~= session_step(false, input@).1);
        r
    }
}

/// Once the stream ends, a session delivers exactly one `Disconnected`, and
/// from then on it writes nothing and delivers nothing, whatever happens.
pub proof fn lemma_end_of_stream(rest: Seq<InputView>)
    ensures
        session_step(false, InputView::EndOfStream) == (
            true,
            seq![ActionView::Deliver(EventView::Disconnected)],
        ),
        session_run(false, seq![InputView::EndOfStream] + rest) == seq![
            ActionView::Deliver(EventView::Disconnected),
        ],
        session_run(true, rest) == Seq::<ActionView>::empty(),
    decreases rest.len(),
{
    lemma_closed_run(rest);
    assert((seq![InputView::EndOfStream] + rest).drop_first() =~= rest);
    assert(seq![ActionView::Deliver(EventView::Disconnected)] + Seq::<ActionView>::empty()
        =~= seq![ActionView::Deliver(EventView::Disconnected)]);
}

proof fn lemma_closed_run(rest: Seq<InputView>)
    ensures
        session_run(true, rest) == Seq::<ActionView>::empty(),
    decreases rest.len(),
{
    if rest.len() > 0 {
        lemma_closed_run(rest.drop_first());
        assert(Seq::<ActionView>::empty() + Seq::<ActionView>::empty() =~= Seq::<ActionView>::empty());
    }
}

} // verus!
