//! Server connection parameters, events, and the handle through which the
//! user's commands reach a running session.
use vstd::prelude::*;
use tokio::sync::mpsc::Sender;
use crate::protocol::{encode, encoding, ClientCmd, ClientCmdView, MsgView, ServMsg};
use crate::text::same_text;

verus! {

/// tokio's bounded `mpsc::Sender`, carried through as an opaque value.
#[verifier::external_type_specification]
#[verifier::external_body]
#[verifier::reject_recursive_types(T)]
pub struct ExSender<T>(Sender<T>);

/// What a session reports to its consumer.
#[derive(Debug)]
pub enum Event {
    Msg { msg: ServMsg },
    Disconnected,
}

pub enum EventView {
    Msg(MsgView),
    Disconnected,
}

impl View for Event {
    type V = EventView;

    open spec fn view(&self) -> EventView {
        match self {
            Event::Msg { msg } => EventView::Msg(msg@),
            Event::Disconnected => EventView::Disconnected,
        }
    }
}

/// Connection parameters of one session, fixed when it is created.
#[derive(Debug)]
pub struct ServInfo {
    pub addr: String,
    pub port: u16,
    pub nick: String,
    pub user: String,
    pub realname: String,
}

impl ServInfo {
    /// The name that identifies the session: the server's address.
    pub fn name(&self) -> (r: &str)
        ensures
            r@ == self.addr@,
    {
        self.addr.as_str()
    }
}

/// Why a command could not be queued for its session.
#[derive(Debug, PartialEq, Eq, Clone, Copy)]
pub enum QueueError {
    /// The queue is at capacity.
    Full,
    /// The session has ended.
    Closed,
}

/// Relies on tokio's `Sender::try_send`, which queues the line when the
/// channel is open and has room and fails otherwise; which of these holds
/// depends on the channel's state, so nothing is promised of the outcome.
#[verifier::external_body]
fn try_send_line(tx: &Sender<String>, line: String) -> (r: Result<(), QueueError>) {
    match tx.try_send(line) {
        Ok(()) => Ok(()),
        Err(tokio::sync::mpsc::error::TrySendError::Full(_)) => Err(QueueError::Full),
        Err(tokio::sync::mpsc::error::TrySendError::Closed(_)) => Err(QueueError::Closed),
    }
}

/// The user's handle on a running session.
pub struct Client {
    /// The session's name: the server address.
    pub name: String,
    /// The nick that this client last asked for.
    pub cur_nick: String,
    cmd_tx: Sender<String>,
    /// The lines queued so far, oldest first.
    queued: Ghost<Seq<Seq<char>>>,
}

pub struct ClientView {
    pub name: Seq<char>,
    pub cur_nick: Seq<char>,
    /// The lines queued so far, oldest first.
    pub sent: Seq<Seq<char>>,
}

impl View for Client {
    type V = ClientView;

    closed spec fn view(&self) -> ClientView {
        ClientView { name: self.name@, cur_nick: self.cur_nick@, sent: self.queued@ }
    }
}

impl Client {
    /// A handle that queues its commands on `cmd_tx`.
    pub fn new(serv_info: &ServInfo, cmd_tx: Sender<String>) -> (r: Client)
        ensures
            r@.name == serv_info.addr@,
            r@.cur_nick == serv_info.nick@,
            r@.sent == Seq::<Seq<char>>::empty(),
    {
        Client {
            name: serv_info.addr.clone(),
            cur_nick: serv_info.nick.clone(),
            cmd_tx,
            queued: Ghost(Seq::empty()),
        }
    }

    /// The session's name: the server address.
    pub fn name(&self) -> (r: &str)
        ensures
            r@ == self@.name,
    {
        self.name.as_str()
    }

    /// The nick that this client last asked for.
    pub fn cur_nick(&self) -> (r: &str)
        ensures
            r@ == self@.cur_nick,
    {
        self.cur_nick.as_str()
    }

    /// Queues the wire form of `cmd`; on success it joins the sent lines.
    fn send(&mut self, cmd: ClientCmd) -> (r: Result<(), QueueError>)
        ensures
            final(self)@.name == old(self)@.name,
            final(self)@.cur_nick == old(self)@.cur_nick,
            r is Ok ==> final(self)@.sent == old(self)@.sent.push(encoding(cmd@)),
            r is Err ==> final(self)@.sent == old(self)@.sent,
    {
        let line = encode(&cmd);
        let r = try_send_line(&self.cmd_tx, line);
        if r.is_ok() {
            self.queued = Ghost(self.queued@.push(encoding(cmd@)));
        }
        r
    }

    pub fn quit(&mut self, msg: &str) -> (r: Result<(), QueueError>)
        ensures
            final(self)@.name == old(self)@.name,
            final(self)@.cur_nick == old(self)@.cur_nick,
            r is Ok ==> final(self)@.sent == old(self)@.sent.push(
                encoding(ClientCmdView::Quit(msg@)),
            ),
            r is Err ==> final(self)@.sent == old(self)@.sent,
    {
        self.send(ClientCmd::Quit(String::from_str(msg)))
    }

    pub fn join(&mut self, chan: &str) -> (r: Result<(), QueueError>)
        ensures
            final(self)@.name == old(self)@.name,
            final(self)@.cur_nick == old(self)@.cur_nick,
            r is Ok ==> final(self)@.sent == old(self)@.sent.push(
                encoding(ClientCmdView::Join(chan@)),
            ),
            r is Err ==> final(self)@.sent == old(self)@.sent,
    {
        self.send(ClientCmd::Join(String::from_str(chan)))
    }

    /// Asks for a new nick and records it as the current one at once,
    /// whatever the queue said.
    pub fn nick(&mut self, nick: &str) -> (r: Result<(), QueueError>)
        ensures
            final(self)@.name == old(self)@.name,
            final(self)@.cur_nick == nick@,
            r is Ok ==> final(self)@.sent == old(self)@.sent.push(
                encoding(ClientCmdView::Nick(nick@)),
            ),
            r is Err ==> final(self)@.sent == old(self)@.sent,
    {
        let r = self.send(ClientCmd::Nick(String::from_str(nick)));
        self.cur_nick = String::from_str(nick);
        r
    }

    pub fn privmsg(&mut self, target: &str, msg: &str) -> (r: Result<(), QueueError>)
        ensures
            final(self)@.name == old(self)@.name,
            final(self)@.cur_nick == old(self)@.cur_nick,
            r is Ok ==> final(self)@.sent == old(self)@.sent.push(
                encoding(ClientCmdView::PrivMsg { target: target@, msg: msg@ }),
            ),
            r is Err ==> final(self)@.sent == old(self)@.sent,
    {
        self.send(
            ClientCmd::PrivMsg { target: String::from_str(target), msg: String::from_str(msg) },
        )
    }
}

/// The index of the first client at or after `k` with the given name, or -1.
pub open spec fn client_index_from(cs: Seq<ClientView>, name: Seq<char>, k: int) -> int
    decreases cs.len() - k,
{
    if 0 <= k < cs.len() {
        if cs[k].name == name {
            k
        } else {
            client_index_from(cs, name, k + 1)
        }
    } else {
        -1
    }
}

/// The views of the clients.
pub open spec fn client_views(cs: Seq<Client>) -> Seq<ClientView> {
    cs.map_values(|c: Client| c@)
}

/// The index of the first client with the given name.
pub fn find_client(clients: &Vec<Client>, name: &str) -> (r: Option<usize>)
    ensures
        client_index_from(client_views(clients@), name@, 0) == -1 ==> r is None,
        client_index_from(client_views(clients@), name@, 0) != -1 ==> r is Some && r->0 as int
            == client_index_from(client_views(clients@), name@, 0) && r->0 < clients@.len(),
{
    let ghost cs = client_views(clients@);
    let mut k: usize = 0;
    while k < clients.len()
        invariant
            k <= clients.len(),
            cs == client_views(clients@),
            client_index_from(cs, name@, k as int) == client_index_from(cs, name@, 0),
        decreases clients.len() - k,
    {
        if same_text(clients[k].name(), name) {
            return Some(k);
        }
        k = k + 1;
    }
    None
}


/// Drops the handle of the session named `name`, if there is one.
pub fn forget_client(clients: &mut Vec<Client>, name: &str)
    ensures
        client_index_from(client_views(old(clients)@), name@, 0) == -1 ==> final(clients)@
            == old(clients)@,
        client_index_from(client_views(old(clients)@), name@, 0) != -1 ==> final(clients)@
            == old(clients)@.remove(client_index_from(client_views(old(clients)@), name@, 0)),
{
    if let Some(k) = find_client(clients, name) {
        clients.remove(k);
    }
}

} // verus!
