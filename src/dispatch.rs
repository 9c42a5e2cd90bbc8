//! The event dispatcher: turns a session's events into changes of the
//! conversation model.
use vstd::prelude::*;
use crate::client::{Event, EventView};
use crate::protocol::{CmdView, MsgTarget, MsgView, Prefix, PrefixView, ServCmd, TargetView};
use crate::text::{join_words, views};
use crate::ui::{miss_text, model_wf, routed, tab_index, target_tab, with_line, ModelView, TabView, UI};

verus! {

/// Where an event's text goes: to the tab of a target, or to the
/// diagnostic tab.
pub enum Delivery {
    Route(TargetView, Seq<char>),
    Diag(Seq<char>),
}

/// The diagnostic line for traffic that has no handling rule.
pub open spec fn unhandled_text(serv: Seq<char>, words: Seq<Seq<char>>) -> Seq<char> {
    "["@ + serv + "] unhandled command "@ + join_words(words)
}

/// `nick (user@host)`.
pub open spec fn who_text(nick: Seq<char>, user: Seq<char>, host: Seq<char>) -> Seq<char> {
    nick + " ("@ + user + "@"@ + host + ")"@
}

/// What a decoded message shows, and where.
pub open spec fn msg_delivery(serv: Seq<char>, m: MsgView) -> Delivery {
    let here = TargetView::Serv(serv);
    match m.command {
        CmdView::PrivMsg { target, msg } => match m.prefix {
            Some(PrefixView::User { nick, .. }) => Delivery::Route(
                target,
                "<"@ + nick + "> "@ + msg,
            ),
            Some(PrefixView::Server(s)) => Delivery::Route(here, "["@ + s + "] "@ + msg),
            None => Delivery::Diag("["@ + serv + "] PRIVMSG with no prefix: "@ + msg),
        },
        CmdView::Join { chan } => match m.prefix {
            Some(PrefixView::User { nick, user, host }) => Delivery::Route(
                TargetView::Chan(chan),
                who_text(nick, user, host) + " joined "@ + chan,
            ),
            _ => Delivery::Diag(unhandled_text(serv, seq!["JOIN"@, chan])),
        },
        CmdView::Part { chan, msg } => match m.prefix {
            Some(PrefixView::User { nick, user, host }) => Delivery::Route(
                TargetView::Chan(chan),
                if msg.len() == 0 {
                    who_text(nick, user, host) + " left "@ + chan
                } else {
                    who_text(nick, user, host) + " left "@ + chan + " ("@ + msg + ")"@
                },
            ),
            _ => Delivery::Diag(unhandled_text(serv, seq!["PART"@, chan, msg])),
        },
        CmdView::Nick { nick } => match m.prefix {
            Some(PrefixView::User { nick: old_nick, .. }) => Delivery::Route(
                here,
                old_nick + " is now known as "@ + nick,
            ),
            _ => Delivery::Diag(unhandled_text(serv, seq!["NICK"@, nick])),
        },
        CmdView::Quit { msg } => Delivery::Diag(unhandled_text(serv, seq!["QUIT"@, msg])),
        CmdView::RplMyInfo { version, umodes, cmodes, cmodes_param } => Delivery::Route(
            here,
            join_words(seq![version, umodes, cmodes, cmodes_param]),
        ),
        CmdView::NameReply { sym, chan, nicks } => Delivery::Route(
            here,
            seq![sym] + " "@ + chan + " "@ + join_words(nicks),
        ),
        CmdView::Unknown(code) => Delivery::Diag(unhandled_text(serv, seq![code] + m.params)),
        CmdView::Notice { msg }
        | CmdView::Error { msg }
        | CmdView::RplWelcome { msg }
        | CmdView::RplYourHost { msg }
        | CmdView::RplCreated { msg }
        | CmdView::RplISupport { msg }
        | CmdView::RplLuserClient { msg }
        | CmdView::RplLuserOp { msg }
        | CmdView::RplLuserUnknown { msg }
        | CmdView::RplLuserChannels { msg }
        | CmdView::RplLuserMe { msg }
        | CmdView::RplLocalUsers { msg }
        | CmdView::RplGlobalUsers { msg }
        | CmdView::EndOfNames { msg }
        | CmdView::MOTDStart { msg }
        | CmdView::MOTD { msg }
        | CmdView::MOTDEnd { msg }
        | CmdView::DisplayedHost { msg } => Delivery::Route(here, msg),
    }
}

/// What an event of the session named `serv` shows, and where.
pub open spec fn delivery(serv: Seq<char>, ev: EventView) -> Delivery {
    match ev {
        EventView::Disconnected => Delivery::Diag(serv + ": TcpStream disconnected"@),
        EventView::Msg(m) => msg_delivery(serv, m),
    }
}

/// The model after dispatching an event of the session named `serv`.
pub open spec fn dispatched(m: ModelView, serv: Seq<char>, ev: EventView) -> ModelView {
    match delivery(serv, ev) {
        Delivery::Route(t, line) => routed(m, serv, t, line),
        Delivery::Diag(line) => with_line(m, 0, line),
    }
}

/// `nick (user@host)` as a string.
fn who_string(nick: &String, user: &String, host: &String) -> (r: String)
    ensures
        r@ == who_text(nick@, user@, host@),
{
    let mut r = nick.clone();
    r.append(" (");
    r.append(user.as_str());
    r.append("@");
    r.append(host.as_str());
    r.append(")");
    r
}

/// The words joined by single spaces.
fn join_strings(ws: &Vec<String>) -> (r: String)
    ensures
        r@ == join_words(views(ws@)),
{
    let ghost all = views(ws@);
    let mut r = String::new();
    let mut k: usize = 0;
    while k < ws.len()
        invariant
            k <= ws.len(),
            all == views(ws@),
            r@ == join_words(all.subrange(0, k as int)),
        decreases ws.len() - k,
    {
        assert(all.subrange(0, k + 1).drop_last() =~= all.subrange(0, k as int));
        if k > 0 {
            r.push(' ');
        }
        r.append(ws[k].as_str());
        k = k + 1;
        assert(r@ =~= join_words(all.subrange(0, k as int)));
    }
    assert(all.subrange(0, k as int) =~= all);
    r
}

/// The diagnostic line for traffic that has no handling rule.
fn unhandled_string(serv: &str, words: &Vec<String>) -> (r: String)
    ensures
        r@ == unhandled_text(serv@, views(words@)),
{
    let mut r = String::from_str("[");
    r.append(serv);
    r.append("] unhandled command ");
    let j = join_strings(words);
    r.append(j.as_str());
    r
}

/// Two words as a vector.
fn two(a: &str, b: &String) -> (r: Vec<String>)
    ensures
        views(r@) == seq![a@, b@],
{
    let mut r: Vec<String> = Vec::new();
    r.push(String::from_str(a));
    r.push(b.clone());
    assert(views(r@) =~= seq![a@, b@]);
    r
}

/// What an event shows, and where: a target, or none for the diagnostic tab.
fn delivery_of(serv: &str, ev: Event) -> (r: (Option<MsgTarget>, String))
    ensures
        match delivery(serv@, ev@) {
            Delivery::Route(t, line) => r.0 is Some && r.0->0@ == t && r.1@ == line,
            Delivery::Diag(line) => r.0 is None && r.1@ == line,
        },
{
    let ghost evv = ev@;
    let mut m = match ev {
        Event::Disconnected => {
            let mut line = String::from_str(serv);
            line.append(": TcpStream disconnected");
            return (None, line);
        },
        Event::Msg { msg } => msg,
    };
    let here = MsgTarget::Serv(String::from_str(serv));
    let ghost mv = m@;
    assert(delivery(serv@, evv) == msg_delivery(serv@, mv));
    match m.command {
        ServCmd::PrivMsg { target, msg } => match m.prefix {
            Some(Prefix::User { nick, .. }) => {
                let mut line = String::from_str("<");
                line.append(nick.as_str());
                line.append("> ");
                line.append(msg.as_str());
                return (Some(target), line);
            },
            Some(Prefix::Server(s)) => {
                let mut line = String::from_str("[");
                line.append(s.as_str());
                line.append("] ");
                line.append(msg.as_str());
                return (Some(here), line);
            },
            None => {
                let mut line = String::from_str("[");
                line.append(serv);
                line.append("] PRIVMSG with no prefix: ");
                line.append(msg.as_str());
                return (None, line);
            },
        },
        ServCmd::Join { chan } => match m.prefix {
            Some(Prefix::User { nick, user, host }) => {
                let mut line = who_string(&nick, &user, &host);
                line.append(" joined ");
                line.append(chan.as_str());
                return (Some(MsgTarget::Chan(chan)), line);
            },
            _ => {
                return (None, unhandled_string(serv, &two("JOIN", &chan)));
            },
        },
        ServCmd::Part { chan, msg } => match m.prefix {
            Some(Prefix::User { nick, user, host }) => {
                let mut line = who_string(&nick, &user, &host);
                line.append(" left ");
                line.append(chan.as_str());
                if msg.as_str().unicode_len() > 0 {
                    line.append(" (");
                    line.append(msg.as_str());
                    line.append(")");
                }
                return (Some(MsgTarget::Chan(chan)), line);
            },
            _ => {
                let mut words = two("PART", &chan);
                let ghost w = views(words@);
                let ghost text = msg@;
                words.push(msg);
                assert(views(words@) =~= w.push(text));
                assert(views(words@) =~= seq!["PART"@, chan@, text]);
                let line = unhandled_string(serv, &words);
                assert(msg_delivery(serv@, mv) == Delivery::Diag(line@));
                return (None, line);
            },
        },
        ServCmd::Nick { nick } => match m.prefix {
            Some(Prefix::User { nick: old_nick, .. }) => {
                let mut line = old_nick.clone();
                line.append(" is now known as ");
                line.append(nick.as_str());
                return (Some(here), line);
            },
            _ => {
                return (None, unhandled_string(serv, &two("NICK", &nick)));
            },
        },
        ServCmd::Quit { msg } => {
            return (None, unhandled_string(serv, &two("QUIT", &msg)));
        },
        ServCmd::RplMyInfo { version, umodes, cmodes, cmodes_param } => {
            let ghost want = seq![version@, umodes@, cmodes@, cmodes_param@];
            let mut words: Vec<String> = Vec::new();
            words.push(version);
            words.push(umodes);
            words.push(cmodes);
            words.push(cmodes_param);
            let line = join_strings(&words);
            assert(views(words@) =~= want);
            return (Some(here), line);
        },
        ServCmd::NameReply { sym, chan, nicks } => {
            let mut line = String::new();
            line.push(sym);
            line.append(" ");
            line.append(chan.as_str());
            line.append(" ");
            let j = join_strings(&nicks);
            line.append(j.as_str());
            assert(line@ =~= seq![sym] + " "@ + chan@ + " "@ + join_words(views(nicks@)));
            return (Some(here), line);
        },
        ServCmd::Unknown(code) => {
            let mut words: Vec<String> = Vec::new();
            words.push(code);
            words.append(&mut m.params);
            assert(views(words@) =~= seq![code@] + mv.params);
            return (None, unhandled_string(serv, &words));
        },
        ServCmd::Notice { msg }
        | ServCmd::Error { msg }
        | ServCmd::RplWelcome { msg }
        | ServCmd::RplYourHost { msg }
        | ServCmd::RplCreated { msg }
        | ServCmd::RplISupport { msg }
        | ServCmd::RplLuserClient { msg }
        | ServCmd::RplLuserOp { msg }
        | ServCmd::RplLuserUnknown { msg }
        | ServCmd::RplLuserChannels { msg }
        | ServCmd::RplLuserMe { msg }
        | ServCmd::RplLocalUsers { msg }
        | ServCmd::RplGlobalUsers { msg }
        | ServCmd::EndOfNames { msg }
        | ServCmd::MOTDStart { msg }
        | ServCmd::MOTD { msg }
        | ServCmd::MOTDEnd { msg }
        | ServCmd::DisplayedHost { msg } => {
            return (Some(here), msg);
        },
    }
}


/// Applies one event of the session named `serv_name` to the model; false
/// once the session has reported its end.
pub fn handle_event(ui: &mut UI, serv_name: &str, ev: Event) -> (keep_going: bool)
    requires
        old(ui).wf(),
    ensures
        final(ui).wf(),
        final(ui)@ == dispatched(old(ui)@, serv_name@, ev@),
        keep_going == !(ev@ is Disconnected),
{
    let ghost evv = ev@;
    let keep_going = !matches!(ev, Event::Disconnected);
    let (target, line) = delivery_of(serv_name, ev);
    match target {
        Some(t) => ui.add_msg(serv_name, t, line.as_str()),
        None => ui.dbg(line.as_str()),
    }
    keep_going
}

/// Surfaces a raw line of a session's debug stream.
pub fn handle_debug_line(ui: &mut UI, line: &str)
    requires
        old(ui).wf(),
    ensures
        final(ui).wf(),
        final(ui)@ == with_line(old(ui)@, 0, line@),
{
    ui.dbg(line);
}

/// An event whose tab does not exist changes no tab but the diagnostic one,
/// and adds exactly one line there.
pub proof fn lemma_routing_miss(m: ModelView, serv: Seq<char>, ev: EventView)
    requires
        model_wf(m),
        delivery(serv, ev) is Route,
        tab_index(m.tabs, target_tab(serv, delivery(serv, ev)->Route_0)) == -1,
    ensures
        dispatched(m, serv, ev).cur_tab == m.cur_tab,
        dispatched(m, serv, ev).tabs.len() == m.tabs.len(),
        forall|i: int| 1 <= i < m.tabs.len() ==> #[trigger] dispatched(m, serv, ev).tabs[i] == m.tabs[i],
        dispatched(m, serv, ev).tabs[0] == (TabView {
            lines: m.tabs[0].lines.push(
                miss_text(serv, delivery(serv, ev)->Route_0, delivery(serv, ev)->Route_1),
            ),
            ..m.tabs[0]
        }),
{
}

} // verus!
