//! The wire codec: raw protocol lines to structured messages, and the
//! client's own commands to raw lines.
use vstd::prelude::*;
use crate::text::{
    chars_of, join_words, lemma_skip_ws, lemma_word_end, same_text, skip_ws, skip_ws_at, string_of,
    views, word_end, word_end_at, words_at, words_from,
};

verus! {

/// A command or numeric reply sent by the server.
#[derive(Debug, PartialEq)]
pub enum ServCmd {
    Join { chan: String },
    PrivMsg { target: MsgTarget, msg: String },
    Part { chan: String, msg: String },
    Notice { msg: String },
    Nick { nick: String },
    Quit { msg: String },
    Error { msg: String },
    /// 001
    RplWelcome { msg: String },
    /// 002
    RplYourHost { msg: String },
    /// 003
    RplCreated { msg: String },
    /// 004
    RplMyInfo { version: String, umodes: String, cmodes: String, cmodes_param: String },
    /// 005
    RplISupport { msg: String },
    /// 251
    RplLuserClient { msg: String },
    /// 252
    RplLuserOp { msg: String },
    /// 253
    RplLuserUnknown { msg: String },
    /// 254
    RplLuserChannels { msg: String },
    /// 255
    RplLuserMe { msg: String },
    /// 265
    RplLocalUsers { msg: String },
    /// 266
    RplGlobalUsers { msg: String },
    /// 353: `<client> <symbol> <channel> :[prefix]<nick>{ [prefix]<nick>}`
    NameReply { sym: char, chan: String, nicks: Vec<String> },
    /// 366
    EndOfNames { msg: String },
    /// 375
    MOTDStart { msg: String },
    /// 372
    MOTD { msg: String },
    /// 376
    MOTDEnd { msg: String },
    /// 396
    DisplayedHost { msg: String },
    /// Any other command code, or a known one that lacks a parameter it needs.
    Unknown(String),
}

/// Where a PRIVMSG or NOTICE is addressed.
#[derive(Debug, PartialEq)]
pub enum MsgTarget {
    Chan(String),
    User(String),
    Serv(String),
}

/// The origin annotation of a line.
#[derive(Debug, PartialEq)]
pub enum Prefix {
    Server(String),
    User { nick: String, user: String, host: String },
}

/// A decoded server line. `params` keeps the raw parameters of an
/// `Unknown` command and is empty otherwise.
#[derive(Debug, PartialEq)]
pub struct ServMsg {
    pub prefix: Option<Prefix>,
    pub command: ServCmd,
    pub params: Vec<String>,
}

pub enum TargetView {
    Chan(Seq<char>),
    User(Seq<char>),
    Serv(Seq<char>),
}

pub enum PrefixView {
    Server(Seq<char>),
    User { nick: Seq<char>, user: Seq<char>, host: Seq<char> },
}

pub enum CmdView {
    Join { chan: Seq<char> },
    PrivMsg { target: TargetView, msg: Seq<char> },
    Part { chan: Seq<char>, msg: Seq<char> },
    Notice { msg: Seq<char> },
    Nick { nick: Seq<char> },
    Quit { msg: Seq<char> },
    Error { msg: Seq<char> },
    RplWelcome { msg: Seq<char> },
    RplYourHost { msg: Seq<char> },
    RplCreated { msg: Seq<char> },
    RplMyInfo {
        version: Seq<char>,
        umodes: Seq<char>,
        cmodes: Seq<char>,
        cmodes_param: Seq<char>,
    },
    RplISupport { msg: Seq<char> },
    RplLuserClient { msg: Seq<char> },
    RplLuserOp { msg: Seq<char> },
    RplLuserUnknown { msg: Seq<char> },
    RplLuserChannels { msg: Seq<char> },
    RplLuserMe { msg: Seq<char> },
    RplLocalUsers { msg: Seq<char> },
    RplGlobalUsers { msg: Seq<char> },
    NameReply { sym: char, chan: Seq<char>, nicks: Seq<Seq<char>> },
    EndOfNames { msg: Seq<char> },
    MOTDStart { msg: Seq<char> },
    MOTD { msg: Seq<char> },
    MOTDEnd { msg: Seq<char> },
    DisplayedHost { msg: Seq<char> },
    Unknown(Seq<char>),
}

pub struct MsgView {
    pub prefix: Option<PrefixView>,
    pub command: CmdView,
    pub params: Seq<Seq<char>>,
}

impl View for MsgTarget {
    type V = TargetView;

    open spec fn view(&self) -> TargetView {
        match self {
            MsgTarget::Chan(s) => TargetView::Chan(s@),
            MsgTarget::User(s) => TargetView::User(s@),
            MsgTarget::Serv(s) => TargetView::Serv(s@),
        }
    }
}

impl View for Prefix {
    type V = PrefixView;

    open spec fn view(&self) -> PrefixView {
        match self {
            Prefix::Server(s) => PrefixView::Server(s@),
            Prefix::User { nick, user, host } => PrefixView::User {
                nick: nick@,
                user: user@,
                host: host@,
            },
        }
    }
}

impl View for ServCmd {
    type V = CmdView;

    open spec fn view(&self) -> CmdView {
        match self {
            ServCmd::Join { chan } => CmdView::Join { chan: chan@ },
            ServCmd::PrivMsg { target, msg } => CmdView::PrivMsg { target: target@, msg: msg@ },
            ServCmd::Part { chan, msg } => CmdView::Part { chan: chan@, msg: msg@ },
            ServCmd::Notice { msg } => CmdView::Notice { msg: msg@ },
            ServCmd::Nick { nick } => CmdView::Nick { nick: nick@ },
            ServCmd::Quit { msg } => CmdView::Quit { msg: msg@ },
            ServCmd::Error { msg } => CmdView::Error { msg: msg@ },
            ServCmd::RplWelcome { msg } => CmdView::RplWelcome { msg: msg@ },
            ServCmd::RplYourHost { msg } => CmdView::RplYourHost { msg: msg@ },
            ServCmd::RplCreated { msg } => CmdView::RplCreated { msg: msg@ },
            ServCmd::RplMyInfo { version, umodes, cmodes, cmodes_param } => CmdView::RplMyInfo {
                version: version@,
                umodes: umodes@,
                cmodes: cmodes@,
                cmodes_param: cmodes_param@,
            },
            ServCmd::RplISupport { msg } => CmdView::RplISupport { msg: msg@ },
            ServCmd::RplLuserClient { msg } => CmdView::RplLuserClient { msg: msg@ },
            ServCmd::RplLuserOp { msg } => CmdView::RplLuserOp { msg: msg@ },
            ServCmd::RplLuserUnknown { msg } => CmdView::RplLuserUnknown { msg: msg@ },
            ServCmd::RplLuserChannels { msg } => CmdView::RplLuserChannels { msg: msg@ },
            ServCmd::RplLuserMe { msg } => CmdView::RplLuserMe { msg: msg@ },
            ServCmd::RplLocalUsers { msg } => CmdView::RplLocalUsers { msg: msg@ },
            ServCmd::RplGlobalUsers { msg } => CmdView::RplGlobalUsers { msg: msg@ },
            ServCmd::NameReply { sym, chan, nicks } => CmdView::NameReply {
                sym: *sym,
                chan: chan@,
                nicks: views(nicks@),
            },
            ServCmd::EndOfNames { msg } => CmdView::EndOfNames { msg: msg@ },
            ServCmd::MOTDStart { msg } => CmdView::MOTDStart { msg: msg@ },
            ServCmd::MOTD { msg } => CmdView::MOTD { msg: msg@ },
            ServCmd::MOTDEnd { msg } => CmdView::MOTDEnd { msg: msg@ },
            ServCmd::DisplayedHost { msg } => CmdView::DisplayedHost { msg: msg@ },
            ServCmd::Unknown(code) => CmdView::Unknown(code@),
        }
    }
}

impl View for ServMsg {
    type V = MsgView;

    open spec fn view(&self) -> MsgView {
        MsgView {
            prefix: match self.prefix {
                Some(p) => Some(p@),
                None => None,
            },
            command: self.command@,
            params: views(self.params@),
        }
    }
}

/// The parameters of a line from index `i` on: whitespace-separated words,
/// except that a word starting with `:` begins the trailing parameter, which
/// runs to the end of the line verbatim, marker included.
pub open spec fn params_from(s: Seq<char>, i: int) -> Seq<Seq<char>>
    decreases s.len() - i,
{
    if 0 <= i <= s.len() {
        let j = skip_ws(s, i);
        if j >= s.len() {
            seq![]
        } else if s[j] == ':' {
            seq![s.subrange(j, s.len() as int)]
        } else {
            let e = word_end(s, j);
            proof {
                lemma_skip_ws(s, i);
                lemma_word_end(s, j);
            }
            seq![s.subrange(j, e)] + params_from(s, e)
        }
    } else {
        seq![]
    }
}

/// A parameter without its leading `:` marker, if it has one.
pub open spec fn unmark(p: Seq<char>) -> Seq<char> {
    if p.len() > 0 && p[0] == ':' {
        p.drop_first()
    } else {
        p
    }
}

/// The first index at or after `i` where `c` occurs (or the length).
pub open spec fn find_char(s: Seq<char>, c: char, i: int) -> int
    decreases s.len() - i,
{
    if 0 <= i < s.len() {
        if s[i] == c {
            i
        } else {
            find_char(s, c, i + 1)
        }
    } else {
        s.len() as int
    }
}

/// `nick!user@host` when a `!` is followed later by an `@`, else a server name.
pub open spec fn prefix_of(p: Seq<char>) -> PrefixView {
    let i = find_char(p, '!', 0);
    let j = find_char(p, '@', i + 1);
    if i < p.len() && j < p.len() {
        PrefixView::User {
            nick: p.subrange(0, i),
            user: p.subrange(i + 1, j),
            host: p.subrange(j + 1, p.len() as int),
        }
    } else {
        PrefixView::Server(p)
    }
}

/// A destination starting with `#` is a channel; any other is a user.
pub open spec fn target_of(p: Seq<char>) -> TargetView {
    if p.len() > 0 && p[0] == '#' {
        TargetView::Chan(p)
    } else {
        TargetView::User(p)
    }
}

/// The text of `ps[1..]` joined by single spaces.
pub open spec fn join_rest(ps: Seq<Seq<char>>) -> Seq<char> {
    join_words(ps.subrange(1, ps.len() as int))
}

/// `a`, a space, then `b` without its marker.
pub open spec fn pair_text(a: Seq<char>, b: Seq<char>) -> Seq<char> {
    a + seq![' '] + unmark(b)
}

/// The command that a code and its parameters decode to, with the
/// parameters that stay raw (those of an unknown command).
pub open spec fn decode_cmd(code: Seq<char>, p: Seq<Seq<char>>) -> (CmdView, Seq<Seq<char>>) {
    let unknown = (CmdView::Unknown(code), p);
    let n = p.len();
    if code == "JOIN"@ {
        if n >= 1 { (CmdView::Join { chan: unmark(p[0]) }, seq![]) } else { unknown }
    } else if code == "PRIVMSG"@ {
        if n >= 2 {
            (CmdView::PrivMsg { target: target_of(p[0]), msg: unmark(p[1]) }, seq![])
        } else {
            unknown
        }
    } else if code == "PART"@ {
        if n == 1 {
            (CmdView::Part { chan: unmark(p[0]), msg: seq![] }, seq![])
        } else if n >= 2 {
            (CmdView::Part { chan: p[0], msg: unmark(p[1]) }, seq![])
        } else {
            unknown
        }
    } else if code == "NOTICE"@ {
        if n >= 2 { (CmdView::Notice { msg: unmark(p[1]) }, seq![]) } else { unknown }
    } else if code == "NICK"@ {
        if n >= 1 { (CmdView::Nick { nick: unmark(p[0]) }, seq![]) } else { unknown }
    } else if code == "QUIT"@ {
        if n >= 1 { (CmdView::Quit { msg: unmark(p[0]) }, seq![]) } else { (CmdView::Quit { msg: seq![] }, seq![]) }
    } else if code == "ERROR"@ {
        if n >= 1 { (CmdView::Error { msg: unmark(p[0]) }, seq![]) } else { unknown }
    } else if code == "001"@ {
        if n >= 2 { (CmdView::RplWelcome { msg: unmark(p[1]) }, seq![]) } else { unknown }
    } else if code == "002"@ {
        if n >= 2 { (CmdView::RplYourHost { msg: unmark(p[1]) }, seq![]) } else { unknown }
    } else if code == "003"@ {
        if n >= 2 { (CmdView::RplCreated { msg: unmark(p[1]) }, seq![]) } else { unknown }
    } else if code == "004"@ {
        if n >= 6 {
            (
                CmdView::RplMyInfo {
                    version: p[2],
                    umodes: p[3],
                    cmodes: p[4],
                    cmodes_param: unmark(p[5]),
                },
                seq![],
            )
        } else {
            unknown
        }
    } else if code == "005"@ {
        if n >= 1 { (CmdView::RplISupport { msg: join_rest(p) }, seq![]) } else { unknown }
    } else if code == "251"@ {
        if n >= 2 { (CmdView::RplLuserClient { msg: unmark(p[1]) }, seq![]) } else { unknown }
    } else if code == "252"@ {
        if n >= 1 { (CmdView::RplLuserOp { msg: join_rest(p) }, seq![]) } else { unknown }
    } else if code == "253"@ {
        if n >= 1 { (CmdView::RplLuserUnknown { msg: join_rest(p) }, seq![]) } else { unknown }
    } else if code == "254"@ {
        if n >= 1 { (CmdView::RplLuserChannels { msg: join_rest(p) }, seq![]) } else { unknown }
    } else if code == "255"@ {
        if n >= 2 { (CmdView::RplLuserMe { msg: unmark(p[1]) }, seq![]) } else { unknown }
    } else if code == "265"@ {
        if n >= 2 { (CmdView::RplLocalUsers { msg: unmark(p[1]) }, seq![]) } else { unknown }
    } else if code == "266"@ {
        if n >= 2 { (CmdView::RplGlobalUsers { msg: unmark(p[1]) }, seq![]) } else { unknown }
    } else if code == "353"@ {
        if n >= 4 && p[1].len() > 0 {
            (
                CmdView::NameReply {
                    sym: p[1][0],
                    chan: p[2],
                    nicks: words_from(unmark(p[3]), 0),
                },
                seq![],
            )
        } else {
            unknown
        }
    } else if code == "366"@ {
        if n >= 3 { (CmdView::EndOfNames { msg: pair_text(p[1], p[2]) }, seq![]) } else { unknown }
    } else if code == "375"@ {
        if n >= 2 { (CmdView::MOTDStart { msg: unmark(p[1]) }, seq![]) } else { unknown }
    } else if code == "372"@ {
        if n >= 2 { (CmdView::MOTD { msg: unmark(p[1]) }, seq![]) } else { unknown }
    } else if code == "376"@ {
        if n >= 2 { (CmdView::MOTDEnd { msg: unmark(p[1]) }, seq![]) } else { unknown }
    } else if code == "396"@ {
        if n >= 3 { (CmdView::DisplayedHost { msg: pair_text(p[1], p[2]) }, seq![]) } else { unknown }
    } else {
        unknown
    }
}

/// What a whole line decodes to: an optional `:`-marked prefix, the command
/// code, then its parameters.  A line with no command code decodes to
/// `Unknown` with an empty code.
pub open spec fn decode(s: Seq<char>) -> MsgView {
    let a = skip_ws(s, 0);
    if a >= s.len() {
        MsgView { prefix: None, command: CmdView::Unknown(seq![]), params: seq![] }
    } else {
        let has_prefix = s[a] == ':';
        let b = if has_prefix { word_end(s, a) } else { a };
        let prefix = if has_prefix { Some(prefix_of(s.subrange(a + 1, b))) } else { None };
        let c = skip_ws(s, b);
        if c >= s.len() {
            MsgView { prefix, command: CmdView::Unknown(seq![]), params: seq![] }
        } else {
            let d = word_end(s, c);
            let (command, params) = decode_cmd(s.subrange(c, d), params_from(s, d));
            MsgView { prefix, command, params }
        }
    }
}


/// The first index at or after `i` where `c` occurs in `v` (or the length).
fn find_at(v: &Vec<char>, c: char, i: usize) -> (r: usize)
    requires
        i <= v.len(),
    ensures
        r == find_char(v@, c, i as int),
        i <= r <= v.len(),
{
    let mut k = i;
    while k < v.len() && v[k] != c
        invariant
            i <= k <= v.len(),
            find_char(v@, c, k as int) == find_char(v@, c, i as int),
        decreases v.len() - k,
    {
        k = k + 1;
    }
    k
}

/// Decodes a prefix token, its `:` marker already removed.
pub fn parse_prefix(prefix: &str) -> (r: Prefix)
    ensures
        r@ == prefix_of(prefix@),
{
    let v = chars_of(prefix);
    let n = v.len();
    let i = find_at(&v, '!', 0);
    if i < n {
        let j = find_at(&v, '@', i + 1);
        if j < n {
            let nick = string_of(&v, 0, i);
            let user = string_of(&v, i + 1, j);
            let host = string_of(&v, j + 1, n);
            return Prefix::User { nick, user, host };
        }
    } else {
        assert(find_char(v@, '@', i + 1) == v@.len());
    }
    let whole = string_of(&v, 0, n);
    assert(whole@ =~= prefix@);
    Prefix::Server(whole)
}

/// The parameters of `v` from index `i` on, as `params_from` describes them.
fn params_at(v: &Vec<char>, i: usize) -> (r: Vec<String>)
    requires
        i <= v.len(),
    ensures
        views(r@) == params_from(v@, i as int),
{
    let mut out: Vec<String> = Vec::new();
    let mut k = i;
    loop
        invariant
            i <= k <= v.len(),
            views(out@) + params_from(v@, k as int) == params_from(v@, i as int),
        decreases v.len() - k,
    {
        let j = skip_ws_at(v, k);
        let ghost before = views(out@);
        if j == v.len() {
            assert(views(out@) =~= views(out@) + params_from(v@, k as int));
            return out;
        }
        if v[j] == ':' {
            let w = string_of(v, j, v.len());
            out.push(w);
            assert(views(out@) =~= before + params_from(v@, k as int));
            return out;
        }
        let e = word_end_at(v, j);
        proof {
            lemma_skip_ws(v@, k as int);
            lemma_word_end(v@, j as int);
        }
        let w = string_of(v, j, e);
        out.push(w);
        assert(views(out@) =~= before.push(w@));
        assert(views(out@) + params_from(v@, e as int) =~= before + (seq![w@] + params_from(
            v@,
            e as int,
        )));
        k = e;
    }
}

/// A copy of a parameter without its leading `:` marker, if it has one.
fn unmarked(p: &String) -> (r: String)
    ensures
        r@ == unmark(p@),
{
    let s = p.as_str();
    let n = s.unicode_len();
    if n > 0 && s.get_char(0) == ':' {
        String::from_str(s.substring_char(1, n))
    } else {
        p.clone()
    }
}

/// `ps[start..]` joined by single spaces.
fn join_from(ps: &Vec<String>, start: usize) -> (r: String)
    requires
        start <= ps.len(),
    ensures
        r@ == join_words(views(ps@).subrange(start as int, ps.len() as int)),
{
    let ghost all = views(ps@);
    let mut r = String::new();
    let mut k = start;
    while k < ps.len()
        invariant
            start <= k <= ps.len(),
            all == views(ps@),
            r@ == join_words(all.subrange(start as int, k as int)),
        decreases ps.len() - k,
    {
        let ghost prev = all.subrange(start as int, k as int);
        let ghost next = all.subrange(start as int, k + 1);
        assert(next.drop_last() =~= prev);
        if k > start {
            r.push(' ');
        }
        r.append(ps[k].as_str());
        k = k + 1;
        assert(r@ =~= join_words(next));
    }
    r
}

/// `a`, a space, then `b` without its marker.
fn pair_string(a: &String, b: &String) -> (r: String)
    ensures
        r@ == pair_text(a@, b@),
{
    let mut r = a.clone();
    r.push(' ');
    let t = unmarked(b);
    r.append(t.as_str());
    r
}


/// A copy of parameter `i` without its leading `:` marker.
fn msg_at(p: &Vec<String>, i: usize) -> (r: String)
    requires
        i < p.len(),
    ensures
        r@ == unmark(p@[i as int]@),
{
    unmarked(&p[i])
}

/// Decodes a command code and its parameters; see `decode_cmd`.
pub fn parse_cmd(cmd: &str, params: Vec<String>) -> (r: (ServCmd, Vec<String>))
    ensures
        (r.0@, views(r.1@)) == decode_cmd(cmd@, views(params@)),
{
    let n = params.len();
    let ghost p = views(params@);
    let none: Vec<String> = Vec::new();
    assert(views(none@) =~= seq![]);
    if same_text(cmd, "JOIN") {
        if n >= 1 {
            return (ServCmd::Join { chan: msg_at(&params, 0) }, none);
        }
    } else if same_text(cmd, "PRIVMSG") {
        if n >= 2 {
            let dest = &params[0];
            let d = dest.as_str();
            let target = if d.unicode_len() > 0 && d.get_char(0) == '#' {
                MsgTarget::Chan(dest.clone())
            } else {
                MsgTarget::User(dest.clone())
            };
            return (ServCmd::PrivMsg { target, msg: msg_at(&params, 1) }, none);
        }
    } else if same_text(cmd, "PART") {
        if n == 1 {
            return (ServCmd::Part { chan: msg_at(&params, 0), msg: String::new() }, none);
        } else if n >= 2 {
            return (ServCmd::Part { chan: params[0].clone(), msg: msg_at(&params, 1) }, none);
        }
    } else if same_text(cmd, "NOTICE") {
        if n >= 2 {
            return (ServCmd::Notice { msg: msg_at(&params, 1) }, none);
        }
    } else if same_text(cmd, "NICK") {
        if n >= 1 {
            return (ServCmd::Nick { nick: msg_at(&params, 0) }, none);
        }
    } else if same_text(cmd, "QUIT") {
        if n >= 1 {
            return (ServCmd::Quit { msg: msg_at(&params, 0) }, none);
        }
        return (ServCmd::Quit { msg: String::new() }, none);
    } else if same_text(cmd, "ERROR") {
        if n >= 1 {
            return (ServCmd::Error { msg: msg_at(&params, 0) }, none);
        }
    } else if same_text(cmd, "001") {
        if n >= 2 {
            return (ServCmd::RplWelcome { msg: msg_at(&params, 1) }, none);
        }
    } else if same_text(cmd, "002") {
        if n >= 2 {
            return (ServCmd::RplYourHost { msg: msg_at(&params, 1) }, none);
        }
    } else if same_text(cmd, "003") {
        if n >= 2 {
            return (ServCmd::RplCreated { msg: msg_at(&params, 1) }, none);
        }
    } else if same_text(cmd, "004") {
        if n >= 6 {
            return (
                ServCmd::RplMyInfo {
                    version: params[2].clone(),
                    umodes: params[3].clone(),
                    cmodes: params[4].clone(),
                    cmodes_param: msg_at(&params, 5),
                },
                none,
            );
        }
    } else if same_text(cmd, "005") {
        if n >= 1 {
            return (ServCmd::RplISupport { msg: join_from(&params, 1) }, none);
        }
    } else if same_text(cmd, "251") {
        if n >= 2 {
            return (ServCmd::RplLuserClient { msg: msg_at(&params, 1) }, none);
        }
    } else if same_text(cmd, "252") {
        if n >= 1 {
            return (ServCmd::RplLuserOp { msg: join_from(&params, 1) }, none);
        }
    } else if same_text(cmd, "253") {
        if n >= 1 {
            return (ServCmd::RplLuserUnknown { msg: join_from(&params, 1) }, none);
        }
    } else if same_text(cmd, "254") {
        if n >= 1 {
            return (ServCmd::RplLuserChannels { msg: join_from(&params, 1) }, none);
        }
    } else if same_text(cmd, "255") {
        if n >= 2 {
            return (ServCmd::RplLuserMe { msg: msg_at(&params, 1) }, none);
        }
    } else if same_text(cmd, "265") {
        if n >= 2 {
            return (ServCmd::RplLocalUsers { msg: msg_at(&params, 1) }, none);
        }
    } else if same_text(cmd, "266") {
        if n >= 2 {
            return (ServCmd::RplGlobalUsers { msg: msg_at(&params, 1) }, none);
        }
    } else if same_text(cmd, "353") {
        if n >= 4 && params[1].as_str().unicode_len() > 0 {
            let sym = params[1].as_str().get_char(0);
            let chan = params[2].clone();
            let list = msg_at(&params, 3);
            let chars = chars_of(list.as_str());
            let nicks = words_at(&chars, 0);
            return (ServCmd::NameReply { sym, chan, nicks }, none);
        }
    } else if same_text(cmd, "366") {
        if n >= 3 {
            return (ServCmd::EndOfNames { msg: pair_string(&params[1], &params[2]) }, none);
        }
    } else if same_text(cmd, "375") {
        if n >= 2 {
            return (ServCmd::MOTDStart { msg: msg_at(&params, 1) }, none);
        }
    } else if same_text(cmd, "372") {
        if n >= 2 {
            return (ServCmd::MOTD { msg: msg_at(&params, 1) }, none);
        }
    } else if same_text(cmd, "376") {
        if n >= 2 {
            return (ServCmd::MOTDEnd { msg: msg_at(&params, 1) }, none);
        }
    } else if same_text(cmd, "396") {
        if n >= 3 {
            return (ServCmd::DisplayedHost { msg: pair_string(&params[1], &params[2]) }, none);
        }
    }
    (ServCmd::Unknown(String::from_str(cmd)), params)
}

/// Decodes one line received from the server; see `decode`.
pub fn parse_msg(msg: &str) -> (r: ServMsg)
    ensures
        r@ == decode(msg@),
{
    let v = chars_of(msg);
    let n = v.len();
    let a = skip_ws_at(&v, 0);
    let none: Vec<String> = Vec::new();
    assert(views(none@) =~= seq![]);
    if a == n {
        return ServMsg { prefix: None, command: ServCmd::Unknown(String::new()), params: none };
    }
    let has_prefix = v[a] == ':';
    let b = if has_prefix {
        word_end_at(&v, a)
    } else {
        a
    };
    let prefix = if has_prefix {
        proof {
            lemma_word_end(v@, a as int);
        }
        let p = string_of(&v, a + 1, b);
        Some(parse_prefix(p.as_str()))
    } else {
        None
    };
    let c = skip_ws_at(&v, b);
    if c == n {
        return ServMsg { prefix, command: ServCmd::Unknown(String::new()), params: none };
    }
    let d = word_end_at(&v, c);
    let code = string_of(&v, c, d);
    let params = params_at(&v, d);
    let (command, params) = parse_cmd(code.as_str(), params);
    ServMsg { prefix, command, params }
}


/// The name or nick that a target holds.
pub open spec fn target_name(t: TargetView) -> Seq<char> {
    match t {
        TargetView::Chan(s) => s,
        TargetView::User(s) => s,
        TargetView::Serv(s) => s,
    }
}

impl MsgTarget {
    /// The name or nick this target holds.
    pub fn target(&self) -> (r: &str)
        ensures
            r@ == target_name(self@),
    {
        match self {
            MsgTarget::Chan(s) => s.as_str(),
            MsgTarget::User(s) => s.as_str(),
            MsgTarget::Serv(s) => s.as_str(),
        }
    }
}

/// A command that the client sends to the server.
#[derive(Debug, PartialEq)]
pub enum ClientCmd {
    Nick(String),
    User { user: String, realname: String },
    Join(String),
    PrivMsg { target: String, msg: String },
    Quit(String),
    Pong(String),
}

pub enum ClientCmdView {
    Nick(Seq<char>),
    User { user: Seq<char>, realname: Seq<char> },
    Join(Seq<char>),
    PrivMsg { target: Seq<char>, msg: Seq<char> },
    Quit(Seq<char>),
    Pong(Seq<char>),
}

impl View for ClientCmd {
    type V = ClientCmdView;

    open spec fn view(&self) -> ClientCmdView {
        match self {
            ClientCmd::Nick(n) => ClientCmdView::Nick(n@),
            ClientCmd::User { user, realname } => ClientCmdView::User { user: user@, realname: realname@ },
            ClientCmd::Join(c) => ClientCmdView::Join(c@),
            ClientCmd::PrivMsg { target, msg } => ClientCmdView::PrivMsg {
                target: target@,
                msg: msg@,
            },
            ClientCmd::Quit(m) => ClientCmdView::Quit(m@),
            ClientCmd::Pong(t) => ClientCmdView::Pong(t@),
        }
    }
}

/// The wire form of a client command, CRLF-terminated.
pub open spec fn encoding(c: ClientCmdView) -> Seq<char> {
    match c {
        ClientCmdView::Nick(n) => "NICK "@ + n + "\r\n"@,
        ClientCmdView::User { user, realname } => "USER "@ + user + " 0 * :"@ + realname + "\r\n"@,
        ClientCmdView::Join(c) => "JOIN "@ + c + "\r\n"@,
        ClientCmdView::PrivMsg { target, msg } => "PRIVMSG "@ + target + " :"@ + msg + "\r\n"@,
        ClientCmdView::Quit(m) => "QUIT :"@ + m + "\r\n"@,
        ClientCmdView::Pong(t) => "PONG "@ + t + "\r\n"@,
    }
}

/// Encodes a client command as one wire line.
pub fn encode(cmd: &ClientCmd) -> (r: String)
    ensures
        r@ == encoding(cmd@),
{
    let mut r;
    match cmd {
        ClientCmd::Nick(n) => {
            r = String::from_str("NICK ");
            r.append(n.as_str());
        },
        ClientCmd::User { user, realname } => {
            r = String::from_str("USER ");
            r.append(user.as_str());
            r.append(" 0 * :");
            r.append(realname.as_str());
        },
        ClientCmd::Join(c) => {
            r = String::from_str("JOIN ");
            r.append(c.as_str());
        },
        ClientCmd::PrivMsg { target, msg } => {
            r = String::from_str("PRIVMSG ");
            r.append(target.as_str());
            r.append(" :");
            r.append(msg.as_str());
        },
        ClientCmd::Quit(m) => {
            r = String::from_str("QUIT :");
            r.append(m.as_str());
        },
        ClientCmd::Pong(t) => {
            r = String::from_str("PONG ");
            r.append(t.as_str());
        },
    }
    r.append("\r\n");
    r
}

} // verus!
