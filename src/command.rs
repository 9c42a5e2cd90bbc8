//! The command interpreter: a committed input line to a structured command.
use vstd::prelude::*;
use crate::text::{
    chars_of, is_ws, is_ws_char, same_text, skip_ws, skip_ws_at, string_of, word_end, word_end_at,
};

verus! {

/// A command typed by the user.
#[derive(Debug, PartialEq)]
pub enum Cmd {
    Connect(String),
    Join(String),
    Quit(String),
    Nick(String),
    Msg(String),
    Unsupported { cmd: String, rest: String },
}

pub enum CmdSpec {
    Connect(Seq<char>),
    Join(Seq<char>),
    Quit(Seq<char>),
    Nick(Seq<char>),
    Msg(Seq<char>),
    Unsupported { cmd: Seq<char>, rest: Seq<char> },
}

impl View for Cmd {
    type V = CmdSpec;

    open spec fn view(&self) -> CmdSpec {
        match self {
            Cmd::Connect(s) => CmdSpec::Connect(s@),
            Cmd::Join(s) => CmdSpec::Join(s@),
            Cmd::Quit(s) => CmdSpec::Quit(s@),
            Cmd::Nick(s) => CmdSpec::Nick(s@),
            Cmd::Msg(s) => CmdSpec::Msg(s@),
            Cmd::Unsupported { cmd, rest } => CmdSpec::Unsupported { cmd: cmd@, rest: rest@ },
        }
    }
}

/// `s` without leading whitespace.
pub open spec fn trim_start(s: Seq<char>) -> Seq<char>
    decreases s.len(),
{
    if s.len() > 0 && is_ws(s[0]) {
        trim_start(s.drop_first())
    } else {
        s
    }
}

/// `s` without trailing whitespace.
pub open spec fn trim_end(s: Seq<char>) -> Seq<char>
    decreases s.len(),
{
    if s.len() > 0 && is_ws(s.last()) {
        trim_end(s.drop_last())
    } else {
        s
    }
}

/// `s` without leading or trailing whitespace.
pub open spec fn trim(s: Seq<char>) -> Seq<char> {
    trim_end(trim_start(s))
}

/// The view of an interpreter outcome: the command, or the error text.
pub open spec fn outcome(r: Result<Cmd, &'static str>) -> Result<CmdSpec, Seq<char>> {
    match r {
        Ok(c) => Ok(c@),
        Err(e) => Err(e@),
    }
}

/// The command that a slash-command name and its argument string make.
pub open spec fn command_of(name: Seq<char>, rest: Seq<char>) -> Result<CmdSpec, Seq<char>> {
    if name == "/connect"@ {
        if rest.len() == 0 {
            Err("No server address provided"@)
        } else {
            Ok(CmdSpec::Connect(rest))
        }
    } else if name == "/join"@ {
        if rest.len() == 0 {
            Err("No channel name provided"@)
        } else {
            Ok(CmdSpec::Join(rest))
        }
    } else if name == "/quit"@ {
        Ok(CmdSpec::Quit(rest))
    } else if name == "/nick"@ {
        Ok(CmdSpec::Nick(rest))
    } else {
        Ok(CmdSpec::Unsupported { cmd: name, rest })
    }
}

/// A line that does not start with `/` is a message; otherwise its first
/// whitespace-delimited word names the command and the trimmed remainder is
/// the argument string.
pub open spec fn interpret(line: Seq<char>) -> Result<CmdSpec, Seq<char>> {
    if line.len() > 0 && line[0] == '/' {
        let i = word_end(line, 0);
        command_of(line.subrange(0, i), trim(line.subrange(i, line.len() as int)))
    } else {
        Ok(CmdSpec::Msg(line))
    }
}

proof fn lemma_trim_start(s: Seq<char>, i: int)
    requires
        0 <= i <= s.len(),
    ensures
        trim_start(s.subrange(i, s.len() as int)) == s.subrange(skip_ws(s, i), s.len() as int),
    decreases s.len() - i,
{
    let sub = s.subrange(i, s.len() as int);
    if i < s.len() && is_ws(s[i]) {
        assert(sub.drop_first() =~= s.subrange(i + 1, s.len() as int));
        lemma_trim_start(s, i + 1);
    }
}

/// `trim(v[lo..])` as a string.
fn trimmed(v: &Vec<char>, lo: usize) -> (r: String)
    requires
        lo <= v.len(),
    ensures
        r@ == trim(v@.subrange(lo as int, v.len() as int)),
{
    let a = skip_ws_at(v, lo);
    proof {
        lemma_trim_start(v@, lo as int);
    }
    let mut b = v.len();
    while b > a && is_ws_char(v[b - 1])
        invariant
            a <= b <= v.len(),
            trim_end(v@.subrange(a as int, b as int)) == trim_end(
                v@.subrange(a as int, v.len() as int),
            ),
        decreases b,
    {
        assert(v@.subrange(a as int, b as int).drop_last() =~= v@.subrange(
            a as int,
            b as int - 1,
        ));
        b = b - 1;
    }
    string_of(v, a, b)
}

fn make_cmd(cmd: &str, rest: String) -> (r: Result<Cmd, &'static str>)
    ensures
        outcome(r) == command_of(cmd@, rest@),
{
    if same_text(cmd, "/connect") {
        if rest.as_str().unicode_len() == 0 {
            Err("No server address provided")
        } else {
            Ok(Cmd::Connect(rest))
        }
    } else if same_text(cmd, "/join") {
        if rest.as_str().unicode_len() == 0 {
            Err("No channel name provided")
        } else {
            Ok(Cmd::Join(rest))
        }
    } else if same_text(cmd, "/quit") {
        Ok(Cmd::Quit(rest))
    } else if same_text(cmd, "/nick") {
        Ok(Cmd::Nick(rest))
    } else {
        Ok(Cmd::Unsupported { cmd: String::from_str(cmd), rest })
    }
}

/// Interprets a committed input line; see `interpret`.
pub fn parse_input(input: &str) -> (r: Result<Cmd, &'static str>)
    ensures
        outcome(r) == interpret(input@),
{
    let v = chars_of(input);
    if v.len() > 0 && v[0] == '/' {
        let i = word_end_at(&v, 0);
        let name = string_of(&v, 0, i);
        let rest = trimmed(&v, i);
        make_cmd(name.as_str(), rest)
    } else {
        Ok(Cmd::Msg(String::from_str(input)))
    }
}

} // verus!
