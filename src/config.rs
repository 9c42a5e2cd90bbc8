//! Connection defaults for new sessions.
use vstd::prelude::*;

verus! {

/// The identity used when connecting to a server.
#[derive(Debug)]
pub struct Config {
    pub nick: String,
    pub user: String,
    pub realname: String,
}

impl Default for Config {
    fn default() -> (r: Config)
        ensures
            r.nick@ == "meager-irc-client"@,
            r.user@ == "guest"@,
            r.realname@ == "Meager"@,
    {
        Config {
            nick: String::from_str("meager-irc-client"),
            user: String::from_str("guest"),
            realname: String::from_str("Meager"),
        }
    }
}

/// `value` when given, else `default`.
pub open spec fn or_default(value: Option<String>, default: Seq<char>) -> Seq<char> {
    match value {
        Some(v) => v@,
        None => default,
    }
}

impl Config {
    /// The defaults, with each field that is given replacing its default.
    pub fn with_overrides(nick: Option<String>, user: Option<String>, realname: Option<String>) -> (r: Config)
        ensures
            r.nick@ == or_default(nick, "meager-irc-client"@),
            r.user@ == or_default(user, "guest"@),
            r.realname@ == or_default(realname, "Meager"@),
    {
        let mut config = Config::default();
        if let Some(n) = nick {
            config.nick = n;
        }
        if let Some(u) = user {
            config.user = u;
        }
        if let Some(r) = realname {
            config.realname = r;
        }
        config
    }
}

} // verus!
