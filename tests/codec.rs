use meager::protocol::{encode, parse_cmd, parse_msg, parse_prefix, ClientCmd, MsgTarget, Prefix, ServCmd};

#[test]
fn prefix_user_and_server() {
    assert_eq!(
        parse_prefix("MrNickname!~MrUser@host.example"),
        Prefix::User {
            nick: "MrNickname".to_string(),
            user: "~MrUser".to_string(),
            host: "host.example".to_string(),
        }
    );
    assert_eq!(parse_prefix("*.example.net"), Prefix::Server("*.example.net".to_string()));
}

#[test]
fn prefix_with_at_before_bang_is_a_server() {
    assert_eq!(parse_prefix("a@b!c"), Prefix::Server("a@b!c".to_string()));
}

#[test]
fn name_reply_decodes_symbol_channel_and_nicks() {
    let m = parse_msg(":*.example.net 353 nick = #bobcat :@nick other1 other2");
    assert_eq!(m.prefix, Some(Prefix::Server("*.example.net".to_string())));
    assert_eq!(
        m.command,
        ServCmd::NameReply {
            sym: '=',
            chan: "#bobcat".to_string(),
            nicks: vec!["@nick".to_string(), "other1".to_string(), "other2".to_string()],
        }
    );
    assert!(m.params.is_empty());
}

#[test]
fn privmsg_to_channel() {
    let m = parse_msg(":a!u@h PRIVMSG #chan :hello world");
    assert_eq!(
        m.prefix,
        Some(Prefix::User { nick: "a".to_string(), user: "u".to_string(), host: "h".to_string() })
    );
    assert_eq!(
        m.command,
        ServCmd::PrivMsg {
            target: MsgTarget::Chan("#chan".to_string()),
            msg: "hello world".to_string(),
        }
    );
}

#[test]
fn privmsg_to_user() {
    let m = parse_msg(":a!u@h PRIVMSG me :hi");
    assert_eq!(
        m.command,
        ServCmd::PrivMsg { target: MsgTarget::User("me".to_string()), msg: "hi".to_string() }
    );
}

#[test]
fn part_with_and_without_message() {
    let m = parse_msg(":a!u@h PART :#bobcat");
    assert_eq!(m.command, ServCmd::Part { chan: "#bobcat".to_string(), msg: "".to_string() });
    let m = parse_msg(":a!u@h PART #bobcat :bye");
    assert_eq!(m.command, ServCmd::Part { chan: "#bobcat".to_string(), msg: "bye".to_string() });
}

#[test]
fn trailing_keeps_inner_spacing() {
    let m = parse_msg(":s 372 me :  two  spaces ");
    assert_eq!(m.command, ServCmd::MOTD { msg: "  two  spaces ".to_string() });
}

#[test]
fn nick_quit_and_error_decode() {
    let m = parse_msg(":old!u@h NICK :new");
    assert_eq!(m.command, ServCmd::Nick { nick: "new".to_string() });
    let m = parse_msg(":a!u@h QUIT :gone");
    assert_eq!(m.command, ServCmd::Quit { msg: "gone".to_string() });
    let m = parse_msg(":a!u@h QUIT");
    assert_eq!(m.command, ServCmd::Quit { msg: "".to_string() });
    let m = parse_msg("ERROR :Closing link");
    assert_eq!(m.prefix, None);
    assert_eq!(m.command, ServCmd::Error { msg: "Closing link".to_string() });
}

#[test]
fn unknown_command_keeps_raw_params() {
    let m = parse_msg(":srv MODE me +i :extra words");
    assert_eq!(m.command, ServCmd::Unknown("MODE".to_string()));
    assert_eq!(m.params, vec!["me".to_string(), "+i".to_string(), ":extra words".to_string()]);
}

#[test]
fn missing_parameter_degrades_to_unknown() {
    let m = parse_msg(":srv 004 me a b");
    assert_eq!(m.command, ServCmd::Unknown("004".to_string()));
    assert_eq!(m.params, vec!["me".to_string(), "a".to_string(), "b".to_string()]);
    let m = parse_msg(":a!u@h PRIVMSG #chan");
    assert_eq!(m.command, ServCmd::Unknown("PRIVMSG".to_string()));
}

#[test]
fn empty_and_prefix_only_lines() {
    let m = parse_msg("");
    assert_eq!(m.prefix, None);
    assert_eq!(m.command, ServCmd::Unknown("".to_string()));
    let m = parse_msg("   :srv   ");
    assert_eq!(m.prefix, Some(Prefix::Server("srv".to_string())));
    assert_eq!(m.command, ServCmd::Unknown("".to_string()));
}

#[test]
fn join_without_marker_keeps_channel() {
    let m = parse_msg(":a!u@h JOIN #chan");
    assert_eq!(m.command, ServCmd::Join { chan: "#chan".to_string() });
}

#[test]
fn parse_cmd_numeric_join_rest() {
    let (cmd, rest) = parse_cmd("252", vec!["me".to_string(), "6".to_string(), ":ops".to_string()]);
    assert_eq!(cmd, ServCmd::RplLuserOp { msg: "6 :ops".to_string() });
    assert!(rest.is_empty());
}

#[test]
fn encode_client_commands() {
    assert_eq!(encode(&ClientCmd::Nick("bob".to_string())), "NICK bob\r\n");
    assert_eq!(
        encode(&ClientCmd::User { user: "guest".to_string(), realname: "Bob B".to_string() }),
        "USER guest 0 * :Bob B\r\n"
    );
    assert_eq!(encode(&ClientCmd::Join("#c".to_string())), "JOIN #c\r\n");
    assert_eq!(
        encode(&ClientCmd::PrivMsg { target: "#c".to_string(), msg: "hi there".to_string() }),
        "PRIVMSG #c :hi there\r\n"
    );
    assert_eq!(encode(&ClientCmd::Quit("bye".to_string())), "QUIT :bye\r\n");
    assert_eq!(encode(&ClientCmd::Pong(":t1".to_string())), "PONG :t1\r\n");
}

#[test]
fn target_names() {
    assert_eq!(MsgTarget::Chan("#a".to_string()).target(), "#a");
    assert_eq!(MsgTarget::User("bob".to_string()).target(), "bob");
}
