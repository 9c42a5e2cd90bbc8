use meager::protocol::{parse_msg, parse_prefix, MsgTarget, Prefix, ServCmd};

#[test]
fn test_parse_prefix_serv() {
    let prefix = "*.freenode.net";
    let parsed = parse_prefix(prefix);
    assert_eq!(parsed, Prefix::Server("*.freenode.net".to_string()));
}

#[test]
fn test_parse_prefix_user() {
    let prefix = "MrNickname!~MrUser@freenode-o6n.182.alt94q.IP";
    let parsed = parse_prefix(prefix);
    assert_eq!(
        parsed,
        Prefix::User {
            nick: "MrNickname".to_string(),
            user: "~MrUser".to_string(),
            host: "freenode-o6n.182.alt94q.IP".to_string(),
        }
    );
}

#[test]
fn test_004_myinfo() {
    let msg = ":*.freenode.net 004 MrNickname *.freenode.net InspIRCd-3 BDHILRSTWcdghikorswxz ABCDEFIJKLMNOPQRSTUWXYZbcdefhijklmnoprstuvwz :BEFIJLWXYZbdefhjklovw";
    let serv_msg = parse_msg(msg);
    assert_eq!(
        serv_msg.prefix,
        Some(Prefix::Server("*.freenode.net".to_string()))
    );
    assert_eq!(
        serv_msg.command,
        ServCmd::RplMyInfo {
            version: "InspIRCd-3".to_string(),
            umodes: "BDHILRSTWcdghikorswxz".to_string(),
            cmodes: "ABCDEFIJKLMNOPQRSTUWXYZbcdefhijklmnoprstuvwz".to_string(),
            cmodes_param: "BEFIJLWXYZbdefhjklovw".to_string(),
        }
    );
    assert!(serv_msg.params.is_empty());
}

#[test]
fn test_parse_251_luserclient() {
    let msg =
        ":*.freenode.net 251 MrNickname :There are 18 users and 4959 invisible on 10 servers";
    let serv_msg = parse_msg(msg);
    assert_eq!(
        serv_msg.prefix,
        Some(Prefix::Server("*.freenode.net".to_string()))
    );
    assert_eq!(
        serv_msg.command,
        ServCmd::RplLuserClient {
            msg: "There are 18 users and 4959 invisible on 10 servers".to_string()
        }
    );
    assert!(serv_msg.params.is_empty());
}

#[test]
fn test_parse_252_luserop() {
    let msg = ":*.freenode.net 252 MrNickname 6 :operator(s) online";
    let serv_msg = parse_msg(msg);
    assert_eq!(
        serv_msg.prefix,
        Some(Prefix::Server("*.freenode.net".to_string()))
    );
    assert_eq!(
        serv_msg.command,
        ServCmd::RplLuserOp {
            msg: "6 :operator(s) online".to_string()
        }
    );
    assert!(serv_msg.params.is_empty());
}

#[test]
fn test_parse_253_luserunknown() {
    let msg = ":*.freenode.net 253 MrNickname 4 :unknown connections";
    let serv_msg = parse_msg(msg);
    assert_eq!(
        serv_msg.prefix,
        Some(Prefix::Server("*.freenode.net".to_string()))
    );
    assert_eq!(
        serv_msg.command,
        ServCmd::RplLuserUnknown {
            msg: "4 :unknown connections".to_string()
        }
    );
    assert!(serv_msg.params.is_empty());
}

#[test]
fn test_parse_254_luserchannels() {
    let msg = ":*.freenode.net 254 MrNickname 9690 :channels formed";
    let serv_msg = parse_msg(msg);
    assert_eq!(
        serv_msg.prefix,
        Some(Prefix::Server("*.freenode.net".to_string()))
    );
    assert_eq!(
        serv_msg.command,
        ServCmd::RplLuserChannels {
            msg: "9690 :channels formed".to_string()
        }
    );
    assert!(serv_msg.params.is_empty());
}

#[test]
fn test_parse_255_luserme() {
    let msg = ":*.freenode.net 255 MrNickname :I have 1704 clients and 1 servers";
    let serv_msg = parse_msg(msg);
    assert_eq!(
        serv_msg.prefix,
        Some(Prefix::Server("*.freenode.net".to_string()))
    );
    assert_eq!(
        serv_msg.command,
        ServCmd::RplLuserMe {
            msg: "I have 1704 clients and 1 servers".to_string()
        }
    );
    assert!(serv_msg.params.is_empty());
}

#[test]
fn test_parse_265_localusers() {
    let msg = ":*.freenode.net 265 MrNickname :Current local users: 1704  Max: 4101";
    let serv_msg = parse_msg(msg);
    assert_eq!(
        serv_msg.prefix,
        Some(Prefix::Server("*.freenode.net".to_string()))
    );
    assert_eq!(
        serv_msg.command,
        ServCmd::RplLocalUsers {
            msg: "Current local users: 1704  Max: 4101".to_string()
        }
    );
    assert!(serv_msg.params.is_empty());
}

#[test]
fn test_parse_266_globalusers() {
    let msg = ":*.freenode.net 266 MrNickname :Current global users: 4977  Max: 10281";
    let serv_msg = parse_msg(msg);
    assert_eq!(
        serv_msg.prefix,
        Some(Prefix::Server("*.freenode.net".to_string()))
    );
    assert_eq!(
        serv_msg.command,
        ServCmd::RplGlobalUsers {
            msg: "Current global users: 4977  Max: 10281".to_string()
        }
    );
    assert!(serv_msg.params.is_empty());
}

#[test]
fn test_parse_353() {
    let msg = ":*.freenode.net 353 MrNickname = #bobcat :@MrNickname bobcatLover DogPerson";
    let serv_msg = parse_msg(msg);
    assert_eq!(
        serv_msg.prefix,
        Some(Prefix::Server("*.freenode.net".to_string()))
    );
    assert_eq!(
        serv_msg.command,
        ServCmd::NameReply {
            sym: '=',
            chan: "#bobcat".to_string(),
            nicks: vec![
                "@MrNickname".to_string(),
                "bobcatLover".to_string(),
                "DogPerson".to_string(),
            ]
        }
    );
}

#[test]
fn test_parse_366() {
    let msg = ":*.freenode.net 366 MrNickname #bobcat :End of /NAMES list.";
    let serv_msg = parse_msg(msg);
    assert_eq!(
        serv_msg.prefix,
        Some(Prefix::Server("*.freenode.net".to_string()))
    );
    assert_eq!(
        serv_msg.command,
        ServCmd::EndOfNames {
            msg: "#bobcat End of /NAMES list.".to_string()
        }
    );
    assert!(serv_msg.params.is_empty());
}

#[test]
fn protocol_test_parse_join() {
    let msg = ":MrNickname!~MrUser@freenode-o6n.182.alt94q.IP JOIN :#bobcat";
    let serv_msg = parse_msg(msg);
    assert_eq!(
        serv_msg.prefix,
        Some(Prefix::User {
            nick: "MrNickname".to_string(),
            user: "~MrUser".to_string(),
            host: "freenode-o6n.182.alt94q.IP".to_string(),
        })
    );
    assert_eq!(
        serv_msg.command,
        ServCmd::Join {
            chan: "#bobcat".to_string()
        }
    );
    assert!(serv_msg.params.is_empty());
}

#[test]
fn test_parse_part() {
    let msg = ":MrNickname!~MrUser@freenode-o6n.182.alt94q.IP PART :#bobcat";
    let serv_msg = parse_msg(msg);
    assert_eq!(
        serv_msg.prefix,
        Some(Prefix::User {
            nick: "MrNickname".to_string(),
            user: "~MrUser".to_string(),
            host: "freenode-o6n.182.alt94q.IP".to_string(),
        })
    );
    assert_eq!(
        serv_msg.command,
        ServCmd::Part {
            chan: "#bobcat".to_string(),
            msg: "".to_string()
        }
    );
}

#[test]
fn test_parse_part_with_msg() {
    let msg =
        ":MrNickname!~MrUser@freenode-o6n.182.alt94q.IP PART #bobcat :\"getting out of here\"";
    let serv_msg = parse_msg(msg);
    assert_eq!(
        serv_msg.prefix,
        Some(Prefix::User {
            nick: "MrNickname".to_string(),
            user: "~MrUser".to_string(),
            host: "freenode-o6n.182.alt94q.IP".to_string(),
        })
    );
    assert_eq!(
        serv_msg.command,
        ServCmd::Part {
            chan: "#bobcat".to_string(),
            msg: "\"getting out of here\"".to_string()
        }
    );
}

#[test]
fn test_parse_privmsg() {
    let msg = ":MrNickname!~MrUser@freenode-o6n.182.alt94q.IP PRIVMSG #bobcat :this is a wug!!";
    let serv_msg = parse_msg(msg);
    assert_eq!(
        serv_msg.prefix,
        Some(Prefix::User {
            nick: "MrNickname".to_string(),
            user: "~MrUser".to_string(),
            host: "freenode-o6n.182.alt94q.IP".to_string(),
        })
    );
    assert_eq!(
        serv_msg.command,
        ServCmd::PrivMsg {
            target: MsgTarget::Chan("#bobcat".to_string()),
            msg: "this is a wug!!".to_string(),
        }
    );
    assert!(serv_msg.params.is_empty());
}

#[test]
fn test_parse_001_rplwelcome() {
    let msg = ":*.freenode.net 001 MrNickname :Welcome to the freenode IRC Network MrNickname!~MrUser@1.2.3.4";
    let serv_msg = parse_msg(msg);
    assert_eq!(
        serv_msg.prefix,
        Some(Prefix::Server("*.freenode.net".to_string()))
    );
    assert_eq!(
        serv_msg.command,
        ServCmd::RplWelcome {
            msg: "Welcome to the freenode IRC Network MrNickname!~MrUser@1.2.3.4".to_string()
        }
    );
}

#[test]
fn test_parse_002_rplyourhost() {
    let msg = ":*.freenode.net 002 MrNickname :Your host is *.freenode.net, running version InspIRCd-3";
    let serv_msg = parse_msg(msg);
    assert_eq!(
        serv_msg.prefix,
        Some(Prefix::Server("*.freenode.net".to_string()))
    );
    assert_eq!(
        serv_msg.command,
        ServCmd::RplYourHost {
            msg: "Your host is *.freenode.net, running version InspIRCd-3".to_string()
        }
    );
    assert!(serv_msg.params.is_empty());
}

#[test]
fn test_parse_003_rplcreated() {
    let msg = ":*.freenode.net 003 MrNickname :This server was created 09:22:41 Jun 22 2023";
    let serv_msg = parse_msg(msg);
    assert_eq!(
        serv_msg.prefix,
        Some(Prefix::Server("*.freenode.net".to_string()))
    );
    assert_eq!(
        serv_msg.command,
        ServCmd::RplCreated {
            msg: "This server was created 09:22:41 Jun 22 2023".to_string()
        }
    );
    assert!(serv_msg.params.is_empty());
}

#[test]
fn test_parse_005_isupport() {
    let msg = ":*.freenode.net 005 MrNickname ACCEPT=30 AWAYLEN=200 BOT=B CALLERID=g \
        CASEMAPPING=ascii CHANLIMIT=#:20 CHANMODES=IXZbew,k,BEFJLWdfjl,ACDKMNOPQRSTUcimnprstu\
        z CHANNELLEN=64 CHANTYPES=# ELIST=CMNTU ESILENCE=CcdiNnPpTtx EXCEPTS=e :are supported by \
        this serverEN=255 LINELEN=512 MAXLIST=I:100,X:100,b:100,e:100,w:100 MAXTA\
        RGETS=20 MODES=20 MONITOR=30 NAMELEN=128 NAMESX NETWORK=freenode :are supported by this \
        server60 SILENCE=32 STATUSMSG=!@%+ TOPICLEN=390 UHNAMES USERIP USERLEN=10\
        USERMODES=,,s,BDHILRSTWcdghikorwxz VBANLIST :are supported by this serverd by this server";
    let serv_msg = parse_msg(msg);
    assert_eq!(
        serv_msg.prefix,
        Some(Prefix::Server("*.freenode.net".to_string()))
    );
    match serv_msg.command {
        ServCmd::RplISupport { msg } => {
            assert_eq!(msg, "ACCEPT=30 AWAYLEN=200 BOT=B CALLERID=g CASEMAPPING=ascii CHANLIMIT=#:20 \
                CHANMODES=IXZbew,k,BEFJLWdfjl,ACDKMNOPQRSTUcimnprstuz CHANNELLEN=64 CHANTYPES=# \
                ELIST=CMNTU ESILENCE=CcdiNnPpTtx EXCEPTS=e :are supported by this serverEN=255 \
                LINELEN=512 MAXLIST=I:100,X:100,b:100,e:100,w:100 MAXTARGETS=20 MODES=20 MONITOR=30 \
                NAMELEN=128 NAMESX NETWORK=freenode :are supported by this server60 SILENCE=32 \
                STATUSMSG=!@%+ TOPICLEN=390 UHNAMES USERIP USERLEN=10USERMODES=,,s,BDHILRSTWcdghikorwxz \
                VBANLIST :are supported by this serverd by this server");
        }
        _ => unreachable!(),
    }
}

#[test]
fn test_parse_375_motdstart() {
    let msg = ":*.freenode.net 375 MrNickname :*.freenode.net message of the day";
    let serv_msg = parse_msg(msg);
    assert_eq!(
        serv_msg.prefix,
        Some(Prefix::Server("*.freenode.net".to_string()))
    );
    assert_eq!(
        serv_msg.command,
        ServCmd::MOTDStart {
            msg: "*.freenode.net message of the day".to_string()
        }
    );
    assert!(serv_msg.params.is_empty());
}

#[test]
fn test_parse_372_motd() {
    let msg = ":*.freenode.net 372 MrNickname :  Thank you for using freenode!";
    let serv_msg = parse_msg(msg);
    assert_eq!(
        serv_msg.prefix,
        Some(Prefix::Server("*.freenode.net".to_string()))
    );
    assert_eq!(
        serv_msg.command,
        ServCmd::MOTD {
            msg: "  Thank you for using freenode!".to_string()
        }
    );
    assert!(serv_msg.params.is_empty());
}

#[test]
fn test_parse_376_motdend() {
    let msg = ":*.freenode.net 376 MrNickname :End of message of the day.";
    let serv_msg = parse_msg(msg);
    assert_eq!(
        serv_msg.prefix,
        Some(Prefix::Server("*.freenode.net".to_string()))
    );
    assert_eq!(
        serv_msg.command,
        ServCmd::MOTDEnd {
            msg: "End of message of the day.".to_string()
        }
    );
    assert!(serv_msg.params.is_empty());
}

#[test]
fn test_parse_396_displayed_host() {
    let msg =
        ":*.freenode.net 396 MrNickname freenode-o6n.182.alt94q.IP :is now your displayed host";
    let serv_msg = parse_msg(msg);
    assert_eq!(
        serv_msg.prefix,
        Some(Prefix::Server("*.freenode.net".to_string()))
    );
    assert_eq!(
        serv_msg.command,
        ServCmd::DisplayedHost {
            msg: "freenode-o6n.182.alt94q.IP is now your displayed host".to_string()
        }
    );
    assert!(serv_msg.params.is_empty());
}

#[test]
fn test_parse_notice() {
    let msg = ":Global!services@services.freenode.net NOTICE MrNickname :[Random News - \
        Aug 14 18:27:23 2024 UTC] Do you like shooting ducks?";
    let serv_msg = parse_msg(msg);
    assert_eq!(
        serv_msg.prefix,
        Some(Prefix::User {
            nick: "Global".to_string(),
            user: "services".to_string(),
            host: "services.freenode.net".to_string(),
        })
    );
    assert_eq!(
        serv_msg.command,
        ServCmd::Notice {
            msg: "[Random News - Aug 14 18:27:23 2024 UTC] Do you like shooting ducks?"
                .to_string()
        }
    );
}
