use meager::command::{parse_input, Cmd};

#[test]
fn test_parse_connect() {
    let input = "/connect irc.freenode.net";
    let cmd = parse_input(input);
    assert_eq!(cmd, Ok(Cmd::Connect("irc.freenode.net".to_string())));
}

#[test]
fn test_parse_connect_err() {
    let input = "/connect";
    let cmd = parse_input(input);
    assert_eq!(cmd, Err("No server address provided"));
}

#[test]
fn command_test_parse_join() {
    let input = "/join #bobcat";
    let cmd = parse_input(input);
    assert_eq!(cmd, Ok(Cmd::Join("#bobcat".to_string())));
}

#[test]
fn test_parse_join_err() {
    let input = "/join";
    let cmd = parse_input(input);
    assert_eq!(cmd, Err("No channel name provided"));
}

#[test]
fn test_parse_quit() {
    let input = "/quit well I'm out of here bye!!";
    let cmd = parse_input(input);
    assert_eq!(cmd, Ok(Cmd::Quit("well I'm out of here bye!!".to_string())));
}

#[test]
fn test_parse_quit_no_msg() {
    let input = "/quit";
    let cmd = parse_input(input);
    assert_eq!(cmd, Ok(Cmd::Quit("".to_string())));
}

#[test]
fn test_unsupported() {
    let input = "/rhubarb jsjjsjs args";
    let cmd = parse_input(input);
    assert_eq!(
        cmd,
        Ok(Cmd::Unsupported {
            cmd: "/rhubarb".to_string(),
            rest: "jsjjsjs args".to_string(),
        })
    );
}
