use meager::command::{parse_input, Cmd};

#[test]
fn interpreter_examples() {
    assert_eq!(parse_input("/connect host"), Ok(Cmd::Connect("host".to_string())));
    assert_eq!(parse_input("/connect"), Err("No server address provided"));
    assert_eq!(parse_input("/join"), Err("No channel name provided"));
    assert_eq!(parse_input("/quit bye now"), Ok(Cmd::Quit("bye now".to_string())));
    assert_eq!(parse_input("/quit"), Ok(Cmd::Quit("".to_string())));
    assert_eq!(
        parse_input("/foo a b"),
        Ok(Cmd::Unsupported { cmd: "/foo".to_string(), rest: "a b".to_string() })
    );
    assert_eq!(parse_input("hello"), Ok(Cmd::Msg("hello".to_string())));
}

#[test]
fn interpreter_trims_and_splits_on_whitespace() {
    assert_eq!(parse_input("/join   #x  "), Ok(Cmd::Join("#x".to_string())));
    assert_eq!(parse_input("/connect    "), Err("No server address provided"));
    assert_eq!(parse_input("/nick\tbob"), Ok(Cmd::Nick("bob".to_string())));
    assert_eq!(parse_input(""), Ok(Cmd::Msg("".to_string())));
    assert_eq!(parse_input(" /quit"), Ok(Cmd::Msg(" /quit".to_string())));
}
