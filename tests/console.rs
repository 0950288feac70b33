use tari_base_node::console::{print_help, process_list_headers, process_send_tari};
use tari_base_node::{parse_line, BaseNodeCommand, ParseError, Parser, Reply};

fn strings(v: &[&str]) -> Vec<String> {
    v.iter().map(|s| s.to_string()).collect()
}

const ALL: [BaseNodeCommand; 11] = [
    BaseNodeCommand::Help,
    BaseNodeCommand::GetBalance,
    BaseNodeCommand::SendTari,
    BaseNodeCommand::GetChainMetadata,
    BaseNodeCommand::ListPeers,
    BaseNodeCommand::ListConnections,
    BaseNodeCommand::ListHeaders,
    BaseNodeCommand::Whoami,
    BaseNodeCommand::ToggleMining,
    BaseNodeCommand::Quit,
    BaseNodeCommand::Exit,
];

#[test]
fn every_token_parses_back() {
    for c in ALL.iter() {
        assert_eq!(BaseNodeCommand::from_token(c.token()), Some(*c));
        match parse_line(c.token()) {
            Ok((p, args)) => {
                assert_eq!(p, *c);
                assert!(args.is_empty());
            },
            Err(e) => panic!("{:?}", e),
        }
    }
}

#[test]
fn tokens_are_kebab_case() {
    assert_eq!(BaseNodeCommand::GetChainMetadata.token(), "get-chain-metadata");
    assert_eq!(BaseNodeCommand::Whoami.token(), "whoami");
    assert_eq!(BaseNodeCommand::from_token("Help"), None);
    assert_eq!(BaseNodeCommand::from_token("send_tari"), None);
    assert_eq!(BaseNodeCommand::all(), ALL.to_vec());
}

#[test]
fn empty_line_is_help() {
    assert_eq!(parse_line(""), Ok((BaseNodeCommand::Help, vec![])));
    assert_eq!(parse_line("   "), Ok((BaseNodeCommand::Help, vec![])));
    let mut p = Parser::new(false, false);
    match p.handle_command("") {
        Reply::Print(lines) => assert_eq!(lines[0], "Available commands are: "),
        r => panic!("{:?}", r),
    }
}

#[test]
fn unknown_command_is_refused() {
    assert_eq!(
        parse_line("not-a-command"),
        Err(ParseError::Unrecognized("not-a-command".to_string()))
    );
    let mut p = Parser::new(true, false);
    let r = p.handle_command("not-a-command");
    assert_eq!(
        r,
        Reply::Print(strings(&[
            "not-a-command is not a valid command, please enter a valid command",
            "Enter help or press tab for available commands",
        ]))
    );
    assert_eq!(p, Parser::new(true, false));
}

#[test]
fn words_and_arguments() {
    assert_eq!(
        parse_line("  send-tari\t100   abc  "),
        Ok((BaseNodeCommand::SendTari, strings(&["100", "abc"])))
    );
    assert_eq!(
        parse_line("list-headers\u{0B}3\u{3000}"),
        Ok((BaseNodeCommand::ListHeaders, strings(&["3"])))
    );
    let mut p = Parser::new(false, false);
    assert_eq!(p.handle_command("list-headers\u{A0}3"), Reply::ListHeaders(3));
}

#[test]
fn completion_by_prefix() {
    let p = Parser::new(false, false);
    let all: Vec<String> = ALL.iter().map(|c| c.token().to_string()).collect();
    assert_eq!(p.complete(""), all);
    assert_eq!(
        p.complete("list-"),
        strings(&["list-peers", "list-connections", "list-headers"])
    );
    assert_eq!(p.complete("get-b"), strings(&["get-balance"]));
    assert_eq!(p.complete("quit"), strings(&["quit"]));
    assert_eq!(p.complete("quitx"), Vec::<String>::new());
    assert_eq!(p.complete("LIST"), Vec::<String>::new());
}

#[test]
fn toggle_mining_twice_restores() {
    for start in [false, true] {
        let mut p = Parser::new(start, false);
        assert_eq!(p.handle_command("toggle-mining"), Reply::Print(vec![]));
        assert_eq!(p.mining_enabled, !start);
        p.handle_command("toggle-mining");
        assert_eq!(p.mining_enabled, start);
        assert!(!p.shutdown_requested);
    }
}

#[test]
fn send_tari_needs_amount_and_destination() {
    let hint = Reply::Print(strings(&[
        "Command entered incorrectly, please use the following format: ",
        "send_tari [amount of tari to send] [public key to send to]",
    ]));
    let mut p = Parser::new(false, false);
    assert_eq!(p.handle_command("send-tari"), hint);
    assert_eq!(p.handle_command("send-tari 100"), hint);
    assert_eq!(p.handle_command("send-tari 100 key extra"), hint);
    assert_eq!(process_send_tari(&vec![]), hint);
}

#[test]
fn send_tari_needs_numeric_amount() {
    let bad = Reply::Print(strings(&[
        "Command entered incorrectly, please use the following format: ",
        "send_tari [amount of tari to send] [public key to send to]",
    ]));
    let mut p = Parser::new(false, false);
    assert_eq!(p.handle_command("send-tari abc key"), bad);
    assert_eq!(p.handle_command("send-tari -5 key"), bad);
    assert_eq!(p.handle_command("send-tari 18446744073709551616 key"), bad);
    assert_eq!(
        p.handle_command("send-tari 18446744073709551615 key"),
        Reply::SendTari(u64::MAX, "key".to_string())
    );
    assert_eq!(
        p.handle_command("send-tari +250 abcdef"),
        Reply::SendTari(250, "abcdef".to_string())
    );
}

#[test]
fn list_headers_counts() {
    let mut p = Parser::new(false, false);
    assert_eq!(p.handle_command("list-headers"), Reply::ListHeaders(1));
    assert_eq!(p.handle_command("list-headers 3"), Reply::ListHeaders(3));
    assert_eq!(p.handle_command("list-headers 0"), Reply::ListHeaders(1));
    assert_eq!(process_list_headers(&strings(&["12", "x"])), 12);
}

#[test]
fn list_headers_bad_count_falls_back_to_one() {
    let mut p = Parser::new(false, false);
    assert_eq!(p.handle_command("list-headers abc"), Reply::ListHeaders(1));
}

#[test]
fn quit_and_exit_request_shutdown() {
    for line in ["quit", "exit"] {
        let mut p = Parser::new(true, false);
        assert_eq!(p.handle_command(line), Reply::Print(strings(&["Shutting down..."])));
        assert!(p.shutdown_requested);
        assert!(p.mining_enabled);
        assert_eq!(p.handle_command(line), Reply::Print(strings(&["Shutting down..."])));
        assert!(p.shutdown_requested);
    }
}

#[test]
fn help_send_tari() {
    let mut p = Parser::new(false, false);
    assert_eq!(
        p.handle_command("help send-tari"),
        Reply::Print(strings(&[
            "Sends an amount of Tari to a address call this command via:",
            "send_tari [amount of tari to send] [public key to send to]",
        ]))
    );
}

#[test]
fn help_lists_all_commands() {
    let expected = strings(&[
        "Available commands are: ",
        "help, get-balance, send-tari, get-chain-metadata, list-peers, list-connections, \
         list-headers, whoami, toggle-mining, quit, exit",
    ]);
    assert_eq!(print_help(BaseNodeCommand::Help), expected);
    let mut p = Parser::new(false, false);
    assert_eq!(p.handle_command("help"), Reply::Print(expected.clone()));
    assert_eq!(p.handle_command("help no-such-topic"), Reply::Print(expected));
    assert_eq!(
        p.handle_command("help quit"),
        Reply::Print(strings(&["Exits the base node"]))
    );
}

#[test]
fn service_requests() {
    let mut p = Parser::new(false, false);
    assert_eq!(p.handle_command("get-balance"), Reply::GetBalance);
    assert_eq!(p.handle_command("get-chain-metadata"), Reply::GetChainMetadata);
    assert_eq!(p.handle_command("list-peers"), Reply::ListPeers);
    assert_eq!(p.handle_command("list-connections"), Reply::ListConnections);
    assert_eq!(p.handle_command("whoami"), Reply::Whoami);
    assert_eq!(p, Parser::new(false, false));
}
