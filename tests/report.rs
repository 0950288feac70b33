use tari_base_node::report::{
    balance_report, chain_height_failure, chain_metadata_report, connections_report, decimal,
    header_heights, headers_report, peers_report, send_report, send_request,
};
use tari_base_node::text::{parse_u64, split_words};
use tari_base_node::SendRequest;

fn strings(v: &[&str]) -> Vec<String> {
    v.iter().map(|s| s.to_string()).collect()
}

#[test]
fn default_header_is_the_tip() {
    assert_eq!(header_heights(Some(7), 1), vec![7]);
}

#[test]
fn three_headers_from_ten() {
    assert_eq!(header_heights(Some(10), 3), vec![10, 9, 8]);
}

#[test]
fn header_heights_stop_at_genesis() {
    assert_eq!(header_heights(Some(2), 10), vec![2, 1, 0]);
    assert_eq!(header_heights(Some(0), 4), vec![0]);
    assert_eq!(header_heights(None, 4), vec![0]);
    assert_eq!(header_heights(Some(5), 0), Vec::<u64>::new());
    assert_eq!(header_heights(Some(u64::MAX), 2), vec![u64::MAX, u64::MAX - 1]);
}

#[test]
fn decimal_numbers() {
    assert_eq!(parse_u64("0"), Some(0));
    assert_eq!(parse_u64("+42"), Some(42));
    assert_eq!(parse_u64("007"), Some(7));
    assert_eq!(parse_u64("18446744073709551615"), Some(u64::MAX));
    assert_eq!(parse_u64("18446744073709551616"), None);
    assert_eq!(parse_u64("99999999999999999999"), None);
    assert_eq!(parse_u64(""), None);
    assert_eq!(parse_u64("+"), None);
    assert_eq!(parse_u64("-1"), None);
    assert_eq!(parse_u64("12a"), None);
    assert_eq!(parse_u64(" 1"), None);
    assert_eq!(decimal(0), "0");
    assert_eq!(decimal(1234), "1234");
    assert_eq!(decimal(u64::MAX), "18446744073709551615");
}

#[test]
fn line_words() {
    assert_eq!(split_words(""), Vec::<String>::new());
    assert_eq!(split_words(" a\tbb  c\n"), strings(&["a", "bb", "c"]));
    assert_eq!(split_words("a\u{0B}b\u{2003}c\u{85}"), strings(&["a", "b", "c"]));
    assert_eq!(split_words("\u{3000}"), Vec::<String>::new());
}

#[test]
fn send_request_fixed_fee_and_message() {
    assert_eq!(
        send_request(1000, true),
        Ok(SendRequest {
            amount: 1000,
            fee_per_gram: 25,
            message: "coinbase reward from mining".to_string(),
        })
    );
}

#[test]
fn send_request_refuses_bad_destination() {
    assert_eq!(
        send_request(1000, false),
        Err(strings(&[
            "Command entered incorrectly, please use the following format: ",
            "send_tari [amount of tari to send] [public key to send to]",
        ]))
    );
}

#[test]
fn send_results() {
    assert_eq!(
        send_report(1500, "ab12", &Ok(())),
        strings(&["Send 1500 Tari to ab12"])
    );
    assert_eq!(
        send_report(1500, "ab12", &Err("timeout".to_string())),
        strings(&["Something went wrong sending funds", "timeout"])
    );
}

#[test]
fn peer_and_connection_lists() {
    assert_eq!(
        peers_report(&strings(&["p1", "p2"])),
        strings(&["\np1\np2", "2 peer(s) known by this node"])
    );
    assert_eq!(peers_report(&vec![]), strings(&["", "0 peer(s) known by this node"]));
    assert_eq!(
        connections_report(&vec![]),
        strings(&["No active peer connections."])
    );
    assert_eq!(
        connections_report(&strings(&["c1"])),
        strings(&["\nc1", "1 active connection(s)"])
    );
}

#[test]
fn header_and_service_results() {
    assert_eq!(
        headers_report(&Ok(strings(&["h10", "h9"]))),
        strings(&["\n\nh10\n\nh9"])
    );
    assert_eq!(
        headers_report(&Err("gone".to_string())),
        strings(&["Failed to retrieve headers: gone"])
    );
    assert_eq!(
        chain_height_failure("gone"),
        strings(&["Failed to retrieve chain height: gone"])
    );
    assert_eq!(
        balance_report(&Ok("5 T".to_string())),
        strings(&["Balances:\n5 T"])
    );
    assert_eq!(
        balance_report(&Err("x".to_string())),
        strings(&["Something went wrong"])
    );
    assert_eq!(
        chain_metadata_report(&Ok("m".to_string())),
        strings(&["Current meta data is is: m"])
    );
    assert_eq!(
        chain_metadata_report(&Err("e".to_string())),
        strings(&["Failed to retrieve chain metadata: e"])
    );
}
