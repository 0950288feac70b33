use vstd::prelude::*;

use crate::console::{send_format_hint, send_format_lines};
use crate::text::texts;

verus! {

/// The heights of the headers that list-headers fetches: counting down from the tip
/// `tip` to the genesis block, at most `count` of them.
pub open spec fn heights_of(tip: nat, count: nat) -> Seq<u64> {
    let n = if count <= tip + 1 {
        count
    } else {
        tip + 1
    };
    Seq::new(n, |i: int| (tip - i) as u64)
}

/// The heights of the latest `count` headers below the chain tip `tip`, highest first.
/// An unknown tip (the chain state could not be had) counts as height zero.
pub fn header_heights(tip: Option<u64>, count: u64) -> (r: Vec<u64>)
    ensures
        r@ == heights_of(
            match tip {
                Some(h) => h as nat,
                None => 0,
            },
            count as nat,
        ),
{
    let h: u64 = match tip {
        Some(h) => h,
        None => 0,
    };
    let n: u64 = if count <= h {
        count
    } else {
        h + 1
    };
    let mut out: Vec<u64> = Vec::new();
    let mut i: u64 = 0;
    while i < n
        invariant
            n <= h as nat + 1,
            i <= n,
            out@.len() == i,
            forall|j: int| 0 <= j < i ==> out@[j] == (h - j) as u64,
        decreases n - i,
    {
        out.push(h - i);
        i = i + 1;
    }
    assert(out@ == heights_of(h as nat, count as nat));
    out
}

/// The character that writes the digit `d`.
pub open spec fn digit_char(d: nat) -> char {
    seq!['0', '1', '2', '3', '4', '5', '6', '7', '8', '9'][d as int]
}

/// `n` written in decimal, without leading zeros.
pub open spec fn decimal_text(n: nat) -> Seq<char>
    decreases n,
{
    if n < 10 {
        seq![digit_char(n)]
    } else {
        decimal_text(n / 10).push(digit_char(n % 10))
    }
}

/// `n` written in decimal.
pub fn decimal(n: u64) -> (r: String)
    ensures
        r@ == decimal_text(n as nat),
    decreases n,
{
    let digits = "0123456789";
    proof {
        reveal_strlit("0123456789");
        assert(digits@ == seq!['0', '1', '2', '3', '4', '5', '6', '7', '8', '9']);
    }
    let d = (n % 10) as usize;
    let last = digits.substring_char(d, d + 1);
    assert(last@ == seq![digit_char(d as nat)]);
    if n < 10 {
        String::from_str(last)
    } else {
        let front = decimal(n / 10);
        front.concat(last)
    }
}

/// Each item preceded by `sep`, all in one text.
pub open spec fn items_text(items: Seq<Seq<char>>, sep: Seq<char>) -> Seq<char>
    decreases items.len(),
{
    if items.len() == 0 {
        Seq::empty()
    } else {
        items_text(items.drop_last(), sep) + sep + items.last()
    }
}

/// Each item preceded by `sep`, all in one text.
fn prefixed_items(items: &Vec<String>, sep: &str) -> (r: String)
    ensures
        r@ == items_text(texts(items@), sep@),
{
    let mut out = String::new();
    let mut i: usize = 0;
    while i < items.len()
        invariant
            i <= items@.len(),
            out@ == items_text(texts(items@).subrange(0, i as int), sep@),
        decreases items@.len() - i,
    {
        assert(texts(items@).subrange(0, i + 1).drop_last() == texts(items@).subrange(0, i as int));
        out.append(sep);
        out.append(items[i].as_str());
        i = i + 1;
    }
    assert(texts(items@).subrange(0, items@.len() as int) == texts(items@));
    out
}

/// The fee per gram of every transaction the console sends, in micro-units.
pub const SEND_FEE_PER_GRAM: u64 = 25;

/// A transaction for the wallet to send.
#[derive(Clone, Debug, PartialEq, Eq)]
pub struct SendRequest {
    pub amount: u64,
    pub fee_per_gram: u64,
    pub message: String,
}

/// The message attached to every transaction the console sends.
pub open spec fn send_message() -> Seq<char> {
    "coinbase reward from mining"@
}

/// What becomes of a checked send-tari once its destination has been decoded:
/// a transaction with the fixed fee and message where the destination is a public key,
/// else the format hint.
pub fn send_request(amount: u64, destination_valid: bool) -> (r: Result<SendRequest, Vec<String>>)
    ensures
        destination_valid ==> r is Ok && r->Ok_0.amount == amount && r->Ok_0.fee_per_gram == 25
            && r->Ok_0.message@ == send_message(),
        !destination_valid ==> r is Err && texts(r->Err_0@) == send_format_lines(),
{
    if destination_valid {
        Ok(SendRequest { amount, fee_per_gram: SEND_FEE_PER_GRAM, message: String::from_str("coinbase reward from mining") })
    } else {
        Err(send_format_hint())
    }
}


/// What get-balance prints once the wallet answers (`Ok` with the balance as text).
pub fn balance_report(result: &Result<String, String>) -> (r: Vec<String>)
    ensures
        texts(r@) == match result {
            Ok(b) => seq!["Balances:\n"@ + b@],
            Err(_) => seq!["Something went wrong"@],
        },
{
    let line = match result {
        Ok(b) => String::from_str("Balances:\n").concat(b.as_str()),
        Err(_) => String::from_str("Something went wrong"),
    };
    let r = vec![line];
    assert(texts(r@) =~= seq![line@]);
    r
}

/// What get-chain-metadata prints once the node answers.
pub fn chain_metadata_report(result: &Result<String, String>) -> (r: Vec<String>)
    ensures
        texts(r@) == match result {
            Ok(m) => seq!["Current meta data is is: "@ + m@],
            Err(e) => seq!["Failed to retrieve chain metadata: "@ + e@],
        },
{
    let line = match result {
        Ok(m) => String::from_str("Current meta data is is: ").concat(m.as_str()),
        Err(e) => String::from_str("Failed to retrieve chain metadata: ").concat(e.as_str()),
    };
    let r = vec![line];
    assert(texts(r@) =~= seq![line@]);
    r
}

/// What list-headers prints when the chain tip could not be had; it goes on from
/// height zero.
pub fn chain_height_failure(error: &str) -> (r: Vec<String>)
    ensures
        texts(r@) == seq!["Failed to retrieve chain height: "@ + error@],
{
    let line = String::from_str("Failed to retrieve chain height: ").concat(error);
    let r = vec![line];
    assert(texts(r@) =~= seq![line@]);
    r
}

/// What list-headers prints once the headers arrive, each given as text.
pub fn headers_report(result: &Result<Vec<String>, String>) -> (r: Vec<String>)
    ensures
        texts(r@) == match result {
            Ok(h) => seq![items_text(texts(h@), "\n\n"@)],
            Err(e) => seq!["Failed to retrieve headers: "@ + e@],
        },
{
    let line = match result {
        Ok(h) => prefixed_items(h, "\n\n"),
        Err(e) => String::from_str("Failed to retrieve headers: ").concat(e.as_str()),
    };
    let r = vec![line];
    assert(texts(r@) =~= seq![line@]);
    r
}

/// What list-peers prints: each known peer on a line of its own, then their number.
pub fn peers_report(peers: &Vec<String>) -> (r: Vec<String>)
    ensures
        texts(r@) == seq![
            items_text(texts(peers@), "\n"@),
            decimal_text(peers@.len()) + " peer(s) known by this node"@,
        ],
{
    let list = prefixed_items(peers, "\n");
    let count = decimal(peers.len() as u64).concat(" peer(s) known by this node");
    let r = vec![list, count];
    assert(texts(r@) =~= seq![list@, count@]);
    r
}

/// What list-connections prints: a notice where there are none, else each connection
/// on a line of its own, then their number.
pub fn connections_report(connections: &Vec<String>) -> (r: Vec<String>)
    ensures
        texts(r@) == if connections@.len() == 0 {
            seq!["No active peer connections."@]
        } else {
            seq![
                items_text(texts(connections@), "\n"@),
                decimal_text(connections@.len()) + " active connection(s)"@,
            ]
        },
{
    if connections.len() == 0 {
        let r = vec![String::from_str("No active peer connections.")];
        assert(texts(r@) =~= seq!["No active peer connections."@]);
        return r;
    }
    let list = prefixed_items(connections, "\n");
    let count = decimal(connections.len() as u64).concat(" active connection(s)");
    let r = vec![list, count];
    assert(texts(r@) =~= seq![list@, count@]);
    r
}

/// What send-tari prints once the wallet answers; `destination` is the public key
/// as text.
pub fn send_report(amount: u64, destination: &str, result: &Result<(), String>) -> (r: Vec<String>)
    ensures
        texts(r@) == match result {
            Ok(_) => seq!["Send "@ + decimal_text(amount as nat) + " Tari to "@ + destination@],
            Err(e) => seq!["Something went wrong sending funds"@, e@],
        },
{
    match result {
        Ok(_) => {
            let line = String::from_str("Send ").concat(decimal(amount).as_str()).concat(
                " Tari to ",
            ).concat(destination);
            let r = vec![line];
            assert(texts(r@) =~= seq![line@]);
            r
        },
        Err(e) => {
            let r = vec![String::from_str("Something went wrong sending funds"), e.clone()];
            assert(texts(r@) =~= seq!["Something went wrong sending funds"@, e@]);
            r
        },
    }
}

} // verus!
