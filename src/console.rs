use vstd::prelude::*;

use crate::command::{command_of, lemma_parse_render, token_of, vocabulary, vocabulary_tokens, BaseNodeCommand, ParseError};
use crate::text::{decimal_value, is_space, parse_u64, split_words, starts_with, texts, words, words_from};
use crate::report::heights_of;

verus! {

/// What the console asks of its host after a line was handled: text to print at once,
/// or a request to one of the node's services, with its arguments checked.
#[derive(Clone, Debug, PartialEq, Eq)]
pub enum Reply {
    /// Print these lines; nothing else is to be done.
    Print(Vec<String>),
    GetBalance,
    GetChainMetadata,
    ListPeers,
    ListConnections,
    /// List this many of the latest block headers.
    ListHeaders(u64),
    Whoami,
    /// Send this many micro-units to the destination, once it decodes as a public key.
    SendTari(u64, String),
}

/// A `Reply` as plain values.
pub enum ReplyModel {
    Print(Seq<Seq<char>>),
    GetBalance,
    GetChainMetadata,
    ListPeers,
    ListConnections,
    ListHeaders(u64),
    Whoami,
    SendTari(u64, Seq<char>),
}

impl View for Reply {
    type V = ReplyModel;

    open spec fn view(&self) -> ReplyModel {
        match self {
            Reply::Print(lines) => ReplyModel::Print(texts(lines@)),
            Reply::GetBalance => ReplyModel::GetBalance,
            Reply::GetChainMetadata => ReplyModel::GetChainMetadata,
            Reply::ListPeers => ReplyModel::ListPeers,
            Reply::ListConnections => ReplyModel::ListConnections,
            Reply::ListHeaders(n) => ReplyModel::ListHeaders(*n),
            Reply::Whoami => ReplyModel::Whoami,
            Reply::SendTari(amount, dest) => ReplyModel::SendTari(*amount, dest@),
        }
    }
}

/// The console's own state: the two flags it shares with the rest of the node.
#[derive(Clone, Copy, Debug, PartialEq, Eq, Structural)]
pub struct Parser {
    pub mining_enabled: bool,
    pub shutdown_requested: bool,
}

/// `items` joined, with `sep` between each two.
pub open spec fn join(items: Seq<Seq<char>>, sep: Seq<char>) -> Seq<char>
    decreases items.len(),
{
    if items.len() == 0 {
        Seq::empty()
    } else if items.len() == 1 {
        items[0]
    } else {
        join(items.drop_last(), sep) + sep + items.last()
    }
}

/// The command a line names (help, for a line with no words).
pub open spec fn line_command(w: Seq<Seq<char>>) -> Option<BaseNodeCommand> {
    if w.len() == 0 {
        Some(BaseNodeCommand::Help)
    } else {
        command_of(w[0])
    }
}

/// The words after the command word.
pub open spec fn line_args(w: Seq<Seq<char>>) -> Seq<Seq<char>> {
    if w.len() == 0 {
        Seq::empty()
    } else {
        w.drop_first()
    }
}

/// The two lines printed for a line whose first word names no command.
pub open spec fn unrecognized_lines(line: Seq<char>) -> Seq<Seq<char>> {
    seq![
        line + " is not a valid command, please enter a valid command"@,
        "Enter help or press tab for available commands"@,
    ]
}

/// The usage text for a help topic.
pub open spec fn help_lines(topic: BaseNodeCommand) -> Seq<Seq<char>> {
    match topic {
        BaseNodeCommand::Help => seq![
            "Available commands are: "@,
            join(vocabulary_tokens(), ", "@),
        ],
        BaseNodeCommand::GetBalance => seq!["Gets your balance"@],
        BaseNodeCommand::SendTari => seq![
            "Sends an amount of Tari to a address call this command via:"@,
            "send_tari [amount of tari to send] [public key to send to]"@,
        ],
        BaseNodeCommand::GetChainMetadata => seq!["Gets your base node chain meta data"@],
        BaseNodeCommand::ListPeers => seq!["Lists the peers that this node knows about"@],
        BaseNodeCommand::ListConnections => seq![
            "Lists the peer connections currently held by this node"@,
        ],
        BaseNodeCommand::ListHeaders => seq![
            "List the last headers up to a maximum of 10 of the current chain"@,
        ],
        BaseNodeCommand::ToggleMining => seq![
            "Enable or disable the miner on this node, calling this command will toggle the state"@,
        ],
        BaseNodeCommand::Whoami => seq![
            "Display identity information about this node, including: public key, node ID and the public address"@,
        ],
        BaseNodeCommand::Quit | BaseNodeCommand::Exit => seq!["Exits the base node"@],
    }
}

/// The help topic named by the arguments: help itself where none or an unknown one is
/// named.
pub open spec fn help_topic(args: Seq<Seq<char>>) -> BaseNodeCommand {
    if args.len() == 0 {
        BaseNodeCommand::Help
    } else {
        match command_of(args[0]) {
            Some(c) => c,
            None => BaseNodeCommand::Help,
        }
    }
}

/// The hint printed when send-tari is not given exactly an amount and a destination.
pub open spec fn send_format_lines() -> Seq<Seq<char>> {
    seq![
        "Command entered incorrectly, please use the following format: "@,
        "send_tari [amount of tari to send] [public key to send to]"@,
    ]
}

/// What send-tari asks for, given the words after the command: the transfer where
/// they are exactly an amount in micro-units that fits in 64 bits and a destination,
/// else the format hint.
pub open spec fn send_tari_reply(args: Seq<Seq<char>>) -> ReplyModel {
    if args.len() != 2 {
        ReplyModel::Print(send_format_lines())
    } else {
        match decimal_value(args[0]) {
            Some(v) => if v <= u64::MAX {
                ReplyModel::SendTari(v as u64, args[1])
            } else {
                ReplyModel::Print(send_format_lines())
            },
            None => ReplyModel::Print(send_format_lines()),
        }
    }
}

/// How many headers list-headers asks for: the positive count given, else one.
pub open spec fn header_count(args: Seq<Seq<char>>) -> u64 {
    if args.len() == 0 {
        1
    } else {
        match decimal_value(args[0]) {
            Some(v) => if 1 <= v <= u64::MAX {
                v as u64
            } else {
                1
            },
            None => 1,
        }
    }
}

/// The state after a command and what it asks for.
pub open spec fn command_step(p: Parser, c: BaseNodeCommand, args: Seq<Seq<char>>) -> (Parser, ReplyModel) {
    match c {
        BaseNodeCommand::Help => (p, ReplyModel::Print(help_lines(help_topic(args)))),
        BaseNodeCommand::GetBalance => (p, ReplyModel::GetBalance),
        BaseNodeCommand::SendTari => (p, send_tari_reply(args)),
        BaseNodeCommand::GetChainMetadata => (p, ReplyModel::GetChainMetadata),
        BaseNodeCommand::ListPeers => (p, ReplyModel::ListPeers),
        BaseNodeCommand::ListConnections => (p, ReplyModel::ListConnections),
        BaseNodeCommand::ListHeaders => (p, ReplyModel::ListHeaders(header_count(args))),
        BaseNodeCommand::Whoami => (p, ReplyModel::Whoami),
        BaseNodeCommand::ToggleMining => (
            Parser { mining_enabled: !p.mining_enabled, ..p },
            ReplyModel::Print(Seq::empty()),
        ),
        BaseNodeCommand::Quit | BaseNodeCommand::Exit => (
            Parser { shutdown_requested: true, ..p },
            ReplyModel::Print(seq!["Shutting down..."@]),
        ),
    }
}

/// The state after a console line and what it asks for.
pub open spec fn console_step(p: Parser, line: Seq<char>) -> (Parser, ReplyModel) {
    let w = words(line);
    match line_command(w) {
        None => (p, ReplyModel::Print(unrecognized_lines(line))),
        Some(c) => command_step(p, c, line_args(w)),
    }
}

/// The format hint for send-tari.
pub fn send_format_hint() -> (r: Vec<String>)
    ensures
        texts(r@) == send_format_lines(),
{
    two_lines(
        "Command entered incorrectly, please use the following format: ",
        "send_tari [amount of tari to send] [public key to send to]",
    )
}

fn one_line(a: &str) -> (r: Vec<String>)
    ensures
        texts(r@) == seq![a@],
{
    let r = vec![String::from_str(a)];
    assert(texts(r@) =~= seq![a@]);
    r
}

fn two_lines(a: &str, b: &str) -> (r: Vec<String>)
    ensures
        texts(r@) == seq![a@, b@],
{
    let r = vec![String::from_str(a), String::from_str(b)];
    assert(texts(r@) =~= seq![a@, b@]);
    r
}

/// The tokens of the whole vocabulary joined by `", "`.
fn vocabulary_listing() -> (r: String)
    ensures
        r@ == join(vocabulary_tokens(), ", "@),
{
    let all = BaseNodeCommand::all();
    let mut out = String::new();
    let mut i: usize = 0;
    while i < all.len()
        invariant
            all@ == vocabulary(),
            i <= all@.len(),
            out@ == join(vocabulary_tokens().subrange(0, i as int), ", "@),
        decreases all@.len() - i,
    {
        let ghost prev = vocabulary_tokens().subrange(0, i as int);
        let ghost next = vocabulary_tokens().subrange(0, i + 1);
        assert(next.drop_last() == prev);
        if i > 0 {
            out.append(", ");
        }
        out.append(all[i].token());
        i = i + 1;
    }
    assert(vocabulary_tokens().subrange(0, all@.len() as int) == vocabulary_tokens());
    out
}

/// The usage text for a help topic.
pub fn print_help(topic: BaseNodeCommand) -> (r: Vec<String>)
    ensures
        texts(r@) == help_lines(topic),
{
    match topic {
        BaseNodeCommand::Help => {
            let listing = vocabulary_listing();
            let r = vec![String::from_str("Available commands are: "), listing];
            assert(texts(r@) =~= help_lines(topic));
            r
        },
        BaseNodeCommand::GetBalance => one_line("Gets your balance"),
        BaseNodeCommand::SendTari => two_lines(
            "Sends an amount of Tari to a address call this command via:",
            "send_tari [amount of tari to send] [public key to send to]",
        ),
        BaseNodeCommand::GetChainMetadata => one_line("Gets your base node chain meta data"),
        BaseNodeCommand::ListPeers => one_line("Lists the peers that this node knows about"),
        BaseNodeCommand::ListConnections => one_line(
            "Lists the peer connections currently held by this node",
        ),
        BaseNodeCommand::ListHeaders => one_line(
            "List the last headers up to a maximum of 10 of the current chain",
        ),
        BaseNodeCommand::ToggleMining => one_line(
            "Enable or disable the miner on this node, calling this command will toggle the state",
        ),
        BaseNodeCommand::Whoami => one_line(
            "Display identity information about this node, including: public key, node ID and the public address",
        ),
        BaseNodeCommand::Quit | BaseNodeCommand::Exit => one_line("Exits the base node"),
    }
}


/// Splits a console line into the command its first word names and the words after
/// it. A line without words names help.
pub fn parse_line(line: &str) -> (r: Result<(BaseNodeCommand, Vec<String>), ParseError>)
    ensures
        match line_command(words(line@)) {
            Some(c) => r is Ok && r->Ok_0.0 == c && texts(r->Ok_0.1@) == line_args(words(line@)),
            None => r is Err && r->Err_0->Unrecognized_0@ == words(line@)[0],
        },
{
    let mut w = split_words(line);
    if w.len() == 0 {
        return Ok((BaseNodeCommand::Help, w));
    }
    let first = w.remove(0);
    assert(texts(w@) =~= line_args(words(line@)));
    match BaseNodeCommand::from_token(first.as_str()) {
        Some(c) => Ok((c, w)),
        None => Err(ParseError::Unrecognized(first)),
    }
}

/// The tokens that complete `line`: those it is a prefix of.
pub open spec fn completions(line: Seq<char>) -> Seq<Seq<char>> {
    vocabulary_tokens().filter(|t: Seq<char>| line.is_prefix_of(t))
}

impl Parser {
    /// A console whose flags start at the given values.
    pub fn new(mining_enabled: bool, shutdown_requested: bool) -> (r: Parser)
        ensures
            r.mining_enabled == mining_enabled,
            r.shutdown_requested == shutdown_requested,
    {
        Parser { mining_enabled, shutdown_requested }
    }

    /// The command tokens that begin with `line`, in declaration order.
    pub fn complete(&self, line: &str) -> (r: Vec<String>)
        ensures
            texts(r@) == completions(line@),
    {
        let all = BaseNodeCommand::all();
        let ghost pred = |t: Seq<char>| line@.is_prefix_of(t);
        let mut out: Vec<String> = Vec::new();
        let mut i: usize = 0;
        while i < all.len()
            invariant
                all@ == vocabulary(),
                i <= all@.len(),
                pred == (|t: Seq<char>| line@.is_prefix_of(t)),
                texts(out@) == vocabulary_tokens().subrange(0, i as int).filter(pred),
            decreases all@.len() - i,
        {
            let tok = all[i].token();
            let ghost prev = vocabulary_tokens().subrange(0, i as int);
            proof {
                assert(vocabulary_tokens().subrange(0, i + 1) == prev.push(tok@));
                prev.lemma_filter_push(tok@, pred);
            }
            if starts_with(tok, line) {
                let t = String::from_str(tok);
                assert(texts(out@.push(t)) == texts(out@).push(t@));
                out.push(t);
            }
            i = i + 1;
        }
        assert(vocabulary_tokens().subrange(0, all@.len() as int) == vocabulary_tokens());
        out
    }

    /// Handles one console line: updates the flags and says what is to be done.
    pub fn handle_command(&mut self, command_str: &str) -> (r: Reply)
        ensures
            (*final(self), r@) == console_step(*old(self), command_str@),
    {
        match parse_line(command_str) {
            Err(_) => {
                let first = String::from_str(command_str).concat(
                    " is not a valid command, please enter a valid command",
                );
                let r = vec![first, String::from_str("Enter help or press tab for available commands")];
                assert(texts(r@) =~= unrecognized_lines(command_str@));
                Reply::Print(r)
            },
            Ok((command, args)) => self.process_command(command, &args),
        }
    }

    /// Carries out a parsed command.
    pub fn process_command(&mut self, command: BaseNodeCommand, args: &Vec<String>) -> (r: Reply)
        ensures
            (*final(self), r@) == command_step(*old(self), command, texts(args@)),
    {
        match command {
            BaseNodeCommand::Help => {
                let topic = if args.len() == 0 {
                    BaseNodeCommand::Help
                } else {
                    match BaseNodeCommand::from_token(args[0].as_str()) {
                        Some(c) => c,
                        None => BaseNodeCommand::Help,
                    }
                };
                Reply::Print(print_help(topic))
            },
            BaseNodeCommand::GetBalance => Reply::GetBalance,
            BaseNodeCommand::SendTari => process_send_tari(args),
            BaseNodeCommand::GetChainMetadata => Reply::GetChainMetadata,
            BaseNodeCommand::ListPeers => Reply::ListPeers,
            BaseNodeCommand::ListConnections => Reply::ListConnections,
            BaseNodeCommand::ListHeaders => Reply::ListHeaders(process_list_headers(args)),
            BaseNodeCommand::Whoami => Reply::Whoami,
            BaseNodeCommand::ToggleMining => {
                self.process_toggle_mining();
                let r: Vec<String> = Vec::new();
                assert(texts(r@) =~= Seq::empty());
                Reply::Print(r)
            },
            BaseNodeCommand::Quit | BaseNodeCommand::Exit => {
                self.shutdown_requested = true;
                Reply::Print(one_line("Shutting down..."))
            },
        }
    }

    /// Switches mining on if it was off, and off if it was on.
    pub fn process_toggle_mining(&mut self)
        ensures
            final(self).mining_enabled == !old(self).mining_enabled,
            final(self).shutdown_requested == old(self).shutdown_requested,
    {
        self.mining_enabled = !self.mining_enabled;
    }
}

/// Checks the words after send-tari: exactly an amount in micro-units and a
/// destination.
pub fn process_send_tari(args: &Vec<String>) -> (r: Reply)
    ensures
        r@ == send_tari_reply(texts(args@)),
{
    if args.len() != 2 {
        return Reply::Print(send_format_hint());
    }
    match parse_u64(args[0].as_str()) {
        None => Reply::Print(send_format_hint()),
        Some(amount) => Reply::SendTari(amount, args[1].clone()),
    }
}

/// The number of headers asked for by the words after list-headers: the first, where
/// it is a positive decimal, else one.
pub fn process_list_headers(args: &Vec<String>) -> (r: u64)
    ensures
        r == header_count(texts(args@)),
{
    if args.len() == 0 {
        return 1;
    }
    assert(texts(args@)[0] == args@[0]@);
    match parse_u64(args[0].as_str()) {
        Some(n) => if n >= 1 {
            n
        } else {
            1
        },
        None => 1,
    }
}


proof fn lemma_words_of_word(s: Seq<char>, i: int, start: int)
    requires
        0 <= start <= i <= s.len(),
        start < s.len(),
        forall|j: int| 0 <= j < s.len() ==> !is_space(#[trigger] s[j]),
    ensures
        words_from(s, i, start) == seq![s.subrange(start, s.len() as int)],
    decreases s.len() - i,
{
    if i < s.len() {
        lemma_words_of_word(s, i + 1, start);
    }
}

/// A line holding just a command's token names that command, with no arguments.
pub proof fn lemma_parse_rendered_line(c: BaseNodeCommand)
    ensures
        line_command(words(token_of(c))) == Some(c),
        line_args(words(token_of(c))) == Seq::<Seq<char>>::empty(),
{
    reveal_strlit("help");
    reveal_strlit("get-balance");
    reveal_strlit("send-tari");
    reveal_strlit("get-chain-metadata");
    reveal_strlit("list-peers");
    reveal_strlit("list-connections");
    reveal_strlit("list-headers");
    reveal_strlit("whoami");
    reveal_strlit("toggle-mining");
    reveal_strlit("quit");
    reveal_strlit("exit");
    let t = token_of(c);
    assert forall|j: int| 0 <= j < t.len() implies !is_space(#[trigger] t[j]) by {
        assert(t[j] == '-' || ('a' <= t[j] && t[j] <= 'z'));
    }
    lemma_words_of_word(t, 0, 0);
    assert(t.subrange(0, t.len() as int) == t);
    lemma_parse_render(c);
    assert(words(t).drop_first() =~= Seq::<Seq<char>>::empty());
}

/// An empty line names help.
pub proof fn lemma_empty_line_is_help(line: Seq<char>)
    requires
        line.len() == 0,
    ensures
        line_command(words(line)) == Some(BaseNodeCommand::Help),
{
}

/// A line whose first word names no command leaves the flags as they were and asks
/// for nothing but the two lines of advice.
pub proof fn lemma_unrecognized_asks_nothing(p: Parser, line: Seq<char>)
    requires
        line_command(words(line)) is None,
    ensures
        console_step(p, line) == (p, ReplyModel::Print(unrecognized_lines(line))),
{
}

/// Toggling mining once flips the flag; toggling it twice restores it.
pub proof fn lemma_toggle_mining(p: Parser, a: Seq<Seq<char>>, b: Seq<Seq<char>>)
    ensures
        command_step(p, BaseNodeCommand::ToggleMining, a).0.mining_enabled == !p.mining_enabled,
        command_step(command_step(p, BaseNodeCommand::ToggleMining, a).0, BaseNodeCommand::ToggleMining, b).0
            == p,
{
}

/// send-tari without both an amount and a destination asks nothing of the wallet and
/// prints the format hint.
pub proof fn lemma_send_tari_too_few_words(p: Parser, args: Seq<Seq<char>>)
    requires
        args.len() < 2,
    ensures
        command_step(p, BaseNodeCommand::SendTari, args) == (p, ReplyModel::Print(send_format_lines())),
{
}

/// send-tari with an amount that is not a decimal asks nothing of the wallet and
/// prints the format hint.
pub proof fn lemma_send_tari_bad_amount(p: Parser, args: Seq<Seq<char>>)
    requires
        args.len() >= 1,
        decimal_value(args[0]) is None,
    ensures
        command_step(p, BaseNodeCommand::SendTari, args) == (p, ReplyModel::Print(send_format_lines())),
{
}

/// list-headers without an argument, at a tip of height `tip`, fetches exactly the
/// header at `tip`.
pub proof fn lemma_list_headers_default(p: Parser, tip: nat)
    ensures
        command_step(p, BaseNodeCommand::ListHeaders, Seq::empty()).1 == ReplyModel::ListHeaders(1),
        tip <= u64::MAX ==> heights_of(tip, 1) == seq![tip as u64],
{
    if tip <= u64::MAX {
        assert(heights_of(tip, 1) =~= seq![tip as u64]);
    }
}

/// quit and exit request shutdown and say so; once requested, it stays requested.
pub proof fn lemma_quit_and_exit(p: Parser, c: BaseNodeCommand, args: Seq<Seq<char>>)
    requires
        c == BaseNodeCommand::Quit || c == BaseNodeCommand::Exit,
    ensures
        command_step(p, c, args).0.shutdown_requested,
        command_step(p, c, args).0.mining_enabled == p.mining_enabled,
        command_step(p, c, args).1 == ReplyModel::Print(seq!["Shutting down..."@]),
        p.shutdown_requested ==> command_step(p, c, args).0 == p,
{
}

} // verus!
