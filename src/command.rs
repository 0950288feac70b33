use vstd::prelude::*;

use crate::text::same_text;

verus! {

/// The commands understood by the base node console, in declaration order.
#[derive(Clone, Copy, PartialEq, Eq, Debug, Structural)]
pub enum BaseNodeCommand {
    Help,
    GetBalance,
    SendTari,
    GetChainMetadata,
    ListPeers,
    ListConnections,
    ListHeaders,
    Whoami,
    ToggleMining,
    Quit,
    Exit,
}

/// A console line whose first word names no command.
#[derive(Clone, Debug, PartialEq, Eq)]
pub enum ParseError {
    Unrecognized(String),
}

/// Every command, in declaration order.
pub open spec fn vocabulary() -> Seq<BaseNodeCommand> {
    seq![
        BaseNodeCommand::Help,
        BaseNodeCommand::GetBalance,
        BaseNodeCommand::SendTari,
        BaseNodeCommand::GetChainMetadata,
        BaseNodeCommand::ListPeers,
        BaseNodeCommand::ListConnections,
        BaseNodeCommand::ListHeaders,
        BaseNodeCommand::Whoami,
        BaseNodeCommand::ToggleMining,
        BaseNodeCommand::Quit,
        BaseNodeCommand::Exit,
    ]
}

/// The canonical token of a command: lower case, words joined by hyphens.
pub open spec fn token_of(c: BaseNodeCommand) -> Seq<char> {
    match c {
        BaseNodeCommand::Help => "help"@,
        BaseNodeCommand::GetBalance => "get-balance"@,
        BaseNodeCommand::SendTari => "send-tari"@,
        BaseNodeCommand::GetChainMetadata => "get-chain-metadata"@,
        BaseNodeCommand::ListPeers => "list-peers"@,
        BaseNodeCommand::ListConnections => "list-connections"@,
        BaseNodeCommand::ListHeaders => "list-headers"@,
        BaseNodeCommand::Whoami => "whoami"@,
        BaseNodeCommand::ToggleMining => "toggle-mining"@,
        BaseNodeCommand::Quit => "quit"@,
        BaseNodeCommand::Exit => "exit"@,
    }
}

/// The tokens of the whole vocabulary, in declaration order.
pub open spec fn vocabulary_tokens() -> Seq<Seq<char>> {
    vocabulary().map_values(|c: BaseNodeCommand| token_of(c))
}

/// The command whose canonical token is exactly `t`, if there is one.
pub open spec fn command_of(t: Seq<char>) -> Option<BaseNodeCommand> {
    if exists|i: int| 0 <= i < vocabulary().len() && token_of(#[trigger] vocabulary()[i]) == t {
        Some(vocabulary()[choose|i: int| 0 <= i < vocabulary().len() && token_of(#[trigger] vocabulary()[i]) == t])
    } else {
        None
    }
}

/// No two commands share a token.
pub proof fn lemma_tokens_distinct(a: BaseNodeCommand, b: BaseNodeCommand)
    ensures
        token_of(a) == token_of(b) <==> a == b,
{
    reveal_strlit("help");
    reveal_strlit("get-balance");
    reveal_strlit("send-tari");
    reveal_strlit("get-chain-metadata");
    reveal_strlit("list-peers");
    reveal_strlit("list-connections");
    reveal_strlit("list-headers");
    reveal_strlit("whoami");
    reveal_strlit("toggle-mining");
    reveal_strlit("quit");
    reveal_strlit("exit");
    if a != b {
        assert(token_of(a).len() != token_of(b).len() || token_of(a)[0] != token_of(b)[0]
            || token_of(a)[1] != token_of(b)[1] || token_of(a)[5] != token_of(b)[5]);
    }
}

/// Every command appears in the vocabulary.
pub proof fn lemma_in_vocabulary(c: BaseNodeCommand)
    ensures
        vocabulary().contains(c),
{
    let i: int = match c {
        BaseNodeCommand::Help => 0,
        BaseNodeCommand::GetBalance => 1,
        BaseNodeCommand::SendTari => 2,
        BaseNodeCommand::GetChainMetadata => 3,
        BaseNodeCommand::ListPeers => 4,
        BaseNodeCommand::ListConnections => 5,
        BaseNodeCommand::ListHeaders => 6,
        BaseNodeCommand::Whoami => 7,
        BaseNodeCommand::ToggleMining => 8,
        BaseNodeCommand::Quit => 9,
        BaseNodeCommand::Exit => 10,
    };
    assert(vocabulary()[i] == c);
}

/// Parsing a command's rendered token gives the command back.
pub proof fn lemma_parse_render(c: BaseNodeCommand)
    ensures
        command_of(token_of(c)) == Some(c),
{
    lemma_in_vocabulary(c);
    let i = choose|i: int| 0 <= i < vocabulary().len() && vocabulary()[i] == c;
    assert(token_of(vocabulary()[i]) == token_of(c));
    let j = choose|j: int| 0 <= j < vocabulary().len() && token_of(#[trigger] vocabulary()[j]) == token_of(c);
    lemma_tokens_distinct(vocabulary()[j], c);
}

impl BaseNodeCommand {
    /// The canonical token of this command.
    pub fn token(&self) -> (r: &'static str)
        ensures
            r@ == token_of(*self),
    {
        match self {
            BaseNodeCommand::Help => "help",
            BaseNodeCommand::GetBalance => "get-balance",
            BaseNodeCommand::SendTari => "send-tari",
            BaseNodeCommand::GetChainMetadata => "get-chain-metadata",
            BaseNodeCommand::ListPeers => "list-peers",
            BaseNodeCommand::ListConnections => "list-connections",
            BaseNodeCommand::ListHeaders => "list-headers",
            BaseNodeCommand::Whoami => "whoami",
            BaseNodeCommand::ToggleMining => "toggle-mining",
            BaseNodeCommand::Quit => "quit",
            BaseNodeCommand::Exit => "exit",
        }
    }

    /// Every command, in declaration order.
    pub fn all() -> (r: Vec<BaseNodeCommand>)
        ensures
            r@ == vocabulary(),
    {
        let r = vec![
            BaseNodeCommand::Help,
            BaseNodeCommand::GetBalance,
            BaseNodeCommand::SendTari,
            BaseNodeCommand::GetChainMetadata,
            BaseNodeCommand::ListPeers,
            BaseNodeCommand::ListConnections,
            BaseNodeCommand::ListHeaders,
            BaseNodeCommand::Whoami,
            BaseNodeCommand::ToggleMining,
            BaseNodeCommand::Quit,
            BaseNodeCommand::Exit,
        ];
        assert(r@ == vocabulary());
        r
    }

    /// The command whose canonical token is exactly `token`; matching is exact and
    /// case sensitive.
    pub fn from_token(token: &str) -> (r: Option<BaseNodeCommand>)
        ensures
            r == command_of(token@),
    {
        let all = BaseNodeCommand::all();
        let mut i: usize = 0;
        while i < all.len()
            invariant
                all@ == vocabulary(),
                i <= all@.len(),
                forall|j: int| 0 <= j < i ==> token_of(#[trigger] vocabulary()[j]) != token@,
            decreases all@.len() - i,
        {
            let c = all[i];
            if same_text(c.token(), token) {
                proof {
                    let k = choose|k: int| 0 <= k < vocabulary().len() && token_of(#[trigger] vocabulary()[k]) == token@;
                    lemma_tokens_distinct(vocabulary()[k], c);
                }
                return Some(c);
            }
            i = i + 1;
        }
        None
    }
}

} // verus!
