//! What an invocation asks for: the keywords with a fixed answer, and the
//! classification of an argument list.

use vstd::prelude::*;
use crate::amount::{amount_of, is_digit, parse_amount, unsigned_part};
use crate::text::same_text;

verus! {

/// The usage text.
pub const HELP_MESSAGE: &'static str = "\nYou need at least one argument. So like a number (to get an invoice for that amount), an invoice string (to be paid), or an address + number (to be paid).\n\nSpecial commands:\n  - \"help\" to see this message\n  - \"a\" to get an address\n  - \"ln\" to get the faucet lightning address\n  - \"f\" to get the federation invite code\n";

/// The on-chain address of the faucet.
pub const FAUCET_ADDRESS: &'static str = "tb1qd28npep0s8frcm3y7dxqajkcy2m40eysplyr9v";

/// The lightning address of the faucet.
pub const FAUCET_LIGHTNING_ADDRESS: &'static str = "refund@lnurl-staging.mutinywallet.com";

/// The invite code of the faucet's federation.
pub const FEDERATION_INVITE_CODE: &'static str = "fed11qgqzc2nhwden5te0vejkg6tdd9h8gepwvejkg6tdd9h8garhduhx6at5d9h8jmn9wshxxmmd9uqqzgxg6s3evnr6m9zdxr6hxkdkukexpcs3mn7mj3g5pc5dfh63l4tj6g9zk4er";

/// A word that is answered with a fixed text, without asking the faucet.
#[derive(Clone, Copy, Debug, PartialEq, Eq, Structural)]
pub enum Keyword {
    /// `help`: the usage text.
    Help,
    /// `a`: the faucet's on-chain address.
    Address,
    /// `ln`: the faucet's lightning address.
    Lightning,
    /// `f`: the federation invite code.
    Federation,
}

/// The keyword that the text `s` spells, if it spells one.
pub open spec fn keyword_of(s: Seq<char>) -> Option<Keyword> {
    if s == "a"@ {
        Some(Keyword::Address)
    } else if s == "f"@ {
        Some(Keyword::Federation)
    } else if s == "ln"@ {
        Some(Keyword::Lightning)
    } else if s == "help"@ {
        Some(Keyword::Help)
    } else {
        None
    }
}

/// The fixed text that answers a keyword.
pub open spec fn keyword_text(k: Keyword) -> Seq<char> {
    match k {
        Keyword::Help => HELP_MESSAGE@,
        Keyword::Address => FAUCET_ADDRESS@,
        Keyword::Lightning => FAUCET_LIGHTNING_ADDRESS@,
        Keyword::Federation => FEDERATION_INVITE_CODE@,
    }
}

/// Reads a keyword.
pub fn parse_keyword(command: &str) -> (r: Option<Keyword>)
    ensures
        r == keyword_of(command@),
{
    if same_text(command, "a") {
        Some(Keyword::Address)
    } else if same_text(command, "f") {
        Some(Keyword::Federation)
    } else if same_text(command, "ln") {
        Some(Keyword::Lightning)
    } else if same_text(command, "help") {
        Some(Keyword::Help)
    } else {
        None
    }
}

impl Keyword {
    /// The fixed text that answers this keyword.
    pub fn text(self) -> (r: &'static str)
        ensures
            r@ == keyword_text(self),
    {
        match self {
            Keyword::Help => HELP_MESSAGE,
            Keyword::Address => FAUCET_ADDRESS,
            Keyword::Lightning => FAUCET_LIGHTNING_ADDRESS,
            Keyword::Federation => FEDERATION_INVITE_CODE,
        }
    }
}

/// The answer to `command` if it is a keyword, and `None` if it is not.
pub fn handle_special_commands(command: &str) -> (r: Option<&'static str>)
    ensures
        match keyword_of(command@) {
            Some(k) => r matches Some(t) && t@ == keyword_text(k),
            None => r is None,
        },
{
    match parse_keyword(command) {
        Some(k) => Some(k.text()),
        None => None,
    }
}

/// No keyword reads as an amount.
pub proof fn lemma_keyword_is_no_amount(s: Seq<char>)
    requires
        keyword_of(s) is Some,
    ensures
        amount_of(s) is None,
{
    reveal_strlit("a");
    reveal_strlit("f");
    reveal_strlit("ln");
    reveal_strlit("help");
    assert(s.len() > 0);
    assert(s[0] != '+');
    assert(unsigned_part(s) == s);
    assert(!is_digit(s[0]));
}

/// What an invocation asks for.
#[derive(Clone, Debug, PartialEq, Eq)]
pub enum Command {
    /// A keyword, answered with its fixed text.
    Special(Keyword),
    /// An amount, for which an invoice is requested.
    Amount(u64),
    /// An invoice, which is handed in to be paid.
    Invoice(String),
    /// An address and an amount to be paid to it.
    AddressPay { address: String, amount: u64 },
    /// Two arguments that are both amounts, or neither of them one.
    Invalid,
    /// No argument, or more than two.
    Usage,
}

/// What an invocation asks for, as a mathematical value.
pub ghost enum CommandView {
    Special(Keyword),
    Amount(u64),
    Invoice(Seq<char>),
    AddressPay { address: Seq<char>, amount: u64 },
    Invalid,
    Usage,
}

impl View for Command {
    type V = CommandView;

    open spec fn view(&self) -> CommandView {
        match self {
            Command::Special(k) => CommandView::Special(*k),
            Command::Amount(n) => CommandView::Amount(*n),
            Command::Invoice(s) => CommandView::Invoice(s@),
            Command::AddressPay { address, amount } => CommandView::AddressPay {
                address: address@,
                amount: *amount,
            },
            Command::Invalid => CommandView::Invalid,
            Command::Usage => CommandView::Usage,
        }
    }
}

/// The texts of an argument list.
pub open spec fn texts(args: Seq<String>) -> Seq<Seq<char>> {
    args.map_values(|s: String| s@)
}

/// What a single argument asks for: a keyword is taken as such, any other
/// text that reads as an amount is an amount, and everything else is an
/// invoice.
pub open spec fn single(word: Seq<char>) -> CommandView {
    match keyword_of(word) {
        Some(k) => CommandView::Special(k),
        None => match amount_of(word) {
            Some(n) => CommandView::Amount(n),
            None => CommandView::Invoice(word),
        },
    }
}

/// What two arguments ask for: where exactly one of them reads as an amount,
/// a payment of that amount to the other one, in whichever order they come.
pub open spec fn pair(first: Seq<char>, second: Seq<char>) -> CommandView {
    match (amount_of(first), amount_of(second)) {
        (Some(n), None) => CommandView::AddressPay { address: second, amount: n },
        (None, Some(n)) => CommandView::AddressPay { address: first, amount: n },
        _ => CommandView::Invalid,
    }
}

/// What the argument list `args` asks for. The list starts with the name of
/// the program, which is not looked at.
pub open spec fn classification(args: Seq<Seq<char>>) -> CommandView {
    if args.len() == 2 {
        single(args[1])
    } else if args.len() == 3 {
        pair(args[1], args[2])
    } else {
        CommandView::Usage
    }
}

/// Classifies a single argument.
pub fn classify_single(word: &str) -> (r: Command)
    ensures
        r@ == single(word@),
{
    match parse_keyword(word) {
        Some(k) => Command::Special(k),
        None => match parse_amount(word) {
            Some(n) => Command::Amount(n),
            None => Command::Invoice(word.to_owned()),
        },
    }
}

/// Classifies two arguments.
pub fn classify_pair(first: &str, second: &str) -> (r: Command)
    ensures
        r@ == pair(first@, second@),
{
    match (parse_amount(first), parse_amount(second)) {
        (Some(n), None) => Command::AddressPay { address: second.to_owned(), amount: n },
        (None, Some(n)) => Command::AddressPay { address: first.to_owned(), amount: n },
        _ => Command::Invalid,
    }
}

/// Classifies an argument list, the name of the program included.
pub fn classify(args: &Vec<String>) -> (r: Command)
    ensures
        r@ == classification(texts(args@)),
{
    if args.len() == 2 {
        classify_single(args[1].as_str())
    } else if args.len() == 3 {
        classify_pair(args[1].as_str(), args[2].as_str())
    } else {
        Command::Usage
    }
}

/// The order of two arguments does not matter.
pub proof fn lemma_pair_order_is_immaterial(first: Seq<char>, second: Seq<char>)
    ensures
        pair(first, second) == pair(second, first),
{
}

} // verus!
