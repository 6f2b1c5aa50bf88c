//! The course of one invocation: what to do with the arguments, and what to
//! print once the faucet has answered.
//!
//! An invocation sends at most one request. [`start`] decides from the
//! arguments whether one is sent; the caller sends it and hands the answer to
//! [`finish`], which decides what is printed.

use vstd::prelude::*;
use crate::amount::{amount_of, decimal, lemma_written_amount_reads_back};
use crate::command::{
    classification, classify, keyword_of, keyword_text, lemma_keyword_is_no_amount, texts,
    Command, CommandView, HELP_MESSAGE,
};
use crate::wire::{
    get_invoice_reply, get_invoice_request, invoice_request, lightning_request, onchain_request,
    pay_address_request, pay_invoice_request, payment_reply, reply_invoice, status_line, Request,
    RequestView,
};

verus! {

/// What is printed when the answer to a request for an invoice cannot be
/// read.
pub const UNDECODABLE_MESSAGE: &'static str = "Error: error decoding response body";

/// Which of the faucet's three services a request goes to.
#[derive(Clone, Copy, Debug, PartialEq, Eq, Structural)]
pub enum Call {
    /// An invoice is requested.
    GetInvoice,
    /// An invoice is handed in to be paid.
    PayInvoice,
    /// A payment to an address is requested.
    PayAddress,
}

impl Call {
    /// Whether the body of the answer is read. Of the answer to a payment
    /// request only the status code is.
    pub fn reads_body(self) -> (r: bool)
        ensures
            r == (self == Call::GetInvoice),
    {
        match self {
            Call::GetInvoice => true,
            _ => false,
        }
    }
}

/// A line of output.
#[derive(Clone, Debug, PartialEq, Eq)]
pub enum Output {
    /// A line on standard output.
    Stdout(String),
    /// A line on standard error.
    Stderr(String),
}

/// A line of output, as a mathematical value.
pub ghost enum OutputView {
    Stdout(Seq<char>),
    Stderr(Seq<char>),
}

impl View for Output {
    type V = OutputView;

    open spec fn view(&self) -> OutputView {
        match self {
            Output::Stdout(s) => OutputView::Stdout(s@),
            Output::Stderr(s) => OutputView::Stderr(s@),
        }
    }
}

/// What to do first.
#[derive(Clone, Debug, PartialEq, Eq)]
pub enum Step {
    /// Print the line and stop. Nothing is sent.
    Say(Output),
    /// Stop without a word. Nothing is sent.
    Idle,
    /// Send the request, and go on with the answer.
    Send(Call, Request),
}

/// What to do first, as a mathematical value.
pub ghost enum StepView {
    Say(OutputView),
    Idle,
    Send(Call, RequestView),
}

impl View for Step {
    type V = StepView;

    open spec fn view(&self) -> StepView {
        match self {
            Step::Say(o) => StepView::Say(o@),
            Step::Idle => StepView::Idle,
            Step::Send(call, request) => StepView::Send(*call, request@),
        }
    }
}

/// What came of sending a request.
#[derive(Clone, Debug, PartialEq, Eq)]
pub enum Reply {
    /// The faucet answered with this status code and body. For a call whose
    /// body is not read the body is left empty.
    Answered { status: u16, body: Vec<u8> },
    /// The request could not be sent or the answer could not be received.
    Failed { details: String },
}

/// What came of sending a request, as a mathematical value.
pub ghost enum ReplyView {
    Answered { status: u16, body: Seq<u8> },
    Failed { details: Seq<char> },
}

impl View for Reply {
    type V = ReplyView;

    open spec fn view(&self) -> ReplyView {
        match self {
            Reply::Answered { status, body } => ReplyView::Answered { status: *status, body: body@ },
            Reply::Failed { details } => ReplyView::Failed { details: details@ },
        }
    }
}

/// The first step for each kind of command.
pub open spec fn step_for(command: CommandView) -> StepView {
    match command {
        CommandView::Special(k) => StepView::Say(OutputView::Stdout(keyword_text(k))),
        CommandView::Amount(n) => StepView::Send(Call::GetInvoice, invoice_request(n)),
        CommandView::Invoice(s) => StepView::Send(Call::PayInvoice, lightning_request(s)),
        CommandView::AddressPay { address, amount } => StepView::Send(
            Call::PayAddress,
            onchain_request(address, amount),
        ),
        CommandView::Invalid => StepView::Idle,
        CommandView::Usage => StepView::Say(OutputView::Stderr(HELP_MESSAGE@)),
    }
}

/// The first step of an invocation with the argument list `args`.
pub open spec fn first_step(args: Seq<Seq<char>>) -> StepView {
    step_for(classification(args))
}

/// What is printed after the call `call` came to `reply`.
///
/// A failure is reported on standard error. Any answer to a payment request
/// is reported by its status code, whatever the code. Of the answer to a
/// request for an invoice the body is read: the invoice in it is printed, and
/// a body that is no JSON document is reported on standard error.
pub open spec fn last_output(call: Call, reply: ReplyView) -> OutputView {
    match reply {
        ReplyView::Failed { details } => OutputView::Stderr("Error: "@ + details),
        ReplyView::Answered { status, body } => match call {
            Call::GetInvoice => match reply_invoice(body) {
                Some(invoice) => OutputView::Stdout(invoice),
                None => OutputView::Stderr(UNDECODABLE_MESSAGE@),
            },
            _ => OutputView::Stdout(status_line(status)),
        },
    }
}

/// Decides the first step for a command.
pub fn step(command: Command) -> (r: Step)
    ensures
        r@ == step_for(command@),
{
    match command {
        Command::Special(k) => Step::Say(Output::Stdout(k.text().to_owned())),
        Command::Amount(n) => Step::Send(Call::GetInvoice, get_invoice_request(n)),
        Command::Invoice(s) => Step::Send(Call::PayInvoice, pay_invoice_request(s.as_str())),
        Command::AddressPay { address, amount } => Step::Send(
            Call::PayAddress,
            pay_address_request(address.as_str(), amount),
        ),
        Command::Invalid => Step::Idle,
        Command::Usage => Step::Say(Output::Stderr(HELP_MESSAGE.to_owned())),
    }
}

/// Decides the first step of an invocation from its argument list, the name
/// of the program included.
pub fn start(args: &Vec<String>) -> (r: Step)
    ensures
        r@ == first_step(texts(args@)),
{
    step(classify(args))
}

/// Decides what is printed after the call `call` came to `reply`.
pub fn finish(call: Call, reply: &Reply) -> (r: Output)
    ensures
        r@ == last_output(call, reply@),
{
    match reply {
        Reply::Failed { details } => Output::Stderr(
            "Error: ".to_owned().concat(details.as_str()),
        ),
        Reply::Answered { status, body } => match call {
            Call::GetInvoice => match get_invoice_reply(body.as_slice()) {
                Ok(invoice) => Output::Stdout(invoice),
                Err(_) => Output::Stderr(UNDECODABLE_MESSAGE.to_owned()),
            },
            _ => Output::Stdout(payment_reply(*status)),
        },
    }
}

/// A keyword as the only argument is answered on standard output with the
/// fixed text of that keyword, and nothing is sent.
pub proof fn lemma_keyword_is_answered(args: Seq<Seq<char>>)
    requires
        args.len() == 2,
        keyword_of(args[1]) is Some,
    ensures
        first_step(args) == StepView::Say(
            OutputView::Stdout(keyword_text(keyword_of(args[1])->0)),
        ),
        !(first_step(args) is Send),
{
}

/// An amount as the only argument, however it is written, asks for an
/// invoice over exactly that amount.
pub proof fn lemma_amount_requests_invoice(args: Seq<Seq<char>>, n: u64)
    requires
        args.len() == 2,
        amount_of(args[1]) == Some(n),
    ensures
        first_step(args) == StepView::Send(Call::GetInvoice, invoice_request(n)),
{
    if keyword_of(args[1]) is Some {
        lemma_keyword_is_no_amount(args[1]);
    }
}

/// Every 64-bit number, written in decimal as the only argument, asks for an
/// invoice over that number of satoshis.
pub proof fn lemma_number_requests_invoice(program: Seq<char>, n: u64)
    ensures
        first_step(seq![program, decimal(n as nat)]) == StepView::Send(
            Call::GetInvoice,
            invoice_request(n),
        ),
{
    lemma_written_amount_reads_back(n);
    lemma_amount_requests_invoice(seq![program, decimal(n as nat)], n);
}

/// A single argument that is no amount is handed in as an invoice, unchanged,
/// unless it is a keyword.
pub proof fn lemma_text_is_paid_as_invoice(args: Seq<Seq<char>>)
    requires
        args.len() == 2,
        amount_of(args[1]) is None,
        keyword_of(args[1]) is None,
    ensures
        first_step(args) == StepView::Send(Call::PayInvoice, lightning_request(args[1])),
{
}

/// Of two arguments of which exactly one is an amount, that amount is paid to
/// the other argument, in whichever order the two come.
pub proof fn lemma_address_is_paid(args: Seq<Seq<char>>, address: Seq<char>, n: u64)
    requires
        args.len() == 3,
        (args[1] == address && amount_of(args[2]) == Some(n)) || (args[2] == address && amount_of(
            args[1],
        ) == Some(n)),
        amount_of(address) is None,
    ensures
        first_step(args) == StepView::Send(Call::PayAddress, onchain_request(address, n)),
{
}

/// Two arguments that are both amounts, or neither of them one, come to
/// nothing: no output and no request.
pub proof fn lemma_ambiguous_pair_is_ignored(args: Seq<Seq<char>>)
    requires
        args.len() == 3,
        (amount_of(args[1]) is Some) == (amount_of(args[2]) is Some),
    ensures
        first_step(args) == StepView::Idle,
{
}

/// Without an argument, or with more than two, the usage text goes to
/// standard error and nothing is sent.
pub proof fn lemma_other_counts_get_usage(args: Seq<Seq<char>>)
    requires
        args.len() != 2,
        args.len() != 3,
    ensures
        first_step(args) == StepView::Say(OutputView::Stderr(HELP_MESSAGE@)),
{
}

/// A request is sent only for an amount, an invoice, or an address with an
/// amount, and then it is the only one: every other invocation ends with the
/// first step.
pub proof fn lemma_requests_are_sent_for_payments_only(args: Seq<Seq<char>>)
    ensures
        first_step(args) is Send <==> (classification(args) is Amount || classification(
            args,
        ) is Invoice || classification(args) is AddressPay),
{
}

/// The status code of an answer to a payment request is printed as it is,
/// whether or not it reports success.
pub proof fn lemma_any_status_is_printed(call: Call, status: u16, body: Seq<u8>)
    requires
        call != Call::GetInvoice,
    ensures
        last_output(call, ReplyView::Answered { status, body }) == OutputView::Stdout(
            "Status: "@ + decimal(status as nat),
        ),
{
}

} // verus!
