//! The faucet's wire protocol: the three requests it takes and what its
//! answers mean.

use vstd::prelude::*;
use crate::amount::{decimal, decimal_text};
use crate::json::{decode, decoded, member, member_at, Member, MemberView};

verus! {

/// Where an invoice for an amount is asked for.
pub const BOLT11_URL: &'static str = "https://faucet.mutinynet.com/api/bolt11";

/// Where an invoice is handed in to be paid.
pub const LIGHTNING_URL: &'static str = "https://faucet.mutinynet.com/api/lightning";

/// Where an on-chain payment to an address is asked for.
pub const ONCHAIN_URL: &'static str = "https://faucet.mutinynet.com/api/onchain";

/// A value in the body of a request.
#[derive(Clone, Debug, PartialEq, Eq)]
pub enum Field {
    /// An unsigned number.
    Number(u64),
    /// A string.
    Text(String),
}

/// A value in the body of a request, as a mathematical value.
pub ghost enum FieldView {
    Number(u64),
    Text(Seq<char>),
}

impl View for Field {
    type V = FieldView;

    open spec fn view(&self) -> FieldView {
        match self {
            Field::Number(n) => FieldView::Number(*n),
            Field::Text(s) => FieldView::Text(s@),
        }
    }
}

/// One member of the body of a request: a key and the value under it.
#[derive(Clone, Debug, PartialEq, Eq)]
pub struct Entry {
    pub key: String,
    pub value: Field,
}

impl View for Entry {
    type V = (Seq<char>, FieldView);

    open spec fn view(&self) -> (Seq<char>, FieldView) {
        (self.key@, self.value@)
    }
}

/// A request to the faucet: a POST to `url` whose body is the JSON object
/// with the members of `body`, in that order.
#[derive(Clone, Debug, PartialEq, Eq)]
pub struct Request {
    pub url: String,
    pub body: Vec<Entry>,
}

/// A request to the faucet, as a mathematical value.
pub ghost struct RequestView {
    pub url: Seq<char>,
    pub body: Seq<(Seq<char>, FieldView)>,
}

impl View for Request {
    type V = RequestView;

    open spec fn view(&self) -> RequestView {
        RequestView { url: self.url@, body: self.body@.map_values(|e: Entry| e@) }
    }
}

/// The request for an invoice over `amount` satoshis.
pub open spec fn invoice_request(amount: u64) -> RequestView {
    RequestView { url: BOLT11_URL@, body: seq![("amount_sats"@, FieldView::Number(amount))] }
}

/// The request to pay the invoice `invoice`.
pub open spec fn lightning_request(invoice: Seq<char>) -> RequestView {
    RequestView { url: LIGHTNING_URL@, body: seq![("bolt11"@, FieldView::Text(invoice))] }
}

/// The request to pay `amount` satoshis to the address `address`.
pub open spec fn onchain_request(address: Seq<char>, amount: u64) -> RequestView {
    RequestView {
        url: ONCHAIN_URL@,
        body: seq![("address"@, FieldView::Text(address)), ("sats"@, FieldView::Number(amount))],
    }
}

/// Builds the request for an invoice over `amount` satoshis.
pub fn get_invoice_request(amount: u64) -> (r: Request)
    ensures
        r@ == invoice_request(amount),
{
    let body = vec![Entry { key: "amount_sats".to_owned(), value: Field::Number(amount) }];
    let r = Request { url: BOLT11_URL.to_owned(), body };
    assert(r@.body =~= invoice_request(amount).body);
    r
}

/// Builds the request to pay an invoice.
pub fn pay_invoice_request(invoice: &str) -> (r: Request)
    ensures
        r@ == lightning_request(invoice@),
{
    let body = vec![Entry { key: "bolt11".to_owned(), value: Field::Text(invoice.to_owned()) }];
    let r = Request { url: LIGHTNING_URL.to_owned(), body };
    assert(r@.body =~= lightning_request(invoice@).body);
    r
}

/// Builds the request to pay `amount` satoshis to an address.
pub fn pay_address_request(address: &str, amount: u64) -> (r: Request)
    ensures
        r@ == onchain_request(address@, amount),
{
    let body = vec![
        Entry { key: "address".to_owned(), value: Field::Text(address.to_owned()) },
        Entry { key: "sats".to_owned(), value: Field::Number(amount) },
    ];
    let r = Request { url: ONCHAIN_URL.to_owned(), body };
    assert(r@.body =~= onchain_request(address@, amount).body);
    r
}

/// The text of the invoice that an answer carries under `bolt11`: the
/// member's text where it is a string, and the empty text where the member is
/// missing or is no string.
pub open spec fn invoice_text(m: MemberView) -> Seq<char> {
    match m {
        MemberView::Text(text) => text,
        _ => Seq::<char>::empty(),
    }
}

/// The invoice in the body of an answer, or `None` where the body is no JSON
/// document.
pub open spec fn reply_invoice(body: Seq<u8>) -> Option<Seq<char>> {
    match decoded(body) {
        Some(m) => Some(invoice_text(member_at(m, "bolt11"@))),
        None => None,
    }
}

/// The body of an answer is not a JSON document.
#[derive(Clone, Copy, Debug, PartialEq, Eq)]
pub struct Undecodable;

/// The invoice that the `bolt11` member of an answer stands for.
pub fn invoice_of(m: Member) -> (r: String)
    ensures
        r@ == invoice_text(m@),
{
    match m {
        Member::Text(text) => text,
        _ => String::new(),
    }
}

/// Reads the invoice out of the body of the faucet's answer to a request for
/// one.
pub fn get_invoice_reply(body: &[u8]) -> (r: Result<String, Undecodable>)
    ensures
        match r {
            Ok(invoice) => reply_invoice(body@) == Some(invoice@),
            Err(_) => reply_invoice(body@) is None,
        },
{
    match decode(body) {
        Ok(doc) => Ok(invoice_of(member(&doc, "bolt11"))),
        Err(_) => Err(Undecodable),
    }
}

/// The line that reports the status code of an answer.
pub open spec fn status_line(code: u16) -> Seq<char> {
    "Status: "@ + decimal(code as nat)
}

/// Writes the line that reports the status code of the faucet's answer to a
/// payment request.
pub fn payment_reply(code: u16) -> (r: String)
    ensures
        r@ == status_line(code),
{
    let digits = decimal_text(code as u64);
    "Status: ".to_owned().concat(digits.as_str())
}

} // verus!
