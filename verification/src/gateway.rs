//! What the gateway's steps settle, as data: the projection of a queried
//! document and the outcome of every read and write the handlers journal.
//! A szamlazz.hu answer is a value here; the handlers decide what it means.

use vstd::prelude::*;
use vstd::string::*;

use crate::amount::Amount;
use crate::kinds::spec_invoice_family;
use crate::text::{text_eq, trim, trimmed};
use crate::identity::OrderKey;

verus! {

/// A calendar date (`telj`, `kelt`), as szamlazz.hu reports it.
#[derive(Clone, Copy, Debug, PartialEq, Eq, Structural)]
pub struct Date {
    pub year: i16,
    pub month: u8,
    pub day: u8,
}

/// szamlazz.hu answered with a code rather than a document: the code and its
/// message.
#[derive(Debug, PartialEq, Eq)]
pub struct SzamlazzAnswer {
    pub code: String,
    pub message: String,
}

/// The text of an answer as every message repeats it: `{code}: {message}`.
pub open spec fn answer_text(code: Seq<char>, message: Seq<char>) -> Seq<char> {
    code + ": "@ + message
}

impl SzamlazzAnswer {
    /// The answer `code` with `message`.
    pub fn new(code: &str, message: &str) -> (a: SzamlazzAnswer)
        ensures
            a.code@ == code@,
            a.message@ == message@,
    {
        SzamlazzAnswer { code: String::from_str(code), message: String::from_str(message) }
    }

    /// `{code}: {message}`.
    pub fn text(&self) -> (s: String)
        ensures
            s@ == answer_text(self.code@, self.message@),
    {
        self.code.clone().concat(": ").concat(self.message.as_str())
    }
}

/// szamlazz.hu refused a write: the code and message it answered with.
#[derive(Debug, PartialEq, Eq)]
pub struct Rejection {
    pub code: String,
    pub message: String,
}

impl Rejection {
    /// The refusal `answer` carried.
    pub fn from_answer(answer: SzamlazzAnswer) -> (r: Rejection)
        ensures
            r.code == answer.code,
            r.message == answer.message,
    {
        Rejection { code: answer.code, message: answer.message }
    }
}

/// An exchange that settled nothing: the request or its reply was lost.
#[derive(Debug, PartialEq, Eq)]
pub struct Unanswered {
    pub message: String,
}

/// The `tipus` of a storno invoice.
pub open spec fn storno_type() -> Seq<char> {
    "SS"@
}

/// Whether `tipus` is one szamlazz.hu can reverse: an invoice of the ledger's
/// kinds or a corrective.
pub open spec fn spec_stornoable(tipus: Seq<char>) -> bool {
    spec_invoice_family(tipus) || tipus == "HS"@
}

/// An order number as the projection reads it: trimmed, and none when
/// nothing is left.
pub open spec fn spec_order_number(raw: Option<Seq<char>>) -> Option<Seq<char>> {
    match raw {
        Some(text) => if trim(text).len() == 0 {
            None
        } else {
            Some(trim(text))
        },
        None => None,
    }
}

/// The e-invoice flag of an `eszamla` appearance code: `1` is paper, `2`
/// and `3` are e-invoices, anything else (`0`, a proforma) is no invoice
/// appearance.
pub open spec fn spec_e_invoice_of(code: u8) -> Option<bool> {
    if code == 1 {
        Some(false)
    } else if code == 2 || code == 3 {
        Some(true)
    } else {
        None
    }
}

/// The e-invoice flag of an `eszamla` appearance code.
pub fn e_invoice_of_appearance(code: u8) -> (e: Option<bool>)
    ensures
        e == spec_e_invoice_of(code),
{
    if code == 1 {
        Some(false)
    } else if code == 2 || code == 3 {
        Some(true)
    } else {
        None
    }
}

/// The order number of a queried document as the projection reads the raw
/// `rendelesszam`: trimmed, none when empty or whitespace.
pub fn project_order_number(raw: Option<&str>) -> (o: Option<String>)
    ensures
        o.deep_view() == spec_order_number(
            match raw {
                Some(t) => Some(t@),
                None => None,
            },
        ),
{
    match raw {
        Some(text) => {
            let t = trimmed(text);
            if t.as_str().unicode_len() == 0 {
                None
            } else {
                Some(t)
            }
        },
        None => None,
    }
}

/// The ledger-relevant projection of a queried document. Carries no buyer
/// data.
#[derive(Debug, PartialEq, Eq)]
pub struct FoundDocument {
    /// The document number.
    pub number: String,
    /// The `tipus` code: `SZ`, `D`, `ES`, `VS`, `SS`, `HS`, `SL`, ….
    pub document_type: String,
    /// `<sztornozott>`; `None` means live (or a storno document).
    pub reversed: Option<bool>,
    /// The order number, trimmed; none when absent or blank.
    pub order_number: Option<String>,
    /// The proforma this document converted (`hivdijbekszam`).
    pub referenced_proforma: Option<String>,
    /// The invoice this document references (`hivszamlaszam`).
    pub referenced_invoice: Option<String>,
    /// Gross total.
    pub gross: Amount,
    /// Net total.
    pub net: Amount,
    /// Issued from a test account.
    pub test: bool,
    /// Whether it is an e-invoice; `None` for non-invoices.
    pub e_invoice: Option<bool>,
    /// The issuing account's supplier id.
    pub supplier_id: Option<u64>,
    /// szamlazz.hu's document id.
    pub document_id: Option<u64>,
    /// Registered credit entry amounts, in the order the server lists them.
    pub payments: Vec<Amount>,
    /// Found under the order number converting our proforma.
    pub adopted: bool,
    /// The fulfillment date (`telj`).
    pub fulfillment_date: Option<Date>,
}

impl FoundDocument {
    /// Whether the document is live: `reversed != Some(true)`.
    pub open spec fn spec_live(&self) -> bool {
        self.reversed != Some(true)
    }

    /// Whether the document is live.
    pub fn is_live(&self) -> (b: bool)
        ensures
            b == self.spec_live(),
    {
        match self.reversed {
            Some(true) => false,
            _ => true,
        }
    }

    /// Whether the document carries `order`'s number.
    pub open spec fn spec_carries(&self, order: Seq<char>) -> bool {
        self.order_number.deep_view() == Some(order)
    }

    /// Whether the document carries `order`'s number.
    pub fn carries_order(&self, order: &OrderKey) -> (b: bool)
        ensures
            b == self.spec_carries(order@),
    {
        match &self.order_number {
            Some(number) => text_eq(number.as_str(), order.as_str()),
            None => false,
        }
    }

    /// Whether szamlazz.hu can reverse a document of this `tipus`.
    pub fn is_stornoable(&self) -> (b: bool)
        ensures
            b == spec_stornoable(self.document_type@),
    {
        let t = self.document_type.as_str();
        crate::kinds::is_invoice_family(t) || text_eq(t, "HS")
    }

    /// Whether this is the storno (`SS`) reversing `number`.
    pub open spec fn spec_storno_of(&self, number: Seq<char>) -> bool {
        self.document_type@ == storno_type() && self.referenced_invoice.deep_view() == Some(number)
    }

    /// Whether this is the storno (`SS`) reversing `number`.
    pub fn is_storno_of(&self, number: &str) -> (b: bool)
        ensures
            b == self.spec_storno_of(number@),
    {
        text_eq(self.document_type.as_str(), "SS") && match &self.referenced_invoice {
            Some(r) => text_eq(r.as_str(), number),
            None => false,
        }
    }
}

/// A document szamlazz.hu issued in response to a create.
#[derive(Debug, PartialEq, Eq)]
pub struct IssuedDocument {
    pub number: String,
    pub net_total: Option<Amount>,
    pub gross_total: Option<Amount>,
    pub outstanding: Option<Amount>,
    pub customer_account_url: Option<String>,
    pub document_id: Option<u64>,
    /// Issued, but its notification could not be delivered (code 56).
    pub notification_delivery_failed: bool,
}

/// A query by number (a verify) or by a selector.
#[derive(Debug, PartialEq, Eq)]
pub enum QueryOutcome {
    Found(Box<FoundDocument>),
    /// Code 7: szamlazz.hu does not know the selector.
    NotFound,
    /// Another code.
    Api(SzamlazzAnswer),
    /// A credential code (3, 135, 136, 164).
    CredentialsRejected(SzamlazzAnswer),
}

/// A query by one of our external ids, validated against the identity the
/// document should have.
#[derive(Debug, PartialEq, Eq)]
pub enum OwnershipOutcome {
    /// Nothing under the id.
    Absent,
    /// A live document of ours.
    Live(Box<FoundDocument>),
    /// A reversed document of ours.
    Reversed(Box<FoundDocument>),
    /// The newest holder of the id fails validation (another order, kind,
    /// account mode or supplier).
    Collision(Box<FoundDocument>),
    Api(SzamlazzAnswer),
    CredentialsRejected(SzamlazzAnswer),
}

/// The lookup step of the create protocol: the external id and the
/// order-number hint.
#[derive(Debug, PartialEq, Eq)]
pub enum LookupOutcome {
    Absent,
    Live(Box<FoundDocument>),
    /// A reversed document of ours, and its storno when the hint named it.
    Reversed { document: Box<FoundDocument>, storno_number: Option<String> },
    Collision(Box<FoundDocument>),
    /// A live invoice-kind document of another channel under the order.
    Foreign(Box<FoundDocument>),
    Api(SzamlazzAnswer),
    CredentialsRejected(SzamlazzAnswer),
}

/// The settled create step.
#[derive(Debug, PartialEq, Eq)]
pub enum CreateOutcome {
    Issued(IssuedDocument),
    /// An earlier execution of the step created it.
    Found(Box<FoundDocument>),
    /// Issued and reversed since the lookup.
    Reversed(Box<FoundDocument>),
    /// The document the lookup saw reversed is reported live.
    LiveAgain(Box<FoundDocument>),
    Reconciled(Box<FoundDocument>),
    Collision(Box<FoundDocument>),
    DuplicateOrderNumber { answer: SzamlazzAnswer, existing_number: Option<String> },
    Rejected(Rejection),
    CredentialsRejected(SzamlazzAnswer),
    /// The leading query answered with another code; nothing was sent.
    Api(SzamlazzAnswer),
    /// The leading query was answered `szlahu_down`; nothing was sent.
    Unavailable { message: String },
}

/// The storno lookup step: what holds the storno external id.
#[derive(Debug, PartialEq, Eq)]
pub enum StornoLookupOutcome {
    Absent,
    AlreadyReversed { storno_number: String },
    CredentialsRejected(SzamlazzAnswer),
    Api(SzamlazzAnswer),
}

/// A storno invoice szamlazz.hu issued.
#[derive(Debug, PartialEq, Eq)]
pub struct StornoDocument {
    pub number: String,
    pub gross: Option<Amount>,
    pub document_id: Option<u64>,
}

/// The settled storno step.
#[derive(Debug, PartialEq, Eq)]
pub enum StornoOutcome {
    Reversed(StornoDocument),
    AlreadyReversed { storno_number: String },
    /// szamlazz.hu echoed the document unchanged: it cannot be reversed.
    NotStornoable,
    Rejected(Rejection),
    CredentialsRejected(SzamlazzAnswer),
    Api(SzamlazzAnswer),
    Unavailable { message: String },
}

/// The settled delete step.
#[derive(Debug, PartialEq, Eq)]
pub enum DeleteOutcome {
    Deleted,
    /// szamlazz.hu no longer knows the proforma (335).
    AlreadyGone,
    Rejected(Rejection),
    /// The fresh guard found another document pinned.
    TargetChanged,
    /// The fresh guard found a credit entry.
    Paid,
    Api(SzamlazzAnswer),
    /// The fresh guard's read settled nothing.
    GuardFailed(Unanswered),
    CredentialsRejected(SzamlazzAnswer),
    /// The delete's answer was lost.
    Lost(Unanswered),
    /// An answer that settles nothing.
    Inconclusive(SzamlazzAnswer),
}

/// The credentials probe.
#[derive(Debug, PartialEq, Eq)]
pub enum ProbeOutcome {
    Accepted,
    CredentialsRejected { code: String, message: String },
}

/// The code of a refusal that never reached szamlazz.hu: the request broke
/// the wire contract.
pub open spec fn request_code() -> Seq<char> {
    "request"@
}

/// The code of a refusal that never reached szamlazz.hu.
pub fn request_code_text() -> (s: &'static str)
    ensures
        s@ == request_code(),
{
    "request"
}

/// The credit-entry registration.
#[derive(Debug, PartialEq, Eq)]
pub enum SetPaymentsOutcome {
    Done { outstanding: Option<Amount>, gross: Option<Amount> },
    Rejected { code: String, message: String },
    CredentialsRejected { code: String, message: String },
    Transport(String),
}

/// NAV's record of a taxpayer, as szamlazz.hu relays it.
#[derive(Debug, PartialEq, Eq)]
pub struct TaxpayerRecord {
    pub valid: bool,
    pub name: Option<String>,
    pub tax_number: Option<String>,
}

/// The taxpayer read.
#[derive(Debug, PartialEq, Eq)]
pub enum TaxpayerOutcome {
    Found(TaxpayerRecord),
    CredentialsRejected { code: String, message: String },
    Api { code: String, message: String },
}

} // verus!
