//! The stateless `Szamlazz.Agent` service's decisions: the probe's verdict,
//! `query`, `query_taxpayer` and `set_payments` from what their one step
//! settled, and the tax number's prefix.

use vstd::prelude::*;
use vstd::string::*;

use crate::amount::Amount;
use crate::fault::{
    coded, plain, spec_answered_fault, szamlazz_error_text, AnsweredCode, Fault, TerminalCode,
};
use crate::gateway::{
    request_code, FoundDocument, ProbeOutcome, QueryOutcome, SetPaymentsOutcome, SzamlazzAnswer,
    TaxpayerOutcome, TaxpayerRecord,
};

verus! {

/// szamlazz.hu's verdict on the account's credentials.
#[derive(Debug, PartialEq, Eq)]
pub enum CredentialsCheck {
    Accepted,
    Rejected { code: String, message: String },
}

/// What the probe step settled, as `check_account`'s `credentials`: every
/// probe outcome is data, a wrong key is `rejected`.
pub fn credentials_check(outcome: ProbeOutcome) -> (c: CredentialsCheck)
    ensures
        match outcome {
            ProbeOutcome::Accepted => c is Accepted,
            ProbeOutcome::CredentialsRejected { code, message } => c matches CredentialsCheck::Rejected {
                code: c2,
                message: m2,
            } && c2 == code && m2 == message,
        },
{
    match outcome {
        ProbeOutcome::Accepted => CredentialsCheck::Accepted,
        ProbeOutcome::CredentialsRejected { code, message } => CredentialsCheck::Rejected { code, message },
    }
}

/// What `set_payments` tells the caller after a lost reply.
pub open spec fn set_payments_next(additive: bool) -> Seq<char> {
    if additive {
        "the entries are additive and may have landed; query the invoice before re-sending"@
    } else {
        "call set_payments again"@
    }
}

/// The message of a lost `set_payments` reply.
pub open spec fn set_payments_unknown_text(additive: bool, message: Seq<char>) -> Seq<char> {
    "credit entry registration outcome unknown: "@ + message + "; "@ + set_payments_next(additive)
}

/// The `outcome_unknown` fault of `set_payments` after a lost reply: a
/// replacing call is repeated, an additive one (at-least-once) queries the
/// invoice first.
pub fn set_payments_unknown(additive: bool, message: &str) -> (f: Fault)
    ensures
        f@ == plain(TerminalCode::OutcomeUnknown, set_payments_unknown_text(additive, message@)),
{
    let next = if additive {
        "the entries are additive and may have landed; query the invoice before re-sending"
    } else {
        "call set_payments again"
    };
    Fault::outcome_unknown(
        String::from_str("credit entry registration outcome unknown: ").concat(message).concat(
            "; ",
        ).concat(next),
    )
}

/// `query`'s projection of a found document.
#[derive(Debug, PartialEq, Eq)]
pub struct QueryResponse {
    pub invoice_number: String,
    pub document_type: String,
    pub reversed: bool,
    pub order_number: Option<String>,
    pub gross_total: Amount,
    pub net_total: Amount,
    pub test: bool,
    pub e_invoice: Option<bool>,
    pub credit_entries: Vec<Amount>,
    pub referenced_proforma: Option<String>,
    pub referenced_invoice: Option<String>,
}

/// Whether `r` is the projection of `found`.
pub open spec fn projects(r: &QueryResponse, found: &FoundDocument) -> bool {
    &&& r.invoice_number@ == found.number@
    &&& r.document_type@ == found.document_type@
    &&& r.reversed == !found.spec_live()
    &&& r.order_number.deep_view() == found.order_number.deep_view()
    &&& r.gross_total == found.gross
    &&& r.net_total == found.net
    &&& r.test == found.test
    &&& r.e_invoice == found.e_invoice
    &&& r.credit_entries@ == found.payments@
    &&& r.referenced_proforma.deep_view() == found.referenced_proforma.deep_view()
    &&& r.referenced_invoice.deep_view() == found.referenced_invoice.deep_view()
}

fn copy_text(o: &Option<String>) -> (r: Option<String>)
    ensures
        r.deep_view() == o.deep_view(),
{
    match o {
        Some(s) => Some(s.clone()),
        None => None,
    }
}

impl QueryResponse {
    /// The projection of `found`.
    pub fn from_found(found: &FoundDocument) -> (r: QueryResponse)
        ensures
            projects(&r, found),
    {
        let r = QueryResponse {
            invoice_number: found.number.clone(),
            document_type: found.document_type.clone(),
            reversed: !found.is_live(),
            order_number: copy_text(&found.order_number),
            gross_total: found.gross,
            net_total: found.net,
            test: found.test,
            e_invoice: found.e_invoice,
            credit_entries: found.payments.clone(),
            referenced_proforma: copy_text(&found.referenced_proforma),
            referenced_invoice: copy_text(&found.referenced_invoice),
        };
        proof {
            assert(r.credit_entries@ =~= found.payments@);
        }
        r
    }
}

/// What `query` answers from what its one step settled: the projection;
/// `not_found` on code 7; a credential code as `credentials_rejected`; any
/// other code passed through as `szamlazz_error`.
pub fn query_response(outcome: QueryOutcome) -> (r: Result<QueryResponse, Fault>)
    ensures
        match outcome {
            QueryOutcome::Found(doc) => r matches Ok(resp) && projects(&resp, &*doc),
            QueryOutcome::NotFound => r matches Err(f) && f@ == plain(
                TerminalCode::NotFound,
                "szamlazz.hu does not know the document (code 7)"@,
            ),
            QueryOutcome::CredentialsRejected(a) => r matches Err(f) && f@ == spec_answered_fault(
                &AnsweredCode::CredentialsRejected(a),
            ),
            QueryOutcome::Api(a) => r matches Err(f) && f@ == spec_answered_fault(
                &AnsweredCode::PassedThrough(a),
            ),
        },
{
    match outcome {
        QueryOutcome::Found(doc) => Ok(QueryResponse::from_found(&doc)),
        QueryOutcome::NotFound => Err(
            Fault::not_found(String::from_str("szamlazz.hu does not know the document (code 7)")),
        ),
        QueryOutcome::CredentialsRejected(answer) => Err(
            AnsweredCode::CredentialsRejected(answer).into_fault(),
        ),
        QueryOutcome::Api(answer) => Err(AnsweredCode::PassedThrough(answer).into_fault()),
    }
}

/// What `query_taxpayer` answers from what its one step settled: NAV's
/// record as data (`valid: false` included); a credential code as
/// `credentials_rejected`; any other code passed through as
/// `szamlazz_error`.
pub fn taxpayer_response(outcome: TaxpayerOutcome) -> (r: Result<TaxpayerRecord, Fault>)
    ensures
        match outcome {
            TaxpayerOutcome::Found(record) => r == Ok::<TaxpayerRecord, Fault>(record),
            TaxpayerOutcome::CredentialsRejected { code, message } => r matches Err(f) && f@
                == spec_answered_fault(
                &AnsweredCode::CredentialsRejected(SzamlazzAnswer { code, message }),
            ),
            TaxpayerOutcome::Api { code, message } => r matches Err(f) && f@ == spec_answered_fault(
                &AnsweredCode::PassedThrough(SzamlazzAnswer { code, message }),
            ),
        },
{
    match outcome {
        TaxpayerOutcome::Found(record) => Ok(record),
        TaxpayerOutcome::CredentialsRejected { code, message } => Err(
            AnsweredCode::CredentialsRejected(SzamlazzAnswer { code, message }).into_fault(),
        ),
        TaxpayerOutcome::Api { code, message } => Err(
            AnsweredCode::PassedThrough(SzamlazzAnswer { code, message }).into_fault(),
        ),
    }
}

/// The answer of `set_payments`.
#[derive(Debug, PartialEq, Eq)]
pub struct SetPaymentsResponse {
    pub invoice_number: String,
    pub outstanding: Option<Amount>,
    pub gross_total: Option<Amount>,
}

/// The subject of a refused credit entry.
pub open spec fn refused_entries_subject(number: Seq<char>) -> Seq<char> {
    "the credit entries on invoice "@ + number + " were refused"@
}

/// What `set_payments` answers from what its one step settled: the totals;
/// a refusal that never reached szamlazz.hu (the wire contract) as
/// `invalid_input`; szamlazz.hu refusing as `szamlazz_error` naming the
/// invoice; a credential code as `credentials_rejected`; a lost reply as
/// `outcome_unknown`, conditional on `additive`.
pub fn set_payments_response(outcome: SetPaymentsOutcome, invoice_number: String, additive: bool) -> (r: Result<SetPaymentsResponse, Fault>)
    ensures
        match outcome {
            SetPaymentsOutcome::Done { outstanding, gross } => r matches Ok(resp) && resp.invoice_number
                == invoice_number && resp.outstanding == outstanding && resp.gross_total == gross,
            SetPaymentsOutcome::Rejected { code, message } => if code@ == request_code() {
                r matches Err(f) && f@ == plain(
                    TerminalCode::InvalidInput,
                    "the credit entries cannot be sent: "@ + message@ + "; nothing was sent"@,
                )
            } else {
                r matches Err(f) && f@ == coded(
                    plain(
                        TerminalCode::SzamlazzError,
                        refused_entries_subject(invoice_number@) + ": "@ + szamlazz_error_text(
                            code@,
                            message@,
                        ),
                    ),
                    code@,
                )
            },
            SetPaymentsOutcome::CredentialsRejected { code, message } => r matches Err(f) && f@
                == spec_answered_fault(
                &AnsweredCode::CredentialsRejected(SzamlazzAnswer { code, message }),
            ),
            SetPaymentsOutcome::Transport(message) => r matches Err(f) && f@ == plain(
                TerminalCode::OutcomeUnknown,
                set_payments_unknown_text(additive, message@),
            ),
        },
{
    match outcome {
        SetPaymentsOutcome::Done { outstanding, gross } => Ok(
            SetPaymentsResponse { invoice_number, outstanding, gross_total: gross },
        ),
        SetPaymentsOutcome::Rejected { code, message } => {
            if crate::text::text_eq(code.as_str(), crate::gateway::request_code_text()) {
                Err(
                    Fault::invalid_input(
                        String::from_str("the credit entries cannot be sent: ").concat(
                            message.as_str(),
                        ).concat("; nothing was sent"),
                    ),
                )
            } else {
                let subject = String::from_str("the credit entries on invoice ").concat(
                    invoice_number.as_str(),
                ).concat(" were refused");
                Err(Fault::szamlazz_error_on(subject.as_str(), &SzamlazzAnswer { code, message }))
            }
        },
        SetPaymentsOutcome::CredentialsRejected { code, message } => Err(
            AnsweredCode::CredentialsRejected(SzamlazzAnswer { code, message }).into_fault(),
        ),
        SetPaymentsOutcome::Transport(message) => Err(set_payments_unknown(additive, message.as_str())),
    }
}

/// An ASCII digit.
pub open spec fn is_digit(c: char) -> bool {
    '0' <= c && c <= '9'
}

/// Whether `t[from..from + n]` are all ASCII digits.
pub open spec fn digits_at(t: Seq<char>, from: int, n: int) -> bool {
    forall|i: int| from <= i < from + n ==> is_digit(#[trigger] t[i])
}

/// The prefix NAV is asked about for `tax_number`: the eight-digit stem, as
/// sent or as the first part of the full `NNNNNNNN-N-NN` form.
pub open spec fn spec_taxpayer_prefix(t: Seq<char>) -> Option<Seq<char>> {
    if t.len() == 8 && digits_at(t, 0, 8) {
        Some(t)
    } else if t.len() == 13 && digits_at(t, 0, 8) && t[8] == '-' && is_digit(t[9]) && t[10] == '-'
        && digits_at(t, 11, 2) {
        Some(t.subrange(0, 8))
    } else {
        None
    }
}

/// The eight-digit prefix of a tax number (`adószám` stem).
#[derive(Debug, PartialEq, Eq)]
pub struct TaxpayerPrefix {
    digits: String,
}

impl View for TaxpayerPrefix {
    type V = Seq<char>;

    closed spec fn view(&self) -> Seq<char> {
        self.digits@
    }
}

impl TaxpayerPrefix {
    /// The eight digits.
    pub fn as_str(&self) -> (s: &str)
        ensures
            s@ == self@,
    {
        self.digits.as_str()
    }

    /// Whether two prefixes name the same stem.
    pub fn same(&self, other: &TaxpayerPrefix) -> (b: bool)
        ensures
            b == (self@ == other@),
    {
        crate::text::text_eq(self.digits.as_str(), other.digits.as_str())
    }
}

/// Whether the characters `s[from..from + n]` are ASCII digits.
fn scan_digits(s: &str, from: usize, n: usize) -> (b: bool)
    requires
        from + n <= s@.len(),
        from + n <= usize::MAX,
    ensures
        b == digits_at(s@, from as int, n as int),
{
    let end: usize = from + n;
    let mut i: usize = from;
    while i < end
        invariant
            from <= i <= end,
            end == from + n,
            end <= s@.len(),
            forall|j: int| from <= j < i ==> is_digit(#[trigger] s@[j]),
        decreases end - i,
    {
        let c = s.get_char(i);
        if !('0' <= c && c <= '9') {
            return false;
        }
        i = i + 1;
    }
    true
}

/// The message of a tax number in neither accepted form.
pub open spec fn tax_number_text(t: Seq<char>) -> Seq<char> {
    "invalid tax number \""@ + t
        + "\": expected the eight-digit stem (12345678) or the full form (12345678-2-42)"@
}

/// The prefix `query_taxpayer` asks NAV about, or the `invalid_input` fault
/// naming the input and both accepted forms. Decided before anything is
/// journaled or sent.
pub fn taxpayer_prefix(tax_number: &str) -> (r: Result<TaxpayerPrefix, Fault>)
    ensures
        match spec_taxpayer_prefix(tax_number@) {
            Some(p) => r matches Ok(prefix) && prefix@ == p,
            None => r matches Err(f) && f@ == plain(TerminalCode::InvalidInput, tax_number_text(tax_number@)),
        },
{
    let n = tax_number.unicode_len();
    if n == 8 && scan_digits(tax_number, 0, 8) {
        return Ok(TaxpayerPrefix { digits: String::from_str(tax_number) });
    }
    if n == 13 && scan_digits(tax_number, 0, 8) && tax_number.get_char(8) == '-' && scan_digits(
        tax_number,
        9,
        1,
    ) && tax_number.get_char(10) == '-' && scan_digits(tax_number, 11, 2) {
        return Ok(TaxpayerPrefix { digits: String::from_str(tax_number.substring_char(0, 8)) });
    }
    Err(
        Fault::invalid_input(
            String::from_str("invalid tax number \"").concat(tax_number).concat(
                "\": expected the eight-digit stem (12345678) or the full form (12345678-2-42)",
            ),
        ),
    )
}

/// The name of `query_taxpayer`'s one step: `taxpayer-{prefix}`, so the
/// stem and the full number name the same entry.
pub fn taxpayer_step(prefix: &TaxpayerPrefix) -> (s: String)
    ensures
        s@ == "taxpayer-"@ + prefix@,
{
    String::from_str("taxpayer-").concat(prefix.as_str())
}

} // verus!
