//! The faults a handler fails with: the contract's symbolic code, the HTTP
//! status it travels with, the message the caller reads, and the document
//! identity a handler attaches. Plus the one mapping from a szamlazz.hu code
//! onto a fault, and what a run that ended without a value becomes.

use vstd::prelude::*;
use vstd::string::*;

use crate::gateway::{answer_text, FoundDocument, QueryOutcome, SzamlazzAnswer};
use crate::identity::{ExternalId, OrderKey, OrderKeyError};
use crate::kinds::IssuedKind;
use crate::text::{debug_quoted, decimal, decimal_text, is_trimmed, plain_ascii, text_eq, trim};

verus! {

/// The symbolic code of a fault, the `code` field of its body.
#[derive(Clone, Copy, Debug, PartialEq, Eq, Structural)]
pub enum TerminalCode {
    InvalidInput,
    NotFound,
    SzamlazzError,
    Unavailable,
    OutcomeUnknown,
    UnknownAccount,
    CredentialsRejected,
    Cancelled,
}

/// The HTTP status a fault of `code` travels with.
pub open spec fn spec_status(code: TerminalCode) -> u16 {
    match code {
        TerminalCode::InvalidInput => 400,
        TerminalCode::NotFound => 404,
        TerminalCode::SzamlazzError => 422,
        TerminalCode::Unavailable => 503,
        TerminalCode::OutcomeUnknown => 500,
        TerminalCode::UnknownAccount => 400,
        TerminalCode::CredentialsRejected => 503,
        TerminalCode::Cancelled => 409,
    }
}

/// The token of `code` as the body carries it.
pub open spec fn spec_token(code: TerminalCode) -> Seq<char> {
    match code {
        TerminalCode::InvalidInput => "invalid_input"@,
        TerminalCode::NotFound => "not_found"@,
        TerminalCode::SzamlazzError => "szamlazz_error"@,
        TerminalCode::Unavailable => "unavailable"@,
        TerminalCode::OutcomeUnknown => "outcome_unknown"@,
        TerminalCode::UnknownAccount => "unknown_account"@,
        TerminalCode::CredentialsRejected => "credentials_rejected"@,
        TerminalCode::Cancelled => "cancelled"@,
    }
}

impl TerminalCode {
    /// Every code this library emits.
    pub const KNOWN: [TerminalCode; 8] = [
        TerminalCode::InvalidInput,
        TerminalCode::NotFound,
        TerminalCode::SzamlazzError,
        TerminalCode::Unavailable,
        TerminalCode::OutcomeUnknown,
        TerminalCode::UnknownAccount,
        TerminalCode::CredentialsRejected,
        TerminalCode::Cancelled,
    ];

    /// The HTTP status of the code.
    pub fn status(self) -> (s: u16)
        ensures
            s == spec_status(self),
    {
        match self {
            TerminalCode::InvalidInput => 400,
            TerminalCode::NotFound => 404,
            TerminalCode::SzamlazzError => 422,
            TerminalCode::Unavailable => 503,
            TerminalCode::OutcomeUnknown => 500,
            TerminalCode::UnknownAccount => 400,
            TerminalCode::CredentialsRejected => 503,
            TerminalCode::Cancelled => 409,
        }
    }

    /// The token the body carries.
    pub fn as_str(self) -> (s: &'static str)
        ensures
            s@ == spec_token(self),
    {
        match self {
            TerminalCode::InvalidInput => "invalid_input",
            TerminalCode::NotFound => "not_found",
            TerminalCode::SzamlazzError => "szamlazz_error",
            TerminalCode::Unavailable => "unavailable",
            TerminalCode::OutcomeUnknown => "outcome_unknown",
            TerminalCode::UnknownAccount => "unknown_account",
            TerminalCode::CredentialsRejected => "credentials_rejected",
            TerminalCode::Cancelled => "cancelled",
        }
    }
}

/// A fault's code: one of the codes this library knows, or a code it does
/// not know, kept verbatim (a fault decoded from a newer worker).
#[derive(Debug, PartialEq, Eq)]
pub enum FaultCode {
    Known(TerminalCode),
    Unknown(String),
}

/// A fault's code, mathematically.
pub ghost enum FaultCodeView {
    Known(TerminalCode),
    Unknown(Seq<char>),
}

impl View for FaultCode {
    type V = FaultCodeView;

    open spec fn view(&self) -> FaultCodeView {
        match self {
            FaultCode::Known(k) => FaultCodeView::Known(*k),
            FaultCode::Unknown(t) => FaultCodeView::Unknown(t@),
        }
    }
}

/// The HTTP status a fault of `code` travels with: none for a code this
/// library does not know.
pub open spec fn code_status(code: FaultCodeView) -> Option<u16> {
    match code {
        FaultCodeView::Known(k) => Some(spec_status(k)),
        FaultCodeView::Unknown(_) => None,
    }
}

/// The token of `code` as the body carries it.
pub open spec fn code_token(code: FaultCodeView) -> Seq<char> {
    match code {
        FaultCodeView::Known(k) => spec_token(k),
        FaultCodeView::Unknown(t) => t,
    }
}

/// The code whose token is `token`: a known code when one has it, the
/// token kept verbatim otherwise.
pub open spec fn code_of_token(token: Seq<char>) -> FaultCodeView {
    if exists|k: TerminalCode| spec_token(k) == token {
        FaultCodeView::Known(choose|k: TerminalCode| spec_token(k) == token)
    } else {
        FaultCodeView::Unknown(token)
    }
}

/// Different known codes have different tokens.
proof fn lemma_tokens_differ(a: TerminalCode, b: TerminalCode)
    requires
        spec_token(a) == spec_token(b),
    ensures
        a == b,
{
    reveal_strlit("invalid_input");
    reveal_strlit("not_found");
    reveal_strlit("szamlazz_error");
    reveal_strlit("unavailable");
    reveal_strlit("outcome_unknown");
    reveal_strlit("unknown_account");
    reveal_strlit("credentials_rejected");
    reveal_strlit("cancelled");
    let t = spec_token(a);
    assert(t.len() == spec_token(b).len());
    assert(t[0] == spec_token(b)[0]);
    assert(t[1] == spec_token(b)[1]);
    assert(t[2] == spec_token(b)[2]);
}

impl FaultCode {
    /// The token the body carries.
    pub fn as_str(&self) -> (s: &str)
        ensures
            s@ == code_token(self@),
    {
        match self {
            FaultCode::Known(k) => k.as_str(),
            FaultCode::Unknown(t) => t.as_str(),
        }
    }

    /// The HTTP status of the code, when this library knows it.
    pub fn status(&self) -> (s: Option<u16>)
        ensures
            s == code_status(self@),
    {
        match self {
            FaultCode::Known(k) => Some(k.status()),
            FaultCode::Unknown(_) => None,
        }
    }

    /// The code whose token is `token`.
    pub fn from_token(token: &str) -> (c: FaultCode)
        ensures
            c@ == code_of_token(token@),
    {
        let mut i: usize = 0;
        while i < 8
            invariant
                i <= 8,
                forall|j: int| 0 <= j < i ==> spec_token(#[trigger] TerminalCode::KNOWN@[j]) != token@,
            decreases 8 - i,
        {
            let k = TerminalCode::KNOWN[i];
            if text_eq(k.as_str(), token) {
                proof {
                    assert(spec_token(k) == token@);
                    let c = choose|c: TerminalCode| spec_token(c) == token@;
                    lemma_tokens_differ(c, k);
                }
                return FaultCode::Known(k);
            }
            i = i + 1;
        }
        proof {
            assert forall|k: TerminalCode| spec_token(k) != token@ by {
                match k {
                    TerminalCode::InvalidInput => assert(TerminalCode::KNOWN@[0] == k),
                    TerminalCode::NotFound => assert(TerminalCode::KNOWN@[1] == k),
                    TerminalCode::SzamlazzError => assert(TerminalCode::KNOWN@[2] == k),
                    TerminalCode::Unavailable => assert(TerminalCode::KNOWN@[3] == k),
                    TerminalCode::OutcomeUnknown => assert(TerminalCode::KNOWN@[4] == k),
                    TerminalCode::UnknownAccount => assert(TerminalCode::KNOWN@[5] == k),
                    TerminalCode::CredentialsRejected => assert(TerminalCode::KNOWN@[6] == k),
                    TerminalCode::Cancelled => assert(TerminalCode::KNOWN@[7] == k),
                }
            }
        }
        FaultCode::Unknown(String::from_str(token))
    }
}

/// A fault as a value: the code, the message, the szamlazz.hu code that
/// caused it, and the document it is about.
#[derive(Debug, PartialEq, Eq)]
pub struct Fault {
    pub code: FaultCode,
    pub message: String,
    /// The szamlazz.hu code, on every fault a szamlazz.hu answer caused.
    pub szamlazz_code: Option<String>,
    /// The order the fault is about.
    pub order: Option<String>,
    /// The kind of the document the fault is about.
    pub kind: Option<IssuedKind>,
    /// The external id of the document the fault is about.
    pub external_id: Option<String>,
}

/// A fault, mathematically.
pub ghost struct FaultView {
    pub code: FaultCodeView,
    pub message: Seq<char>,
    pub szamlazz_code: Option<Seq<char>>,
    pub order: Option<Seq<char>>,
    pub kind: Option<IssuedKind>,
    pub external_id: Option<Seq<char>>,
}

impl View for Fault {
    type V = FaultView;

    open spec fn view(&self) -> FaultView {
        FaultView {
            code: self.code@,
            message: self.message@,
            szamlazz_code: self.szamlazz_code.deep_view(),
            order: self.order.deep_view(),
            kind: self.kind,
            external_id: self.external_id.deep_view(),
        }
    }
}

/// A fault of `code` with `message`, about nothing, caused by no answer.
pub open spec fn plain(code: TerminalCode, message: Seq<char>) -> FaultView {
    FaultView {
        code: FaultCodeView::Known(code),
        message,
        szamlazz_code: None,
        order: None,
        kind: None,
        external_id: None,
    }
}

/// The message of an invoice szamlazz.hu returned without the `telj` a
/// storno repeats.
pub open spec fn missing_fulfillment_date_text(number: Seq<char>) -> Seq<char> {
    "szamlazz.hu returned invoice "@ + number
        + " without a fulfillment date (telj), which the storno must repeat; nothing was sent, so retry with a new Idempotency-Key, or query the invoice"@
}

/// `f` carrying the szamlazz.hu `code`.
pub open spec fn coded(f: FaultView, code: Seq<char>) -> FaultView {
    FaultView { szamlazz_code: Some(code), ..f }
}

/// `f` about the `kind` document of `order` under `external_id`.
pub open spec fn about(
    f: FaultView,
    order: Seq<char>,
    kind: Option<IssuedKind>,
    external_id: Seq<char>,
) -> FaultView {
    FaultView { order: Some(order), kind, external_id: Some(external_id), ..f }
}

/// The message of a pass-through: `szamlazz.hu error {code}: {message}`.
pub open spec fn szamlazz_error_text(code: Seq<char>, message: Seq<char>) -> Seq<char> {
    "szamlazz.hu error "@ + answer_text(code, message)
}

/// The message of an answer nothing may be concluded from.
pub open spec fn inconclusive_text(code: Seq<char>, message: Seq<char>) -> Seq<char> {
    "szamlazz.hu answered the query with code "@ + answer_text(code, message)
        + "; nothing may be concluded; retry with a new Idempotency-Key or read get"@
}

/// The message of rejected credentials.
pub open spec fn credentials_text(code: Seq<char>, message: Seq<char>) -> Seq<char> {
    "szamlazz.hu rejected the agent credentials (code "@ + answer_text(code, message)
        + "); the outcome is not known; fix the account's agent key, then retry with a new Idempotency-Key or read get"@
}

/// The message of a `szlahu_down` answer to a leading query.
pub open spec fn szlahu_down_text(message: Seq<char>) -> Seq<char> {
    "szamlazz.hu reported unavailability (szlahu_down) to the query: "@ + message
        + "; nothing was sent; retry with a new Idempotency-Key or read get"@
}

impl Fault {
    /// A fault of `code` with `message`.
    pub fn new(code: TerminalCode, message: String) -> (f: Fault)
        ensures
            f@ == plain(code, message@),
    {
        Fault {
            code: FaultCode::Known(code),
            message,
            szamlazz_code: None,
            order: None,
            kind: None,
            external_id: None,
        }
    }

    /// A fault with the code `code`, known or not, and `message`.
    pub fn with_code(code: FaultCode, message: String) -> (f: Fault)
        ensures
            f@ == (FaultView { code: code@, ..plain(TerminalCode::InvalidInput, message@) }),
    {
        Fault { code, message, szamlazz_code: None, order: None, kind: None, external_id: None }
    }

    /// The HTTP status the fault travels with, when its code is known.
    pub fn status(&self) -> (s: Option<u16>)
        ensures
            s == code_status(self@.code),
    {
        self.code.status()
    }

    /// The fault carrying the szamlazz.hu `code`.
    pub fn with_szamlazz_code(self, code: &str) -> (f: Fault)
        ensures
            f@ == coded(self@, code@),
    {
        Fault { szamlazz_code: Some(String::from_str(code)), ..self }
    }

    /// The fault, about the `kind` document of `order` under `external_id`.
    pub fn about(self, order: &OrderKey, kind: Option<IssuedKind>, external_id: &ExternalId) -> (f: Fault)
        ensures
            f@ == about(self@, order@, kind, external_id@),
    {
        Fault {
            order: Some(String::from_str(order.as_str())),
            kind,
            external_id: Some(String::from_str(external_id.as_str())),
            ..self
        }
    }

    /// The caller's request cannot be served as sent.
    pub fn invalid_input(message: String) -> (f: Fault)
        ensures
            f@ == plain(TerminalCode::InvalidInput, message@),
    {
        Fault::new(TerminalCode::InvalidInput, message)
    }

    /// The document the request names by number is not known to szamlazz.hu.
    pub fn not_found(message: String) -> (f: Fault)
        ensures
            f@ == plain(TerminalCode::NotFound, message@),
    {
        Fault::new(TerminalCode::NotFound, message)
    }

    /// szamlazz.hu or a dependency did not answer; nothing may be concluded.
    pub fn unavailable(message: String) -> (f: Fault)
        ensures
            f@ == plain(TerminalCode::Unavailable, message@),
    {
        Fault::new(TerminalCode::Unavailable, message)
    }

    /// A write may or may not have landed.
    pub fn outcome_unknown(message: String) -> (f: Fault)
        ensures
            f@ == plain(TerminalCode::OutcomeUnknown, message@),
    {
        Fault::new(TerminalCode::OutcomeUnknown, message)
    }

    /// The request names no account of this deployment.
    pub fn unknown_account(message: String) -> (f: Fault)
        ensures
            f@ == plain(TerminalCode::UnknownAccount, message@),
    {
        Fault::new(TerminalCode::UnknownAccount, message)
    }

    /// The invocation was cancelled before anything could be concluded.
    pub fn cancelled(message: String) -> (f: Fault)
        ensures
            f@ == plain(TerminalCode::Cancelled, message@),
    {
        Fault::new(TerminalCode::Cancelled, message)
    }

    /// szamlazz.hu's answer, passed through: `szamlazz_error` (422) carrying
    /// the code beside the token and repeating szamlazz.hu's message.
    pub fn szamlazz_error(answer: &SzamlazzAnswer) -> (f: Fault)
        ensures
            f@ == coded(
                plain(TerminalCode::SzamlazzError, szamlazz_error_text(answer.code@, answer.message@)),
                answer.code@,
            ),
    {
        let message = String::from_str("szamlazz.hu error ").concat(answer.text().as_str());
        Fault::new(TerminalCode::SzamlazzError, message).with_szamlazz_code(answer.code.as_str())
    }

    /// [`Fault::szamlazz_error`] naming what the handler was doing first.
    pub fn szamlazz_error_on(subject: &str, answer: &SzamlazzAnswer) -> (f: Fault)
        ensures
            f@ == coded(
                plain(
                    TerminalCode::SzamlazzError,
                    subject@ + ": "@ + szamlazz_error_text(answer.code@, answer.message@),
                ),
                answer.code@,
            ),
    {
        let message = String::from_str(subject).concat(": ").concat("szamlazz.hu error ").concat(
            answer.text().as_str(),
        );
        proof {
            assert(subject@ + ": "@ + "szamlazz.hu error "@ + answer_text(answer.code@, answer.message@)
                =~= subject@ + ": "@ + szamlazz_error_text(answer.code@, answer.message@));
        }
        Fault::new(TerminalCode::SzamlazzError, message).with_szamlazz_code(answer.code.as_str())
    }

    /// szamlazz.hu answered a read with a code nothing may be concluded from:
    /// `unavailable`, carrying the code.
    pub fn inconclusive_answer(answer: &SzamlazzAnswer) -> (f: Fault)
        ensures
            f@ == coded(
                plain(TerminalCode::Unavailable, inconclusive_text(answer.code@, answer.message@)),
                answer.code@,
            ),
    {
        let message = String::from_str("szamlazz.hu answered the query with code ").concat(
            answer.text().as_str(),
        ).concat("; nothing may be concluded; retry with a new Idempotency-Key or read get");
        Fault::unavailable(message).with_szamlazz_code(answer.code.as_str())
    }

    /// szamlazz.hu reported `szlahu_down` to a write step's leading query:
    /// `unavailable`, with no szamlazz.hu code (the header is not a code).
    pub fn szlahu_down_answer(message: &str) -> (f: Fault)
        ensures
            f@ == plain(TerminalCode::Unavailable, szlahu_down_text(message@)),
    {
        let text = String::from_str(
            "szamlazz.hu reported unavailability (szlahu_down) to the query: ",
        ).concat(message).concat("; nothing was sent; retry with a new Idempotency-Key or read get");
        Fault::unavailable(text)
    }

    /// The verified original of a storno carries no `telj`.
    pub fn missing_fulfillment_date(number: &str) -> (f: Fault)
        ensures
            f@ == plain(TerminalCode::Unavailable, missing_fulfillment_date_text(number@)),
    {
        let text = String::from_str("szamlazz.hu returned invoice ").concat(number).concat(
            " without a fulfillment date (telj), which the storno must repeat; nothing was sent, so retry with a new Idempotency-Key, or query the invoice",
        );
        Fault::unavailable(text)
    }

    /// szamlazz.hu rejected the account's agent credentials.
    pub fn credentials_rejected(answer: &SzamlazzAnswer) -> (f: Fault)
        ensures
            f@ == coded(
                plain(TerminalCode::CredentialsRejected, credentials_text(answer.code@, answer.message@)),
                answer.code@,
            ),
    {
        let message = String::from_str("szamlazz.hu rejected the agent credentials (code ").concat(
            answer.text().as_str(),
        ).concat(
            "); the outcome is not known; fix the account's agent key, then retry with a new Idempotency-Key or read get",
        );
        Fault::new(TerminalCode::CredentialsRejected, message).with_szamlazz_code(
            answer.code.as_str(),
        )
    }
}

/// szamlazz.hu answered a step with a code rather than a document, as the
/// handler reads it.
#[derive(Debug, PartialEq, Eq)]
pub enum AnsweredCode {
    /// A credential code: `credentials_rejected` (503).
    CredentialsRejected(SzamlazzAnswer),
    /// Another code nothing may be concluded from: `unavailable` (503).
    Inconclusive(SzamlazzAnswer),
    /// Another code the handler passes through: `szamlazz_error` (422).
    PassedThrough(SzamlazzAnswer),
}

/// The fault of an answered code.
pub open spec fn spec_answered_fault(code: &AnsweredCode) -> FaultView {
    match code {
        AnsweredCode::CredentialsRejected(a) => coded(
            plain(TerminalCode::CredentialsRejected, credentials_text(a.code@, a.message@)),
            a.code@,
        ),
        AnsweredCode::Inconclusive(a) => coded(
            plain(TerminalCode::Unavailable, inconclusive_text(a.code@, a.message@)),
            a.code@,
        ),
        AnsweredCode::PassedThrough(a) => coded(
            plain(TerminalCode::SzamlazzError, szamlazz_error_text(a.code@, a.message@)),
            a.code@,
        ),
    }
}

impl AnsweredCode {
    /// The fault for the code: the one mapping from a szamlazz.hu answer that
    /// is not a document onto a fault.
    pub fn into_fault(self) -> (f: Fault)
        ensures
            f@ == spec_answered_fault(&self),
    {
        match self {
            AnsweredCode::CredentialsRejected(answer) => Fault::credentials_rejected(&answer),
            AnsweredCode::Inconclusive(answer) => Fault::inconclusive_answer(&answer),
            AnsweredCode::PassedThrough(answer) => Fault::szamlazz_error(&answer),
        }
    }
}

/// How a durable run ended short of a value: the SDK's terminal error, its
/// status and message. `initialization` is the structured fault the message
/// holds when the run's closure failed to initialise (status 503).
#[derive(Debug, PartialEq, Eq)]
pub struct RunEnd {
    pub code: u16,
    pub message: String,
    pub initialization: Option<Fault>,
}

/// The status the SDK ends a run with when the invocation was cancelled.
pub const CANCELLED: u16 = 409;

/// Whether a run's end is a cancellation rather than an exhausted policy.
pub fn is_cancelled(error: &RunEnd) -> (b: bool)
    ensures
        b == (error.code == CANCELLED),
{
    error.code == CANCELLED
}

/// The structured initialization fault a run ended with, when it did:
/// status 503 carrying an `unavailable` fault, its message extended with
/// what the caller does next.
pub open spec fn spec_initialization(error: &RunEnd, next: Seq<char>) -> Option<FaultView> {
    if error.code == 503 {
        match &error.initialization {
            Some(f) => if f@.code == FaultCodeView::Known(TerminalCode::Unavailable) {
                Some(FaultView { message: f.message@ + "; "@ + next, ..f@ })
            } else {
                None
            },
            None => None,
        }
    } else {
        None
    }
}

/// The initialization fault of a run's end, when it is one.
pub fn initialization_fault(error: &RunEnd, next: &str) -> (r: Option<Fault>)
    ensures
        match r {
            Some(f) => spec_initialization(error, next@) == Some(f@),
            None => spec_initialization(error, next@) is None,
        },
{
    if error.code != 503 {
        return None;
    }
    match &error.initialization {
        Some(f) => {
            if let FaultCode::Known(TerminalCode::Unavailable) = f.code {
                let message = f.message.clone().concat("; ").concat(next);
                Some(Fault {
                    code: FaultCode::Known(TerminalCode::Unavailable),
                    message,
                    szamlazz_code: f.szamlazz_code.clone(),
                    order: f.order.clone(),
                    kind: f.kind,
                    external_id: f.external_id.clone(),
                })
            } else {
                None
            }
        },
        None => None,
    }
}

/// What comes after a read's initialization fault.
pub open spec fn read_next() -> Seq<char> {
    "retry with a new Idempotency-Key, query the document or read get"@
}

/// The fault of a read step that ended without an answer.
pub open spec fn spec_read_exhausted(step: Seq<char>, error: &RunEnd) -> FaultView {
    match spec_initialization(error, read_next()) {
        Some(f) => f,
        None => if error.code == CANCELLED {
            plain(
                TerminalCode::Unavailable,
                "the "@ + step + " read was cancelled ("@ + decimal(error.code as nat)
                    + ") before szamlazz.hu answered; nothing was sent"@,
            )
        } else {
            plain(
                TerminalCode::Unavailable,
                "the "@ + step + " read ended without an answer from szamlazz.hu ("@ + decimal(
                    error.code as nat,
                ) + "): "@ + error.message@ + "; retry with a new Idempotency-Key or read get"@,
            )
        },
    }
}

/// The fault of a read step that ended without an answer: the read policy
/// exhausted (naming the step and the last failure, and telling the caller
/// to retry) or the invocation cancelled (naming the step and the
/// cancellation, and not telling the caller to retry).
pub fn read_exhausted(step: &str, error: &RunEnd) -> (f: Fault)
    ensures
        f@ == spec_read_exhausted(step@, error),
{
    if let Some(fault) = initialization_fault(
        error,
        "retry with a new Idempotency-Key, query the document or read get",
    ) {
        return fault;
    }
    let code = decimal_text(error.code as u64);
    if is_cancelled(error) {
        return Fault::unavailable(
            String::from_str("the ").concat(step).concat(" read was cancelled (").concat(
                code.as_str(),
            ).concat(") before szamlazz.hu answered; nothing was sent"),
        );
    }
    Fault::unavailable(
        String::from_str("the ").concat(step).concat(
            " read ended without an answer from szamlazz.hu (",
        ).concat(code.as_str()).concat("): ").concat(error.message.as_str()).concat(
            "; retry with a new Idempotency-Key or read get",
        ),
    )
}

/// What a best-effort read makes of a run that ended without an answer: an
/// exhausted policy is swallowed (`Ok`), a cancellation is never swallowed
/// and comes back as it came.
pub fn best_effort(step: &str, error: RunEnd) -> (r: Result<(), RunEnd>)
    ensures
        match r {
            Ok(()) => error.code != CANCELLED,
            Err(e) => error.code == CANCELLED && e == error,
        },
{
    if is_cancelled(&error) {
        return Err(error);
    }
    Ok(())
}

/// The message of an untrimmed order key, the key as `{:?}` writes it
/// given as `quoted`.
pub open spec fn untrimmed_key_text(quoted: Seq<char>) -> Seq<char> {
    "invalid order key "@ + quoted
        + ": the order key must not have leading or trailing whitespace; Restate locks on the raw key, so trim it before calling"@
}

/// What `order_key` answers for the raw Virtual Object key `key`.
pub open spec fn spec_order_key_fault(key: Seq<char>, e: OrderKeyError) -> FaultView {
    plain(TerminalCode::InvalidInput, "invalid order key: "@ + crate::identity::spec_rule(e))
}

/// Parses the Virtual Object key as an order key. The key must arrive
/// trimmed: Restate locks on the raw key, so ` ORD-1` and `ORD-1` would be two
/// locks over one order.
pub fn order_key(key: &str) -> (r: Result<OrderKey, Fault>)
    ensures
        match r {
            Ok(k) => (trim(key@) == key@) && (crate::identity::spec_order_key(key@)
                == Ok::<Seq<char>, OrderKeyError>(k@)),
            Err(f) => if trim(key@) != key@ {
                (exists|quoted: Seq<char>| f@ == plain(TerminalCode::InvalidInput, #[trigger] untrimmed_key_text(quoted)))
                    && (plain_ascii(key@) ==> f@ == plain(
                    TerminalCode::InvalidInput,
                    untrimmed_key_text("\""@ + key@ + "\""@),
                ))
            } else {
                exists|e: OrderKeyError|
                    crate::identity::spec_order_key(key@) == Err::<Seq<char>, OrderKeyError>(e)
                        && f@ == spec_order_key_fault(key@, e)
            },
        },
{
    if !is_trimmed(key) {
        let quoted = debug_quoted(key);
        let f = Fault::invalid_input(
            String::from_str("invalid order key ").concat(quoted.as_str()).concat(
                ": the order key must not have leading or trailing whitespace; Restate locks on the raw key, so trim it before calling",
            ),
        );
        assert(f@ == plain(TerminalCode::InvalidInput, untrimmed_key_text(quoted@)));
        return Err(f);
    }
    match OrderKey::parse(key) {
        Ok(k) => {
            assert(trim(key@) == key@);
            assert(crate::identity::spec_order_key(key@) == Ok::<Seq<char>, OrderKeyError>(k@));
            Ok(k)
        },
        Err(e) => {
            let f = Fault::invalid_input(String::from_str("invalid order key: ").concat(e.rule()));
            assert(crate::identity::spec_order_key(key@) == Err::<Seq<char>, OrderKeyError>(e)
                && f@ == spec_order_key_fault(key@, e));
            Err(f)
        },
    }
}

/// The document a verify by number found, or the fault for anything else:
/// `not_found` naming the invoice on code 7, `unavailable` on a code nothing
/// may be concluded from, `credentials_rejected` on a credential code.
pub fn verified_document(outcome: QueryOutcome, number: &str) -> (r: Result<Box<FoundDocument>, Fault>)
    ensures
        match outcome {
            QueryOutcome::Found(found) => r == Ok::<Box<FoundDocument>, Fault>(found),
            QueryOutcome::NotFound => r matches Err(f) && f@ == plain(
                TerminalCode::NotFound,
                "invoice "@ + number@ + " is not known to szamlazz.hu (code 7)"@,
            ),
            QueryOutcome::Api(a) => r matches Err(f) && f@ == spec_answered_fault(
                &AnsweredCode::Inconclusive(a),
            ),
            QueryOutcome::CredentialsRejected(a) => r matches Err(f) && f@
                == spec_answered_fault(&AnsweredCode::CredentialsRejected(a)),
        },
{
    match outcome {
        QueryOutcome::Found(found) => Ok(found),
        QueryOutcome::NotFound => Err(
            Fault::not_found(
                String::from_str("invoice ").concat(number).concat(
                    " is not known to szamlazz.hu (code 7)",
                ),
            ),
        ),
        QueryOutcome::Api(answer) => Err(AnsweredCode::Inconclusive(answer).into_fault()),
        QueryOutcome::CredentialsRejected(answer) => Err(
            AnsweredCode::CredentialsRejected(answer).into_fault(),
        ),
    }
}

/// Whether a caller may take a decoded fault as the worker's own: the
/// response is an error status that the invocation itself answered (the
/// `x-restate-error-source` header and the envelope's source both
/// `invocation`), the envelope repeats the status, and the fault's code
/// travels with that status.
pub open spec fn spec_fault_accepted(status: u16, header_source: Option<Seq<char>>, envelope_code: u16, envelope_source: Seq<char>, fault: FaultView) -> bool {
    &&& 400 <= status < 600
    &&& header_source == Some("invocation"@)
    &&& envelope_source == "invocation"@
    &&& envelope_code == status
    &&& match code_status(fault.code) {
        Some(s) => s == status,
        None => true,
    }
}

/// The worker's fault decoded from an ingress client's error response, when
/// the response is one the invocation answered with a consistent status;
/// `None` for anything else (cancellation, transport, unfamiliar shapes).
pub fn accept_decoded_fault(
    status: u16,
    header_source: Option<&str>,
    envelope_code: u16,
    envelope_source: &str,
    fault: Fault,
) -> (r: Option<Fault>)
    ensures
        r is Some <==> spec_fault_accepted(
            status,
            match header_source { Some(t) => Some(t@), None => None::<Seq<char>> },
            envelope_code,
            envelope_source@,
            fault@,
        ),
        r matches Some(f) ==> f@ == fault@,
{
    if !(400 <= status && status < 600) {
        return None;
    }
    let from_invocation = match header_source {
        Some(h) => text_eq(h, "invocation"),
        None => false,
    };
    if !from_invocation || !text_eq(envelope_source, "invocation") || envelope_code != status {
        return None;
    }
    match fault.code.status() {
        Some(s) => if s != status {
            return None;
        },
        None => {},
    }
    Some(fault)
}

/// Why a fault cannot become the SDK's terminal error.
#[derive(Debug, PartialEq, Eq)]
pub enum FaultConversionError {
    /// This version does not know the code's HTTP status; the code is kept
    /// verbatim.
    UnknownStatus { code: String },
}

/// The status a fault ends its invocation with: its code's, or, for a code
/// this version does not know, the refusal to invent one.
pub fn terminal_status(fault: &Fault) -> (r: Result<u16, FaultConversionError>)
    ensures
        match fault@.code {
            FaultCodeView::Known(k) => r == Ok::<u16, FaultConversionError>(spec_status(k)),
            FaultCodeView::Unknown(t) => r matches Err(FaultConversionError::UnknownStatus { code }) && code@ == t,
        },
{
    match &fault.code {
        FaultCode::Known(k) => Ok(k.status()),
        FaultCode::Unknown(t) => Err(FaultConversionError::UnknownStatus { code: t.clone() }),
    }
}

} // verus!
