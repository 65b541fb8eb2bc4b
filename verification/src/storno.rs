//! The storno protocol's decisions, shared by the order's `storno_invoice`
//! and the by-number `storno`: the verdict on the verified original, the
//! intent built from it, what the storno lookup settled, the settled storno
//! step as the answer, and what the best-effort reads name.

use vstd::prelude::*;
use vstd::string::*;

use std::ops::ControlFlow;

use crate::create::ConflictReason;
use crate::fault::{
    about, missing_fulfillment_date_text, plain, spec_answered_fault, spec_read_exhausted, szlahu_down_text, AnsweredCode,
    Fault, FaultView, RunEnd, TerminalCode, CANCELLED,
};
use crate::gateway::{self, Date, FoundDocument, QueryOutcome, StornoLookupOutcome, spec_stornoable};
use crate::fault::best_effort;
use crate::identity::{ExternalId, Namespace, OrderKey};
use crate::kinds::{kind_of_document_type, spec_kind_of_document_type, IssuedKind};
use crate::text::{decimal, decimal_text};

verus! {

/// What a storno settled as.
#[derive(Clone, Copy, Debug, PartialEq, Eq, Structural)]
pub enum StornoOutcome {
    /// The invoice is reversed (now, or already).
    Reversed,
    /// Refused without a send.
    Conflict,
    /// szamlazz.hu cannot reverse the document, or refused.
    Rejected,
    /// The document carries an order number: `Szamlazz.Order` manages it.
    ManagedByOrder,
}

/// The answer of a storno handler.
#[derive(Debug, PartialEq, Eq)]
pub struct StornoResponse {
    pub outcome: StornoOutcome,
    pub invoice_number: String,
    pub storno_number: Option<String>,
    pub conflict_reason: Option<ConflictReason>,
    pub code: Option<String>,
    pub message: Option<String>,
    pub order_key: Option<String>,
}

/// A storno answer, mathematically.
pub ghost struct StornoView {
    pub outcome: StornoOutcome,
    pub invoice_number: Seq<char>,
    pub storno_number: Option<Seq<char>>,
    pub conflict_reason: Option<ConflictReason>,
    pub code: Option<Seq<char>>,
    pub message: Option<Seq<char>>,
    pub order_key: Option<Seq<char>>,
}

impl View for StornoResponse {
    type V = StornoView;

    open spec fn view(&self) -> StornoView {
        StornoView {
            outcome: self.outcome,
            invoice_number: self.invoice_number@,
            storno_number: self.storno_number.deep_view(),
            conflict_reason: self.conflict_reason,
            code: self.code.deep_view(),
            message: self.message.deep_view(),
            order_key: self.order_key.deep_view(),
        }
    }
}

/// The bare answer `outcome` for `number`.
pub open spec fn storno_view(outcome: StornoOutcome, number: Seq<char>) -> StornoView {
    StornoView {
        outcome,
        invoice_number: number,
        storno_number: None,
        conflict_reason: None,
        code: None,
        message: None,
        order_key: None,
    }
}

/// The code of a document szamlazz.hu cannot reverse.
pub open spec fn not_stornoable_code() -> Seq<char> {
    "not_stornoable"@
}

/// `rejected{not_stornoable}` for `number` with `message`.
pub open spec fn not_stornoable_view(number: Seq<char>, message: Seq<char>) -> StornoView {
    StornoView {
        code: Some(not_stornoable_code()),
        message: Some(message),
        ..storno_view(StornoOutcome::Rejected, number)
    }
}

/// `reversed` for `number`, reversed by `storno_number`.
pub open spec fn reversed_storno_view(number: Seq<char>, storno_number: Option<Seq<char>>) -> StornoView {
    StornoView { storno_number, ..storno_view(StornoOutcome::Reversed, number) }
}

impl StornoResponse {
    /// The code of a document szamlazz.hu cannot reverse.
    pub const NOT_STORNOABLE: &'static str = "not_stornoable";

    /// The bare answer `outcome` for `number`.
    pub fn new(outcome: StornoOutcome, number: &str) -> (r: StornoResponse)
        ensures
            r@ == storno_view(outcome, number@),
    {
        StornoResponse {
            outcome,
            invoice_number: String::from_str(number),
            storno_number: None,
            conflict_reason: None,
            code: None,
            message: None,
            order_key: None,
        }
    }

    /// `rejected{not_stornoable}` for `number`.
    pub fn not_stornoable(number: &str, message: &str) -> (r: StornoResponse)
        ensures
            r@ == not_stornoable_view(number@, message@),
    {
        let mut r = StornoResponse::new(StornoOutcome::Rejected, number);
        r.code = Some(String::from_str("not_stornoable"));
        r.message = Some(String::from_str(message));
        r
    }
}

/// What a storno handler does next with the document its verify found.
#[derive(Debug, PartialEq, Eq)]
pub enum StornoVerdict {
    /// A live document the handler may reverse.
    Proceed,
    /// Already reversed, by anyone: the answer is `reversed`, and the storno
    /// number is what a best-effort read names.
    AlreadyReversed,
    /// Answered without a send.
    Answered(StornoResponse),
}

/// A verdict, mathematically.
pub ghost enum VerdictView {
    Proceed,
    AlreadyReversed,
    Answered(StornoView),
}

/// The view of a verdict.
pub open spec fn verdict_view(v: &StornoVerdict) -> VerdictView {
    match v {
        StornoVerdict::Proceed => VerdictView::Proceed,
        StornoVerdict::AlreadyReversed => VerdictView::AlreadyReversed,
        StornoVerdict::Answered(r) => VerdictView::Answered(r@),
    }
}

/// `storno_invoice`'s verdict on `found` for `order`'s invoice `number`.
pub open spec fn spec_storno_verdict(found: &FoundDocument, order: Seq<char>, number: Seq<char>) -> VerdictView {
    if !found.spec_carries(order) {
        VerdictView::Answered(
            StornoView {
                conflict_reason: Some(ConflictReason::NotManaged),
                ..storno_view(StornoOutcome::Conflict, number)
            },
        )
    } else if !found.spec_live() {
        VerdictView::AlreadyReversed
    } else if !spec_stornoable(found.document_type@) {
        VerdictView::Answered(not_stornoable_view(number, only_invoices_text()))
    } else {
        VerdictView::Proceed
    }
}

/// The by-number `storno`'s verdict on `found` for `number`.
pub open spec fn spec_unmanaged_storno_verdict(found: &FoundDocument, number: Seq<char>) -> VerdictView {
    match found.order_number.deep_view() {
        Some(o) => VerdictView::Answered(
            StornoView { order_key: Some(o), ..storno_view(StornoOutcome::ManagedByOrder, number) },
        ),
        None => if !found.spec_live() {
            VerdictView::AlreadyReversed
        } else {
            VerdictView::Proceed
        },
    }
}

/// The message of a document of a kind szamlazz.hu cannot reverse.
pub open spec fn only_invoices_text() -> Seq<char> {
    "the document cannot be reversed: only invoices can be stornoed"@
}

/// `storno_invoice`'s decision on the verified document, in the order of the
/// answers: not this order's is `conflict{not_managed}`; already reversed is
/// `AlreadyReversed`; a kind szamlazz.hu cannot reverse is
/// `rejected{not_stornoable}`; a live `SZ`, `ES`, `VS` or `HS` proceeds.
pub fn storno_verdict(found: &FoundDocument, order: &OrderKey, number: &str) -> (v: StornoVerdict)
    ensures
        verdict_view(&v) == spec_storno_verdict(found, order@, number@),
        if !found.spec_carries(order@) {
            v matches StornoVerdict::Answered(r) && r@ == (StornoView {
                conflict_reason: Some(ConflictReason::NotManaged),
                ..storno_view(StornoOutcome::Conflict, number@)
            })
        } else if !found.spec_live() {
            v is AlreadyReversed
        } else if !spec_stornoable(found.document_type@) {
            v matches StornoVerdict::Answered(r) && r@ == not_stornoable_view(number@, only_invoices_text())
        } else {
            v is Proceed
        },
{
    if !found.carries_order(order) {
        let mut r = StornoResponse::new(StornoOutcome::Conflict, number);
        r.conflict_reason = Some(ConflictReason::NotManaged);
        return StornoVerdict::Answered(r);
    }
    if !found.is_live() {
        return StornoVerdict::AlreadyReversed;
    }
    if !found.is_stornoable() {
        return StornoVerdict::Answered(
            StornoResponse::not_stornoable(
                number,
                "the document cannot be reversed: only invoices can be stornoed",
            ),
        );
    }
    StornoVerdict::Proceed
}

/// The by-number `storno`'s decision on the verified document: one carrying
/// an order number is `managed_by_order` with that number as the
/// `order_key`; one already reversed is `AlreadyReversed`; a live unmanaged
/// document proceeds, whatever its kind (szamlazz.hu's echo tells).
pub fn unmanaged_storno_verdict(found: &FoundDocument, number: &str) -> (v: StornoVerdict)
    ensures
        verdict_view(&v) == spec_unmanaged_storno_verdict(found, number@),
        match found.order_number.deep_view() {
            Some(o) => v matches StornoVerdict::Answered(r) && r@ == (StornoView {
                order_key: Some(o),
                ..storno_view(StornoOutcome::ManagedByOrder, number@)
            }),
            None => if !found.spec_live() {
                v is AlreadyReversed
            } else {
                v is Proceed
            },
        },
{
    if let Some(order) = &found.order_number {
        let mut r = StornoResponse::new(StornoOutcome::ManagedByOrder, number);
        r.order_key = Some(order.clone());
        return StornoVerdict::Answered(r);
    }
    if !found.is_live() {
        return StornoVerdict::AlreadyReversed;
    }
    StornoVerdict::Proceed
}

/// The `reversed` answer of both storno handlers.
pub fn reversed_response(number: &str, storno_number: Option<String>) -> (r: StornoResponse)
    ensures
        r@ == reversed_storno_view(number@, storno_number.deep_view()),
{
    let mut r = StornoResponse::new(StornoOutcome::Reversed, number);
    r.storno_number = storno_number;
    r
}

/// What the storno step sends, built from what the verify found.
#[derive(Debug, PartialEq, Eq)]
pub struct StornoIntent {
    /// The invoice to reverse.
    pub number: String,
    /// The storno external id.
    pub storno_id: ExternalId,
    pub comment: Option<String>,
    /// The original's appearance when it has one, else the account default.
    pub e_invoice: bool,
    /// The original's `telj`, which the storno repeats.
    pub fulfillment_date: Date,
}

impl StornoIntent {
    /// A copy of the intent.
    pub fn duplicate(&self) -> (i: StornoIntent)
        ensures
            i.number@ == self.number@,
            i.storno_id@ == self.storno_id@,
            i.comment.deep_view() == self.comment.deep_view(),
            i.e_invoice == self.e_invoice,
            i.fulfillment_date == self.fulfillment_date,
    {
        StornoIntent {
            number: self.number.clone(),
            storno_id: self.storno_id.duplicate(),
            comment: match &self.comment {
                Some(c) => Some(c.clone()),
                None => None,
            },
            e_invoice: self.e_invoice,
            fulfillment_date: self.fulfillment_date,
        }
    }

    /// The intent for reversing the verified `found` under `storno_id`:
    /// `e_invoice` lifted from the document with `default_e_invoice` as the
    /// fallback, `fulfillment_date` the document's own `telj`, never a
    /// default.
    pub fn from_verified(
        found: &FoundDocument,
        default_e_invoice: bool,
        number: &str,
        storno_id: ExternalId,
        comment: Option<String>,
    ) -> (r: Result<StornoIntent, Fault>)
        ensures
            match found.fulfillment_date {
                None => r matches Err(f) && f@ == plain(
                    TerminalCode::Unavailable,
                    missing_fulfillment_date_text(number@),
                ),
                Some(date) => r matches Ok(intent) && intent.fulfillment_date == date
                    && intent.number@ == number@ && intent.storno_id@ == storno_id@
                    && intent.comment.deep_view() == comment.deep_view() && intent.e_invoice == match found.e_invoice {
                    Some(e) => e,
                    None => default_e_invoice,
                },
            },
    {
        let fulfillment_date = match found.fulfillment_date {
            Some(date) => date,
            None => return Err(Fault::missing_fulfillment_date(number)),
        };
        let e_invoice = match found.e_invoice {
            Some(e) => e,
            None => default_e_invoice,
        };
        Ok(StornoIntent {
            number: String::from_str(number),
            storno_id,
            comment,
            e_invoice,
            fulfillment_date,
        })
    }
}

/// Step 2: what the storno lookup settled. `Break` when a storno of ours
/// already holds the storno id (`reversed{storno_number}`, nothing sent);
/// `Continue` when nothing does; an answered code is a fault.
pub fn after_storno_lookup(outcome: StornoLookupOutcome, number: &str) -> (r: Result<ControlFlow<StornoResponse>, Fault>)
    ensures
        match outcome {
            StornoLookupOutcome::Absent => r matches Ok(ControlFlow::Continue(())),
            StornoLookupOutcome::AlreadyReversed { storno_number } => r matches Ok(ControlFlow::Break(resp))
                && resp@ == reversed_storno_view(number@, Some(storno_number@)),
            StornoLookupOutcome::CredentialsRejected(a) => r matches Err(f) && f@ == spec_answered_fault(
                &AnsweredCode::CredentialsRejected(a),
            ),
            StornoLookupOutcome::Api(a) => r matches Err(f) && f@ == spec_answered_fault(
                &AnsweredCode::Inconclusive(a),
            ),
        },
{
    match outcome {
        StornoLookupOutcome::Absent => Ok(ControlFlow::Continue(())),
        StornoLookupOutcome::AlreadyReversed { storno_number } => Ok(
            ControlFlow::Break(reversed_response(number, Some(storno_number))),
        ),
        StornoLookupOutcome::CredentialsRejected(answer) => Err(
            AnsweredCode::CredentialsRejected(answer).into_fault(),
        ),
        StornoLookupOutcome::Api(answer) => Err(AnsweredCode::Inconclusive(answer).into_fault()),
    }
}

/// The message of a storno szamlazz.hu echoed unchanged.
pub open spec fn echoed_text() -> Seq<char> {
    "szamlazz.hu echoed the document unchanged: it cannot be reversed (only invoices can be stornoed)"@
}

/// The view of a storno handler's answer.
pub open spec fn answer_view(r: &Result<StornoResponse, Fault>) -> Result<StornoView, FaultView> {
    match r {
        Ok(resp) => Ok(resp@),
        Err(f) => Err(f@),
    }
}

/// The settled storno step as the answer.
pub open spec fn spec_storno_response(outcome: &gateway::StornoOutcome, number: Seq<char>) -> Result<StornoView, FaultView> {
    match outcome {
        gateway::StornoOutcome::Reversed(storno) => Ok(reversed_storno_view(number, Some(storno.number@))),
        gateway::StornoOutcome::AlreadyReversed { storno_number } => Ok(
            reversed_storno_view(number, Some(storno_number@)),
        ),
        gateway::StornoOutcome::NotStornoable => Ok(not_stornoable_view(number, echoed_text())),
        gateway::StornoOutcome::Rejected(rejection) => Ok(
            StornoView {
                code: Some(rejection.code@),
                message: Some(rejection.message@),
                ..storno_view(StornoOutcome::Rejected, number)
            },
        ),
        gateway::StornoOutcome::CredentialsRejected(a) => Err(
            spec_answered_fault(&AnsweredCode::CredentialsRejected(*a)),
        ),
        gateway::StornoOutcome::Api(a) => Err(spec_answered_fault(&AnsweredCode::Inconclusive(*a))),
        gateway::StornoOutcome::Unavailable { message } => Err(
            plain(TerminalCode::Unavailable, szlahu_down_text(message@)),
        ),
    }
}

/// The settled storno step as the answer: reversed (now or already), not
/// stornoable, or rejected; rejected credentials and a leading query
/// answered with another code or `szlahu_down` are faults.
pub fn storno_response(outcome: gateway::StornoOutcome, number: &str) -> (r: Result<StornoResponse, Fault>)
    ensures
        answer_view(&r) == spec_storno_response(&outcome, number@),
        match outcome {
            gateway::StornoOutcome::Reversed(storno) => r matches Ok(resp) && resp@
                == reversed_storno_view(number@, Some(storno.number@)),
            gateway::StornoOutcome::AlreadyReversed { storno_number } => r matches Ok(resp) && resp@
                == reversed_storno_view(number@, Some(storno_number@)),
            gateway::StornoOutcome::NotStornoable => r matches Ok(resp) && resp@ == not_stornoable_view(
                number@,
                echoed_text(),
            ),
            gateway::StornoOutcome::Rejected(rejection) => r matches Ok(resp) && resp@ == (StornoView {
                code: Some(rejection.code@),
                message: Some(rejection.message@),
                ..storno_view(StornoOutcome::Rejected, number@)
            }),
            gateway::StornoOutcome::CredentialsRejected(a) => r matches Err(f) && f@
                == spec_answered_fault(&AnsweredCode::CredentialsRejected(a)),
            gateway::StornoOutcome::Api(a) => r matches Err(f) && f@ == spec_answered_fault(
                &AnsweredCode::Inconclusive(a),
            ),
            gateway::StornoOutcome::Unavailable { message } => r matches Err(f) && f@ == plain(
                TerminalCode::Unavailable,
                szlahu_down_text(message@),
            ),
        },
{
    match outcome {
        gateway::StornoOutcome::Reversed(storno) => Ok(reversed_response(number, Some(storno.number))),
        gateway::StornoOutcome::AlreadyReversed { storno_number } => Ok(
            reversed_response(number, Some(storno_number)),
        ),
        gateway::StornoOutcome::NotStornoable => Ok(
            StornoResponse::not_stornoable(
                number,
                "szamlazz.hu echoed the document unchanged: it cannot be reversed (only invoices can be stornoed)",
            ),
        ),
        gateway::StornoOutcome::Rejected(rejection) => {
            let mut r = StornoResponse::new(StornoOutcome::Rejected, number);
            r.code = Some(rejection.code);
            r.message = Some(rejection.message);
            Ok(r)
        },
        gateway::StornoOutcome::CredentialsRejected(answer) => Err(
            AnsweredCode::CredentialsRejected(answer).into_fault(),
        ),
        gateway::StornoOutcome::Api(answer) => Err(AnsweredCode::Inconclusive(answer).into_fault()),
        gateway::StornoOutcome::Unavailable { message } => Err(
            Fault::szlahu_down_answer(message.as_str()),
        ),
    }
}

/// The message of a storno step that ended without a settled outcome.
pub open spec fn storno_unknown_text(error: &RunEnd, next: Seq<char>) -> Seq<char> {
    "the storno step ended without a confirmed outcome ("@ + decimal(error.code as nat) + "): "@
        + error.message@ + "; "@ + next
}

/// The fault of a storno step whose run ended without a settled outcome:
/// `outcome_unknown`, naming how the run ended, its last failure and what
/// the caller does next.
pub fn storno_outcome_unknown(error: &RunEnd, next: &str) -> (f: Fault)
    ensures
        f@ == plain(TerminalCode::OutcomeUnknown, storno_unknown_text(error, next@)),
{
    let code = decimal_text(error.code as u64);
    Fault::outcome_unknown(
        String::from_str("the storno step ended without a confirmed outcome (").concat(
            code.as_str(),
        ).concat("): ").concat(error.message.as_str()).concat("; ").concat(next),
    )
}

/// The storno number a best-effort order-number hint names for a document
/// the verify saw reversed: the hint when it is the `SS` referencing
/// `number`; unknown for any other document, nothing or another code;
/// rejected credentials stay a fault.
pub fn storno_number_from_hint(outcome: QueryOutcome, number: &str) -> (r: Result<Option<String>, Fault>)
    ensures
        match outcome {
            QueryOutcome::Found(doc) => if doc.spec_storno_of(number@) {
                r matches Ok(Some(n)) && n@ == doc.number@
            } else {
                r matches Ok(None)
            },
            QueryOutcome::NotFound | QueryOutcome::Api(_) => r matches Ok(None),
            QueryOutcome::CredentialsRejected(a) => r matches Err(f) && f@ == spec_answered_fault(
                &AnsweredCode::CredentialsRejected(a),
            ),
        },
{
    match outcome {
        QueryOutcome::Found(doc) => {
            if doc.is_storno_of(number) {
                Ok(Some(doc.number))
            } else {
                Ok(None)
            }
        },
        QueryOutcome::NotFound | QueryOutcome::Api(_) => Ok(None),
        QueryOutcome::CredentialsRejected(answer) => Err(
            AnsweredCode::CredentialsRejected(answer).into_fault(),
        ),
    }
}

/// The storno number a best-effort storno lookup names for a document the
/// verify saw reversed: the storno under the id when it was ours; unknown
/// when nothing is there or another code answered; rejected credentials
/// stay a fault.
pub fn storno_number_from_lookup(outcome: StornoLookupOutcome) -> (r: Result<Option<String>, Fault>)
    ensures
        match outcome {
            StornoLookupOutcome::AlreadyReversed { storno_number } => r matches Ok(Some(n)) && n@
                == storno_number@,
            StornoLookupOutcome::Absent | StornoLookupOutcome::Api(_) => r matches Ok(None),
            StornoLookupOutcome::CredentialsRejected(a) => r matches Err(f) && f@ == spec_answered_fault(
                &AnsweredCode::CredentialsRejected(a),
            ),
        },
{
    match outcome {
        StornoLookupOutcome::AlreadyReversed { storno_number } => Ok(Some(storno_number)),
        StornoLookupOutcome::Absent | StornoLookupOutcome::Api(_) => Ok(None),
        StornoLookupOutcome::CredentialsRejected(answer) => Err(
            AnsweredCode::CredentialsRejected(answer).into_fault(),
        ),
    }
}

/// The run name of a reversal's verify read.
pub open spec fn verify_run_name(mode: ReversalMode, number: Seq<char>) -> Seq<char> {
    match mode {
        ReversalMode::Managed { .. } => "verify-storno-"@ + number,
        ReversalMode::Unmanaged => "verify-"@ + number,
    }
}

/// What the caller of a storno step that ended unsettled does next.
pub open spec fn storno_next(mode: ReversalMode) -> Seq<char> {
    match mode {
        ReversalMode::Managed { .. } => "retry with a new Idempotency-Key"@,
        ReversalMode::Unmanaged => "call storno again"@,
    }
}

/// The verdict of a reversal under `mode` on `found`.
pub open spec fn spec_reversal_verdict(mode: ReversalMode, found: &FoundDocument, number: Seq<char>) -> VerdictView {
    match mode {
        ReversalMode::Managed { order } => spec_storno_verdict(found, order@, number),
        ReversalMode::Unmanaged => spec_unmanaged_storno_verdict(found, number),
    }
}

/// The message of an event that does not fit the stage.
pub open spec fn storno_out_of_order_text() -> Seq<char> {
    "the storno received an event out of order"@
}

/// Whose document a reversal reverses.
#[derive(Debug, PartialEq, Eq)]
pub enum ReversalMode {
    /// `Szamlazz.Order.storno_invoice`: an invoice of `order`.
    Managed { order: OrderKey },
    /// `Szamlazz.Agent.storno`: a document no order manages.
    Unmanaged,
}

/// Where a reversal stands.
#[derive(Clone, Copy, Debug, PartialEq, Eq, Structural)]
pub enum ReversalStage {
    Start,
    Verifying,
    NamingStorno,
    LookingUp,
    Reversing,
    Finished,
}

/// What the handler does next.
#[derive(Debug, PartialEq, Eq)]
pub enum ReversalAction {
    /// Run the verify read `name` of the invoice.
    Verify { name: String },
    /// Run the best-effort order-number hint `name` of `order`.
    Hint { name: String, order: OrderKey },
    /// Run the storno lookup `name` of `external_id`.
    LookupStorno { name: String, external_id: ExternalId },
    /// Run the storno step `name` sending `intent`.
    Storno { name: String, intent: StornoIntent },
    /// The invocation was cancelled: end with the run's own end.
    Cancelled(RunEnd),
    /// Answer the handler.
    Finish(Result<StornoResponse, Fault>),
}

/// What the handler hands back.
#[derive(Debug, PartialEq, Eq)]
pub enum ReversalEvent {
    Begin,
    /// The verify read's outcome, or the fault its run ended with.
    Verified(Result<QueryOutcome, Fault>),
    /// The hint's outcome, or how its run ended without one.
    Hinted(Result<QueryOutcome, RunEnd>),
    /// A storno lookup's outcome; `Err(Ok(fault))` when the read ended in a
    /// fault, `Err(Err(end))` when a best-effort read ended without one.
    LookedUp(Result<StornoLookupOutcome, Result<Fault, RunEnd>>),
    /// The storno step's outcome, or how its run ended without one.
    Reversed(Result<gateway::StornoOutcome, RunEnd>),
}

/// One storno handler execution: the verify decided by the verdict, the
/// intent, the storno lookup, the storno step and the answer from data.
#[derive(Debug, PartialEq, Eq)]
pub struct Reversal {
    mode: ReversalMode,
    namespace: Namespace,
    number: String,
    comment: Option<String>,
    default_e_invoice: bool,
    storno_id: ExternalId,
    kind: Option<IssuedKind>,
    intent: Option<StornoIntent>,
    stage: ReversalStage,
    /// Whether the verify let the storno proceed.
    verified: bool,
}

/// The storno external id of a reversal.
pub open spec fn spec_storno_id(mode: &ReversalMode, ns: Seq<char>, number: Seq<char>) -> Seq<char> {
    match mode {
        ReversalMode::Managed { order } => crate::identity::spec_storno_id(ns, order@, number),
        ReversalMode::Unmanaged => crate::identity::spec_unmanaged_storno_id(ns, number),
    }
}

impl Reversal {
    /// The stage.
    pub closed spec fn spec_stage(&self) -> ReversalStage {
        self.stage
    }

    /// Whether the verify let the storno proceed.
    pub closed spec fn spec_verified(&self) -> bool {
        self.verified
    }

    /// The storno external id.
    pub closed spec fn spec_storno_id(&self) -> Seq<char> {
        self.storno_id@
    }

    /// Whose invoice is reversed.
    pub closed spec fn spec_mode(&self) -> ReversalMode {
        self.mode
    }

    /// The invoice to reverse.
    pub closed spec fn spec_number(&self) -> Seq<char> {
        self.number@
    }

    /// The kind of the verified invoice, once known.
    pub closed spec fn spec_kind(&self) -> Option<IssuedKind> {
        self.kind
    }

    /// The intent the verify built.
    pub closed spec fn spec_intent(&self) -> Option<StornoIntent> {
        self.intent
    }

    /// The comment the storno carries.
    pub closed spec fn spec_comment(&self) -> Option<Seq<char>> {
        self.comment.deep_view()
    }

    /// The account's default e-invoice flag.
    pub closed spec fn spec_default_e_invoice(&self) -> bool {
        self.default_e_invoice
    }

    /// `f` as the reversal reports it: about the storno of the order when
    /// managed, bare otherwise.
    pub closed spec fn spec_about(&self, f: FaultView, kind: Option<IssuedKind>) -> FaultView {
        match self.mode {
            ReversalMode::Managed { order } => about(f, order@, kind, self.storno_id@),
            ReversalMode::Unmanaged => f,
        }
    }

    /// What every stage keeps: the lookup and the storno step come only
    /// after a verify that let the storno proceed, with its intent.
    pub closed spec fn wf(&self) -> bool {
        &&& (self.stage == ReversalStage::LookingUp || self.stage == ReversalStage::Reversing) ==> (self.verified
            && self.intent is Some)
    }

    /// The reversal of invoice `number` under `mode`, with the account's
    /// default e-invoice flag.
    pub fn new(mode: ReversalMode, namespace: Namespace, number: String, comment: Option<String>, default_e_invoice: bool) -> (r: Reversal)
        ensures
            r.wf(),
            r.spec_stage() == ReversalStage::Start,
            !r.spec_verified(),
            r.spec_storno_id() == spec_storno_id(&mode, namespace@, number@),
    {
        let storno_id = match &mode {
            ReversalMode::Managed { order } => ExternalId::for_storno(&namespace, order, number.as_str()),
            ReversalMode::Unmanaged => ExternalId::for_unmanaged_storno(&namespace, number.as_str()),
        };
        Reversal {
            mode,
            namespace,
            number,
            comment,
            default_e_invoice,
            storno_id,
            kind: None,
            intent: None,
            stage: ReversalStage::Start,
            verified: false,
        }
    }

    /// A fault of the managed reversal about its storno (`kind` once
    /// known); the unmanaged one's faults carry no order identity.
    fn about(&self, fault: Fault, kind: Option<IssuedKind>) -> (f: Fault)
        ensures
            f@ == self.spec_about(fault@, kind),
    {
        match &self.mode {
            ReversalMode::Managed { order } => fault.about(order, kind, &self.storno_id),
            ReversalMode::Unmanaged => fault,
        }
    }

    /// Finish with `r`.
    fn finish(&mut self, r: Result<StornoResponse, Fault>) -> (a: ReversalAction)
        requires
            old(self).wf(),
        ensures
            final(self).wf(),
            *final(self) == (Reversal { stage: ReversalStage::Finished, intent: None, ..*old(self) }),
            a == ReversalAction::Finish(r),
    {
        self.stage = ReversalStage::Finished;
        self.intent = None;
        ReversalAction::Finish(r)
    }

    /// One step. The storno is sent only after the verify found a live
    /// stornoable invoice (of this order, when managed) and the storno lookup
    /// found no storno of ours under the id; a cancelled best-effort read is
    /// never swallowed.
    pub fn step(&mut self, event: ReversalEvent) -> (a: ReversalAction)
        requires
            old(self).wf(),
        ensures
            final(self).wf(),
            a is Storno ==> final(self).spec_verified() && old(self).spec_stage() == ReversalStage::LookingUp
                && (event matches ReversalEvent::LookedUp(Ok(StornoLookupOutcome::Absent))),
            a matches ReversalAction::Cancelled(end) ==> end.code == crate::fault::CANCELLED,
            old(self).spec_stage() == ReversalStage::Finished ==> a is Finish,
            final(self).spec_mode() == old(self).spec_mode(),
            final(self).spec_number() == old(self).spec_number(),
            final(self).spec_storno_id() == old(self).spec_storno_id(),
            (old(self).spec_stage() == ReversalStage::Start && event is Begin) ==> (a matches ReversalAction::Verify {
                name,
            } && name@ == verify_run_name(old(self).spec_mode(), old(self).spec_number()) && final(self).spec_stage()
                == ReversalStage::Verifying),
            a matches ReversalAction::Hint { name, order } ==> old(self).spec_stage() == ReversalStage::Verifying
                && final(self).spec_stage() == ReversalStage::NamingStorno && name@ == "hint-storno-"@ + old(
                self).spec_number() && (old(self).spec_mode() matches ReversalMode::Managed { order: o } && order@
                == o@),
            a matches ReversalAction::LookupStorno { name, external_id } ==> old(self).spec_stage()
                == ReversalStage::Verifying && name@ == "lookup-storno-"@ + old(self).spec_number() && external_id@
                == old(self).spec_storno_id(),
            a matches ReversalAction::Storno { name, intent } ==> name@ == "storno-"@ + old(self).spec_number() && (
            old(self).spec_intent() matches Some(i) && intent.number@ == i.number@ && intent.storno_id@
                == i.storno_id@ && intent.comment.deep_view() == i.comment.deep_view() && intent.e_invoice
                == i.e_invoice && intent.fulfillment_date == i.fulfillment_date),
            event matches ReversalEvent::Verified(Err(f0)) ==> (old(self).spec_stage() == ReversalStage::Verifying
                ==> (a matches ReversalAction::Finish(Err(f)) && f@ == old(self).spec_about(f0@, None))),
            event matches ReversalEvent::Verified(Ok(o)) ==> (old(self).spec_stage() == ReversalStage::Verifying
                ==> match o {
                QueryOutcome::Found(found) => match spec_reversal_verdict(
                    old(self).spec_mode(),
                    &*found,
                    old(self).spec_number(),
                ) {
                    VerdictView::Answered(v) => a matches ReversalAction::Finish(Ok(r)) && r@ == v,
                    VerdictView::AlreadyReversed => final(self).spec_stage() == ReversalStage::NamingStorno && (
                    old(self).spec_mode() is Managed ==> a is Hint) && (old(self).spec_mode() is Unmanaged
                        ==> a is LookupStorno),
                    VerdictView::Proceed => match found.fulfillment_date {
                        None => a matches ReversalAction::Finish(Err(f)) && f@ == old(self).spec_about(
                            plain(TerminalCode::Unavailable, missing_fulfillment_date_text(old(self).spec_number())),
                            spec_kind_of_document_type(found.document_type@),
                        ),
                        Some(d) => a is LookupStorno && final(self).spec_stage() == ReversalStage::LookingUp
                            && final(self).spec_verified() && final(self).spec_kind() == spec_kind_of_document_type(
                            found.document_type@) && (final(self).spec_intent() matches Some(i) && i.fulfillment_date
                            == d && i.number@ == old(self).spec_number() && i.storno_id@ == old(
                            self).spec_storno_id() && i.comment.deep_view() == old(self).spec_comment()
                            && i.e_invoice == match found.e_invoice {
                            Some(e) => e,
                            None => old(self).spec_default_e_invoice(),
                        }),
                    },
                },
                QueryOutcome::NotFound => a matches ReversalAction::Finish(Err(f)) && f@ == old(self).spec_about(
                    plain(
                        TerminalCode::NotFound,
                        "invoice "@ + old(self).spec_number() + " is not known to szamlazz.hu (code 7)"@,
                    ),
                    None,
                ),
                QueryOutcome::Api(x) => a matches ReversalAction::Finish(Err(f)) && f@ == old(self).spec_about(
                    spec_answered_fault(&AnsweredCode::Inconclusive(x)),
                    None,
                ),
                QueryOutcome::CredentialsRejected(x) => a matches ReversalAction::Finish(Err(f)) && f@ == old(
                    self).spec_about(spec_answered_fault(&AnsweredCode::CredentialsRejected(x)), None),
            }),
            event matches ReversalEvent::Hinted(h) ==> (old(self).spec_stage() == ReversalStage::NamingStorno
                ==> match h {
                Ok(QueryOutcome::Found(doc)) => a matches ReversalAction::Finish(Ok(r)) && r@ == reversed_storno_view(
                    old(self).spec_number(),
                    if doc.spec_storno_of(old(self).spec_number()) {
                        Some(doc.number@)
                    } else {
                        None
                    },
                ),
                Ok(QueryOutcome::CredentialsRejected(x)) => a matches ReversalAction::Finish(Err(f)) && f@ == old(
                    self).spec_about(spec_answered_fault(&AnsweredCode::CredentialsRejected(x)), None),
                Ok(_) => a matches ReversalAction::Finish(Ok(r)) && r@ == reversed_storno_view(
                    old(self).spec_number(),
                    None,
                ),
                Err(end) => if end.code == CANCELLED {
                    a == ReversalAction::Cancelled(end)
                } else {
                    a matches ReversalAction::Finish(Ok(r)) && r@ == reversed_storno_view(old(self).spec_number(), None)
                },
            }),
            event matches ReversalEvent::LookedUp(l) ==> (old(self).spec_stage() == ReversalStage::NamingStorno
                ==> match l {
                Ok(StornoLookupOutcome::AlreadyReversed { storno_number }) => a matches ReversalAction::Finish(Ok(r))
                    && r@ == reversed_storno_view(old(self).spec_number(), Some(storno_number@)),
                Ok(StornoLookupOutcome::CredentialsRejected(x)) => a matches ReversalAction::Finish(Err(f)) && f@
                    == spec_answered_fault(&AnsweredCode::CredentialsRejected(x)),
                Ok(_) => a matches ReversalAction::Finish(Ok(r)) && r@ == reversed_storno_view(
                    old(self).spec_number(),
                    None,
                ),
                Err(Ok(f0)) => a matches ReversalAction::Finish(Err(f)) && f@ == f0@,
                Err(Err(end)) => if end.code == CANCELLED {
                    a == ReversalAction::Cancelled(end)
                } else {
                    a matches ReversalAction::Finish(Ok(r)) && r@ == reversed_storno_view(old(self).spec_number(), None)
                },
            }),
            event matches ReversalEvent::LookedUp(l) ==> (old(self).spec_stage() == ReversalStage::LookingUp
                ==> match l {
                Ok(StornoLookupOutcome::Absent) => a is Storno && final(self).spec_stage() == ReversalStage::Reversing,
                Ok(StornoLookupOutcome::AlreadyReversed { storno_number }) => a matches ReversalAction::Finish(Ok(r))
                    && r@ == reversed_storno_view(old(self).spec_number(), Some(storno_number@)),
                Ok(StornoLookupOutcome::CredentialsRejected(x)) => a matches ReversalAction::Finish(Err(f)) && f@
                    == old(self).spec_about(
                    spec_answered_fault(&AnsweredCode::CredentialsRejected(x)),
                    old(self).spec_kind(),
                ),
                Ok(StornoLookupOutcome::Api(x)) => a matches ReversalAction::Finish(Err(f)) && f@ == old(
                    self).spec_about(spec_answered_fault(&AnsweredCode::Inconclusive(x)), old(self).spec_kind()),
                Err(Ok(f0)) => a matches ReversalAction::Finish(Err(f)) && f@ == old(self).spec_about(
                    f0@,
                    old(self).spec_kind(),
                ),
                Err(Err(end)) => a matches ReversalAction::Finish(Err(f)) && f@ == old(self).spec_about(
                    spec_read_exhausted("lookup-storno"@, &end),
                    old(self).spec_kind(),
                ),
            }),
            event matches ReversalEvent::Reversed(Err(end)) ==> (old(self).spec_stage() == ReversalStage::Reversing
                ==> (a matches ReversalAction::Finish(Err(f)) && f@ == old(self).spec_about(
                plain(TerminalCode::OutcomeUnknown, storno_unknown_text(&end, storno_next(old(self).spec_mode()))),
                old(self).spec_kind(),
            ))),
            event matches ReversalEvent::Reversed(Ok(o)) ==> (old(self).spec_stage() == ReversalStage::Reversing
                ==> (a matches ReversalAction::Finish(r) && match (answer_view(&r), spec_storno_response(
                &o,
                old(self).spec_number(),
            )) {
                (Ok(x), Ok(y)) => x == y,
                (Err(x), Err(y)) => x == old(self).spec_about(y, old(self).spec_kind()),
                _ => false,
            })),
    {
        match (self.stage, event) {
            (ReversalStage::Start, ReversalEvent::Begin) => {
                self.stage = ReversalStage::Verifying;
                let name = match &self.mode {
                    ReversalMode::Managed { .. } => String::from_str("verify-storno-").concat(self.number.as_str()),
                    ReversalMode::Unmanaged => String::from_str("verify-").concat(self.number.as_str()),
                };
                ReversalAction::Verify { name }
            },
            (ReversalStage::Verifying, ReversalEvent::Verified(Err(fault))) => {
                let f = self.about(fault, None);
                self.finish(Err(f))
            },
            (ReversalStage::Verifying, ReversalEvent::Verified(Ok(outcome))) => {
                let found = match crate::fault::verified_document(outcome, self.number.as_str()) {
                    Ok(found) => found,
                    Err(fault) => {
                        let f = self.about(fault, None);
                        return self.finish(Err(f));
                    },
                };
                let verdict = match &self.mode {
                    ReversalMode::Managed { order } => storno_verdict(&found, order, self.number.as_str()),
                    ReversalMode::Unmanaged => unmanaged_storno_verdict(&found, self.number.as_str()),
                };
                match verdict {
                    StornoVerdict::Answered(response) => self.finish(Ok(response)),
                    StornoVerdict::AlreadyReversed => {
                        self.stage = ReversalStage::NamingStorno;
                        match &self.mode {
                            ReversalMode::Managed { order } => ReversalAction::Hint {
                                name: String::from_str("hint-storno-").concat(self.number.as_str()),
                                order: order.duplicate(),
                            },
                            ReversalMode::Unmanaged => ReversalAction::LookupStorno {
                                name: String::from_str("lookup-storno-").concat(self.number.as_str()),
                                external_id: self.storno_id.duplicate(),
                            },
                        }
                    },
                    StornoVerdict::Proceed => {
                        let kind = kind_of_document_type(found.document_type.as_str());
                        let comment = match &self.comment {
                            Some(c) => Some(c.clone()),
                            None => None,
                        };
                        match StornoIntent::from_verified(
                            &found,
                            self.default_e_invoice,
                            self.number.as_str(),
                            self.storno_id.duplicate(),
                            comment,
                        ) {
                            Err(fault) => {
                                let f = self.about(fault, kind);
                                self.finish(Err(f))
                            },
                            Ok(intent) => {
                                self.kind = kind;
                                self.intent = Some(intent);
                                self.verified = true;
                                self.stage = ReversalStage::LookingUp;
                                ReversalAction::LookupStorno {
                                    name: String::from_str("lookup-storno-").concat(self.number.as_str()),
                                    external_id: self.storno_id.duplicate(),
                                }
                            },
                        }
                    },
                }
            },
            (ReversalStage::NamingStorno, ReversalEvent::Hinted(result)) => {
                let outcome = match result {
                    Ok(outcome) => Some(outcome),
                    Err(end) => match best_effort(self.number.as_str(), end) {
                        Ok(()) => None,
                        Err(end) => {
                            self.stage = ReversalStage::Finished;
                            self.intent = None;
                            return ReversalAction::Cancelled(end);
                        },
                    },
                };
                let storno_number = match outcome {
                    None => None,
                    Some(outcome) => match storno_number_from_hint(outcome, self.number.as_str()) {
                        Ok(n) => n,
                        Err(fault) => {
                            let f = self.about(fault, None);
                            return self.finish(Err(f));
                        },
                    },
                };
                let response = reversed_response(self.number.as_str(), storno_number);
                self.finish(Ok(response))
            },
            (ReversalStage::NamingStorno, ReversalEvent::LookedUp(result)) => {
                let outcome = match result {
                    Ok(outcome) => Some(outcome),
                    Err(Ok(fault)) => return self.finish(Err(fault)),
                    Err(Err(end)) => match best_effort(self.number.as_str(), end) {
                        Ok(()) => None,
                        Err(end) => {
                            self.stage = ReversalStage::Finished;
                            self.intent = None;
                            return ReversalAction::Cancelled(end);
                        },
                    },
                };
                let storno_number = match outcome {
                    None => None,
                    Some(outcome) => match storno_number_from_lookup(outcome) {
                        Ok(n) => n,
                        Err(fault) => return self.finish(Err(fault)),
                    },
                };
                let response = reversed_response(self.number.as_str(), storno_number);
                self.finish(Ok(response))
            },
            (ReversalStage::LookingUp, ReversalEvent::LookedUp(Ok(outcome))) => {
                match after_storno_lookup(outcome, self.number.as_str()) {
                    Err(fault) => {
                        let f = self.about(fault, self.kind);
                        self.finish(Err(f))
                    },
                    Ok(ControlFlow::Break(response)) => self.finish(Ok(response)),
                    Ok(ControlFlow::Continue(())) => {
                        let intent = self.intent.take();
                        match intent {
                            Some(intent) => {
                                self.intent = Some(intent.duplicate());
                                self.stage = ReversalStage::Reversing;
                                ReversalAction::Storno {
                                    name: String::from_str("storno-").concat(self.number.as_str()),
                                    intent,
                                }
                            },
                            None => self.finish(Err(Fault::outcome_unknown(String::from_str(
                                "the storno received an event out of order",
                            )))),
                        }
                    },
                }
            },
            (ReversalStage::LookingUp, ReversalEvent::LookedUp(Err(failure))) => {
                let fault = match failure {
                    Ok(fault) => fault,
                    Err(end) => crate::fault::read_exhausted("lookup-storno", &end),
                };
                let f = self.about(fault, self.kind);
                self.finish(Err(f))
            },
            (ReversalStage::Reversing, ReversalEvent::Reversed(Err(end))) => {
                let next = match &self.mode {
                    ReversalMode::Managed { .. } => "retry with a new Idempotency-Key",
                    ReversalMode::Unmanaged => "call storno again",
                };
                let f = self.about(storno_outcome_unknown(&end, next), self.kind);
                self.finish(Err(f))
            },
            (ReversalStage::Reversing, ReversalEvent::Reversed(Ok(outcome))) => {
                match storno_response(outcome, self.number.as_str()) {
                    Ok(response) => self.finish(Ok(response)),
                    Err(fault) => {
                        let f = self.about(fault, self.kind);
                        self.finish(Err(f))
                    },
                }
            },
            _ => self.finish(Err(Fault::outcome_unknown(String::from_str(
                "the storno received an event out of order",
            )))),
        }
    }
}

} // verus!
