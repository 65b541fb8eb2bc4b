//! `delete_proforma`'s decisions: the target check and the guard on what the
//! lookup of the proforma's external id found, and the settled delete step
//! as the answer.

use vstd::prelude::*;
use vstd::string::*;

use std::ops::ControlFlow;

use crate::fault::{coded, plain, spec_answered_fault, AnsweredCode, Fault, FaultView, TerminalCode};
use crate::fault::about;
use crate::gateway::{DeleteOutcome, FoundDocument, OwnershipOutcome};
use crate::identity::{spec_kind_id, ExternalId, Namespace, OrderKey};
use crate::kinds::{DocumentKind, IssuedKind};
use crate::text::text_eq;
use crate::write::WriteResult;

verus! {

/// Why a proforma was, or was not, deleted.
#[derive(Debug, PartialEq, Eq)]
pub enum DeleteReason {
    /// Nothing is under the proforma's external id: deleted earlier or
    /// consumed (`get` tells which).
    Absent,
    /// The proforma under the id is not the one the caller expects.
    TargetChanged,
    /// Another document holds the id; it is never touched.
    ExternalIdCollision,
    /// The proforma carries a credit entry and the caller did not `force`.
    ProformaPaid,
    /// szamlazz.hu refused with this code.
    Szamlazz(String),
}

/// The answer of `delete_proforma`.
#[derive(Debug, PartialEq, Eq)]
pub struct DeleteProformaResponse {
    pub deleted: bool,
    pub reason: Option<DeleteReason>,
}

impl DeleteProformaResponse {
    /// Deleted now.
    pub fn deleted() -> (r: DeleteProformaResponse)
        ensures
            r.deleted && r.reason is None,
    {
        DeleteProformaResponse { deleted: true, reason: None }
    }

    /// Nothing under the id: `deleted{reason: absent}`.
    pub fn absent() -> (r: DeleteProformaResponse)
        ensures
            r.deleted && r.reason == Some(DeleteReason::Absent),
    {
        DeleteProformaResponse { deleted: true, reason: Some(DeleteReason::Absent) }
    }

    /// Not deleted, for `reason`.
    pub fn not_deleted(reason: DeleteReason) -> (r: DeleteProformaResponse)
        ensures
            !r.deleted && r.reason == Some(reason),
    {
        DeleteProformaResponse { deleted: false, reason: Some(reason) }
    }
}

/// Why a proforma was, or was not, deleted, mathematically.
pub ghost enum ReasonView {
    Absent,
    TargetChanged,
    ExternalIdCollision,
    ProformaPaid,
    Szamlazz(Seq<char>),
}

impl View for DeleteReason {
    type V = ReasonView;

    open spec fn view(&self) -> ReasonView {
        match self {
            DeleteReason::Absent => ReasonView::Absent,
            DeleteReason::TargetChanged => ReasonView::TargetChanged,
            DeleteReason::ExternalIdCollision => ReasonView::ExternalIdCollision,
            DeleteReason::ProformaPaid => ReasonView::ProformaPaid,
            DeleteReason::Szamlazz(code) => ReasonView::Szamlazz(code@),
        }
    }
}

impl View for DeleteProformaResponse {
    type V = (bool, Option<ReasonView>);

    open spec fn view(&self) -> (bool, Option<ReasonView>) {
        (
            self.deleted,
            match self.reason {
                Some(r) => Some(r@),
                None => None,
            },
        )
    }
}

/// The view of `delete_proforma`'s answer.
pub open spec fn delete_answer_view(r: &Result<DeleteProformaResponse, Fault>) -> Result<(bool, Option<ReasonView>), FaultView> {
    match r {
        Ok(resp) => Ok(resp@),
        Err(f) => Err(f@),
    }
}

/// The settled delete step as the answer.
pub open spec fn spec_delete_response(outcome: &DeleteOutcome) -> Result<(bool, Option<ReasonView>), FaultView> {
    match outcome {
        DeleteOutcome::Deleted | DeleteOutcome::AlreadyGone => Ok((true, None)),
        DeleteOutcome::Rejected(rejection) => Ok((false, Some(ReasonView::Szamlazz(rejection.code@)))),
        DeleteOutcome::TargetChanged => Ok((false, Some(ReasonView::TargetChanged))),
        DeleteOutcome::Paid => Ok((false, Some(ReasonView::ProformaPaid))),
        DeleteOutcome::Api(a) => Err(spec_answered_fault(&AnsweredCode::Inconclusive(*a))),
        DeleteOutcome::GuardFailed(cause) => Err(plain(TerminalCode::Unavailable, guard_failed_text(cause.message@))),
        DeleteOutcome::CredentialsRejected(a) => Err(spec_answered_fault(&AnsweredCode::CredentialsRejected(*a))),
        DeleteOutcome::Lost(lost) => Err(plain(TerminalCode::OutcomeUnknown, delete_unknown_text(lost.message@))),
        DeleteOutcome::Inconclusive(a) => Err(
            coded(
                plain(
                    TerminalCode::OutcomeUnknown,
                    delete_unknown_text(crate::gateway::answer_text(a.code@, a.message@)),
                ),
                a.code@,
            ),
        ),
    }
}

/// Whether the lookup found a proforma of ours other than `expected`.
pub open spec fn spec_target_changed(found: &OwnershipOutcome, expected: Seq<char>) -> bool {
    match found {
        OwnershipOutcome::Live(doc) | OwnershipOutcome::Reversed(doc) => doc.number@ != expected,
        _ => false,
    }
}

/// Whether the lookup found a proforma of ours other than `expected`: the
/// caller's target changed, and nothing is sent.
pub fn target_changed(found: &OwnershipOutcome, expected: &str) -> (b: bool)
    ensures
        b == spec_target_changed(found, expected@),
{
    match found {
        OwnershipOutcome::Live(doc) | OwnershipOutcome::Reversed(doc) => !text_eq(
            doc.number.as_str(),
            expected,
        ),
        _ => false,
    }
}

/// The guard before the delete step, on what the lookup found: nothing is
/// `deleted{absent}`; another document `not_deleted{external_id_collision}`;
/// a proforma with a credit entry without `force`
/// `not_deleted{proforma_paid}`; any other proforma of ours, live or
/// reversed, is the target (`Continue`). An answered code is a fault.
pub fn delete_guard(found: OwnershipOutcome, force: bool) -> (r: Result<ControlFlow<DeleteProformaResponse, Box<FoundDocument>>, Fault>)
    ensures
        match found {
            OwnershipOutcome::Absent => r matches Ok(ControlFlow::Break(resp)) && resp.deleted
                && resp.reason == Some(DeleteReason::Absent),
            OwnershipOutcome::Collision(_) => r matches Ok(ControlFlow::Break(resp)) && !resp.deleted
                && resp.reason == Some(DeleteReason::ExternalIdCollision),
            OwnershipOutcome::Live(doc) | OwnershipOutcome::Reversed(doc) => if doc.payments@.len()
                > 0 && !force {
                r matches Ok(ControlFlow::Break(resp)) && !resp.deleted && resp.reason == Some(
                    DeleteReason::ProformaPaid,
                )
            } else {
                r == Ok::<ControlFlow<DeleteProformaResponse, Box<FoundDocument>>, Fault>(
                    ControlFlow::Continue(doc),
                )
            },
            OwnershipOutcome::Api(a) => r matches Err(f) && f@ == spec_answered_fault(
                &AnsweredCode::Inconclusive(a),
            ),
            OwnershipOutcome::CredentialsRejected(a) => r matches Err(f) && f@ == spec_answered_fault(
                &AnsweredCode::CredentialsRejected(a),
            ),
        },
{
    let found = match found {
        OwnershipOutcome::Absent => {
            return Ok(ControlFlow::Break(DeleteProformaResponse::absent()));
        },
        OwnershipOutcome::Collision(_) => {
            return Ok(
                ControlFlow::Break(DeleteProformaResponse::not_deleted(DeleteReason::ExternalIdCollision)),
            );
        },
        OwnershipOutcome::Live(doc) | OwnershipOutcome::Reversed(doc) => doc,
        OwnershipOutcome::Api(answer) => {
            return Err(AnsweredCode::Inconclusive(answer).into_fault());
        },
        OwnershipOutcome::CredentialsRejected(answer) => {
            return Err(AnsweredCode::CredentialsRejected(answer).into_fault());
        },
    };
    if found.payments.len() > 0 && !force {
        return Ok(ControlFlow::Break(DeleteProformaResponse::not_deleted(DeleteReason::ProformaPaid)));
    }
    Ok(ControlFlow::Continue(found))
}

/// What a caller does after a deletion whose outcome is not known.
pub open spec fn delete_recovery() -> Seq<char> {
    "read get and query the expected number; reconcile the earlier send, then, if deletion is still intended, retry with a new Idempotency-Key and the same expected_number; never substitute a replacement automatically"@
}

/// The message of a deletion whose outcome is not known.
pub open spec fn delete_unknown_text(lost: Seq<char>) -> Seq<char> {
    "proforma deletion outcome unknown: "@ + lost + "; deletion may have landed: "@ + delete_recovery()
}

/// The `outcome_unknown` fault of a deletion whose answer was lost.
pub fn delete_unknown(lost: &str) -> (f: Fault)
    ensures
        f@ == plain(TerminalCode::OutcomeUnknown, delete_unknown_text(lost@)),
{
    Fault::outcome_unknown(
        String::from_str("proforma deletion outcome unknown: ").concat(lost).concat(
            "; deletion may have landed: ",
        ).concat(
            "read get and query the expected number; reconcile the earlier send, then, if deletion is still intended, retry with a new Idempotency-Key and the same expected_number; never substitute a replacement automatically",
        ),
    )
}

/// The message of a fresh guard whose read settled nothing.
pub open spec fn guard_failed_text(cause: Seq<char>) -> Seq<char> {
    "could not refresh the pinned proforma before deletion: "@ + cause + "; the outcome is not known; "@
        + delete_recovery()
}

/// The settled delete step as the answer: deleted, and gone since the lookup
/// (335), are both `deleted`; szamlazz.hu refusing is `not_deleted` with its
/// code; the fresh guards' refusals are `not_deleted` with theirs. A fresh
/// read that settled nothing is `unavailable`; rejected credentials and an
/// inconclusive code are faults; a lost or inconclusive answer is
/// `outcome_unknown`.
pub fn delete_response(outcome: DeleteOutcome) -> (r: Result<DeleteProformaResponse, Fault>)
    ensures
        delete_answer_view(&r) == spec_delete_response(&outcome),
        match outcome {
            DeleteOutcome::Deleted | DeleteOutcome::AlreadyGone => r matches Ok(resp) && resp.deleted
                && resp.reason is None,
            DeleteOutcome::Rejected(rejection) => r matches Ok(resp) && !resp.deleted && (
            resp.reason matches Some(DeleteReason::Szamlazz(code)) && code@ == rejection.code@),
            DeleteOutcome::TargetChanged => r matches Ok(resp) && !resp.deleted && resp.reason == Some(
                DeleteReason::TargetChanged,
            ),
            DeleteOutcome::Paid => r matches Ok(resp) && !resp.deleted && resp.reason == Some(
                DeleteReason::ProformaPaid,
            ),
            DeleteOutcome::Api(a) => r matches Err(f) && f@ == spec_answered_fault(
                &AnsweredCode::Inconclusive(a),
            ),
            DeleteOutcome::GuardFailed(cause) => r matches Err(f) && f@ == plain(
                TerminalCode::Unavailable,
                guard_failed_text(cause.message@),
            ),
            DeleteOutcome::CredentialsRejected(a) => r matches Err(f) && f@ == spec_answered_fault(
                &AnsweredCode::CredentialsRejected(a),
            ),
            DeleteOutcome::Lost(lost) => r matches Err(f) && f@ == plain(
                TerminalCode::OutcomeUnknown,
                delete_unknown_text(lost.message@),
            ),
            DeleteOutcome::Inconclusive(a) => r matches Err(f) && f@ == coded(
                plain(
                    TerminalCode::OutcomeUnknown,
                    delete_unknown_text(crate::gateway::answer_text(a.code@, a.message@)),
                ),
                a.code@,
            ),
        },
{
    match outcome {
        DeleteOutcome::Deleted | DeleteOutcome::AlreadyGone => Ok(DeleteProformaResponse::deleted()),
        DeleteOutcome::Rejected(rejection) => Ok(
            DeleteProformaResponse::not_deleted(DeleteReason::Szamlazz(rejection.code)),
        ),
        DeleteOutcome::TargetChanged => Ok(DeleteProformaResponse::not_deleted(DeleteReason::TargetChanged)),
        DeleteOutcome::Paid => Ok(DeleteProformaResponse::not_deleted(DeleteReason::ProformaPaid)),
        DeleteOutcome::Api(answer) => Err(AnsweredCode::Inconclusive(answer).into_fault()),
        DeleteOutcome::GuardFailed(cause) => Err(
            Fault::unavailable(
                String::from_str("could not refresh the pinned proforma before deletion: ").concat(
                    cause.message.as_str(),
                ).concat("; the outcome is not known; ").concat(
                    "read get and query the expected number; reconcile the earlier send, then, if deletion is still intended, retry with a new Idempotency-Key and the same expected_number; never substitute a replacement automatically",
                ),
            ),
        ),
        DeleteOutcome::CredentialsRejected(answer) => Err(
            AnsweredCode::CredentialsRejected(answer).into_fault(),
        ),
        DeleteOutcome::Lost(lost) => Err(delete_unknown(lost.message.as_str())),
        DeleteOutcome::Inconclusive(answer) => {
            let text = answer.text();
            Err(delete_unknown(text.as_str()).with_szamlazz_code(answer.code.as_str()))
        },
    }
}

/// The message of a fault about the proforma `number`.
pub open spec fn about_proforma_text(number: Seq<char>, message: Seq<char>) -> Seq<char> {
    "proforma "@ + number + ": "@ + message
}

/// A fault of the delete step, naming the proforma it was about first.
pub fn about_proforma(number: &str, fault: Fault) -> (f: Fault)
    ensures
        f@ == (FaultView { message: about_proforma_text(number@, fault.message@), ..fault@ }),
{
    let message = String::from_str("proforma ").concat(number).concat(": ").concat(
        fault.message.as_str(),
    );
    Fault { message, ..fault }
}

/// Where a `delete_proforma` execution stands.
#[derive(Clone, Copy, Debug, PartialEq, Eq, Structural)]
pub enum DeletionStage {
    Start,
    LookingUp,
    Writing,
    Finished,
}

/// What the handler does next.
#[derive(Debug, PartialEq, Eq)]
pub enum DeletionAction {
    /// Run the read `lookup-proforma` of the proforma's external id.
    Lookup { external_id: ExternalId },
    /// Run the protected write `name` deleting `target` (with `force`) under
    /// the unresolved marker of `Delete { number }`.
    Write { name: String, number: String, target: Box<FoundDocument>, force: bool },
    /// Answer the handler.
    Finish(Result<DeleteProformaResponse, Fault>),
}

/// What the handler hands back.
#[derive(Debug, PartialEq, Eq)]
pub enum DeletionEvent {
    Begin,
    /// The lookup's outcome, or the fault its run ended with.
    LookedUp(Result<OwnershipOutcome, Fault>),
    /// The protected write's answer.
    Written(Result<WriteResult, Fault>),
}

/// One `delete_proforma` execution: one read, the target check and the
/// guard, the protected delete step, and the answer from data.
#[derive(Debug, PartialEq, Eq)]
pub struct Deletion {
    order: OrderKey,
    proforma_id: ExternalId,
    expected_number: String,
    force: bool,
    stage: DeletionStage,
    number: Option<String>,
}

impl Deletion {
    /// The stage.
    pub closed spec fn spec_stage(&self) -> DeletionStage {
        self.stage
    }

    /// The order.
    pub closed spec fn spec_order(&self) -> Seq<char> {
        self.order@
    }

    /// The proforma's external id.
    pub closed spec fn spec_proforma_id(&self) -> Seq<char> {
        self.proforma_id@
    }

    /// The number the caller expects to delete.
    pub closed spec fn spec_expected(&self) -> Seq<char> {
        self.expected_number@
    }

    /// Whether the caller forces the deletion of a paid proforma.
    pub closed spec fn spec_force(&self) -> bool {
        self.force
    }

    /// The number being deleted, once the write runs.
    pub closed spec fn spec_number(&self) -> Option<Seq<char>> {
        self.number.deep_view()
    }

    /// A fault about the proforma.
    pub closed spec fn spec_about(&self, f: FaultView) -> FaultView {
        about(f, self.order@, Some(IssuedKind::Proforma), self.proforma_id@)
    }

    /// The number being deleted, once the write runs.
    pub closed spec fn wf(&self) -> bool {
        self.stage == DeletionStage::Writing ==> self.number is Some
    }

    /// The deletion of the proforma of `order` numbered `expected_number`.
    pub fn new(namespace: &Namespace, order: OrderKey, expected_number: String, force: bool) -> (d: Deletion)
        ensures
            d.wf(),
            d.spec_stage() == DeletionStage::Start,
            d.spec_order() == order@,
            d.spec_proforma_id() == spec_kind_id(namespace@, order@, IssuedKind::Proforma),
            d.spec_expected() == expected_number@,
            d.spec_force() == force,
    {
        let proforma_id = ExternalId::for_kind(namespace, &order, DocumentKind::Proforma);
        Deletion { order, proforma_id, expected_number, force, stage: DeletionStage::Start, number: None }
    }

    /// A fault about the proforma.
    fn about(&self, fault: Fault) -> (f: Fault)
        ensures
            f@ == about(fault@, self.order@, Some(IssuedKind::Proforma), self.proforma_id@),
    {
        fault.about(&self.order, Some(IssuedKind::Proforma), &self.proforma_id)
    }

    /// One step. The delete is sent only for the expected proforma of ours,
    /// and a proforma carrying a credit entry only when forced.
    pub fn step(&mut self, event: DeletionEvent) -> (a: DeletionAction)
        requires
            old(self).wf(),
        ensures
            final(self).wf(),
            final(self).spec_expected() == old(self).spec_expected(),
            final(self).spec_force() == old(self).spec_force(),
            a matches DeletionAction::Write { number, target, force, .. } ==> number == target.number
                && target.number@ == old(self).spec_expected() && (target.payments@.len() > 0 ==> force)
                && force == old(self).spec_force() && old(self).spec_stage() == DeletionStage::LookingUp,
            a matches DeletionAction::Lookup { external_id } ==> external_id@ == old(self).spec_proforma_id(),
            old(self).spec_stage() == DeletionStage::Finished ==> a is Finish,
            final(self).spec_order() == old(self).spec_order(),
            final(self).spec_proforma_id() == old(self).spec_proforma_id(),
            (old(self).spec_stage() == DeletionStage::Start && event is Begin) ==> (a is Lookup && final(
                self).spec_stage() == DeletionStage::LookingUp),
            event matches DeletionEvent::LookedUp(Err(f0)) ==> (old(self).spec_stage() == DeletionStage::LookingUp
                ==> (a matches DeletionAction::Finish(Err(f)) && f@ == f0@)),
            event matches DeletionEvent::LookedUp(Ok(found)) ==> (old(self).spec_stage() == DeletionStage::LookingUp
                ==> if spec_target_changed(&found, old(self).spec_expected()) {
                a matches DeletionAction::Finish(Ok(r)) && r@ == (false, Some(ReasonView::TargetChanged))
            } else {
                match found {
                    OwnershipOutcome::Absent => a matches DeletionAction::Finish(Ok(r)) && r@ == (
                        true,
                        Some(ReasonView::Absent),
                    ),
                    OwnershipOutcome::Collision(_) => a matches DeletionAction::Finish(Ok(r)) && r@ == (
                        false,
                        Some(ReasonView::ExternalIdCollision),
                    ),
                    OwnershipOutcome::Live(doc) | OwnershipOutcome::Reversed(doc) => if doc.payments@.len() > 0
                        && !old(self).spec_force() {
                        a matches DeletionAction::Finish(Ok(r)) && r@ == (false, Some(ReasonView::ProformaPaid))
                    } else {
                        a matches DeletionAction::Write { name, target, .. } && target == doc && name@
                            == "delete-proforma-"@ + doc.number@ && final(self).spec_stage()
                            == DeletionStage::Writing && final(self).spec_number() == Some(doc.number@)
                    },
                    OwnershipOutcome::Api(x) => a matches DeletionAction::Finish(Err(f)) && f@ == old(
                        self).spec_about(spec_answered_fault(&AnsweredCode::Inconclusive(x))),
                    OwnershipOutcome::CredentialsRejected(x) => a matches DeletionAction::Finish(Err(f)) && f@
                        == old(self).spec_about(spec_answered_fault(&AnsweredCode::CredentialsRejected(x))),
                }
            }),
            event matches DeletionEvent::Written(Err(f0)) ==> (old(self).spec_stage() == DeletionStage::Writing
                ==> (a matches DeletionAction::Finish(Err(f)) && f@ == f0@)),
            event matches DeletionEvent::Written(Ok(w)) ==> (old(self).spec_stage() == DeletionStage::Writing
                ==> match w {
                WriteResult::Delete(o) => a matches DeletionAction::Finish(r) && match (
                    delete_answer_view(&r),
                    spec_delete_response(&o),
                ) {
                    (Ok(x), Ok(y)) => x == y,
                    (Err(x), Err(y)) => old(self).spec_number() matches Some(n) && x == old(self).spec_about(
                        FaultView { message: about_proforma_text(n, y.message), ..y },
                    ),
                    _ => false,
                },
                _ => a matches DeletionAction::Finish(Err(f)) && f@ == plain(
                    TerminalCode::OutcomeUnknown,
                    "unexpected recovery operation"@,
                ),
            }),
    {
        match (self.stage, event) {
            (DeletionStage::Start, DeletionEvent::Begin) => {
                self.stage = DeletionStage::LookingUp;
                DeletionAction::Lookup { external_id: self.proforma_id.duplicate() }
            },
            (DeletionStage::LookingUp, DeletionEvent::LookedUp(Err(fault))) => {
                self.stage = DeletionStage::Finished;
                DeletionAction::Finish(Err(fault))
            },
            (DeletionStage::LookingUp, DeletionEvent::LookedUp(Ok(found))) => {
                self.stage = DeletionStage::Finished;
                if target_changed(&found, self.expected_number.as_str()) {
                    return DeletionAction::Finish(Ok(DeleteProformaResponse::not_deleted(DeleteReason::TargetChanged)));
                }
                match delete_guard(found, self.force) {
                    Err(fault) => DeletionAction::Finish(Err(self.about(fault))),
                    Ok(ControlFlow::Break(response)) => DeletionAction::Finish(Ok(response)),
                    Ok(ControlFlow::Continue(target)) => {
                        let number = target.number.clone();
                        self.number = Some(number.clone());
                        self.stage = DeletionStage::Writing;
                        DeletionAction::Write {
                            name: String::from_str("delete-proforma-").concat(number.as_str()),
                            number,
                            target,
                            force: self.force,
                        }
                    },
                }
            },
            (DeletionStage::Writing, DeletionEvent::Written(result)) => {
                self.stage = DeletionStage::Finished;
                let number = match &self.number {
                    Some(n) => n.clone(),
                    None => String::new(),
                };
                match result {
                    Err(fault) => DeletionAction::Finish(Err(fault)),
                    Ok(WriteResult::Delete(outcome)) => match delete_response(outcome) {
                        Ok(response) => DeletionAction::Finish(Ok(response)),
                        Err(fault) => DeletionAction::Finish(Err(self.about(about_proforma(number.as_str(), fault)))),
                    },
                    Ok(_) => DeletionAction::Finish(Err(Fault::outcome_unknown(String::from_str(
                        "unexpected recovery operation",
                    )))),
                }
            },
            _ => {
                self.stage = DeletionStage::Finished;
                DeletionAction::Finish(Err(Fault::outcome_unknown(String::from_str(
                    "the deletion received an event out of order",
                ))))
            },
        }
    }
}

} // verus!
