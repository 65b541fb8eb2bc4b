//! The step sequence of one Order write under its unresolved marker, as a
//! state machine: the handler performs each action (a durable run, a state
//! command, a checkpoint) and hands back what it settled. The marker is
//! stored before anything may be sent and cleared only once the write is
//! settled; every run that ends without a value leaves it stored.

use vstd::prelude::*;
use vstd::string::*;

use crate::fault::{about, is_cancelled, plain, Fault, FaultView, RunEnd, TerminalCode, CANCELLED};
use crate::gateway::{CreateOutcome, DeleteOutcome, FoundDocument, OwnershipOutcome, StornoOutcome, SzamlazzAnswer};
use crate::identity::Namespace;
use crate::prologue::Account;
use crate::text::text_eq;
use crate::identity::{ExternalId, OrderKey};
use crate::kinds::IssuedKind;
use crate::recovery::{read_fault, spec_ordinary_intent, spec_recovery_read_fault, ExecutionContract, OrdinaryIntent, ReplayWrite, UnresolvedWrite, WriteCheckpoint, WriteOperation};
use crate::text::{decimal, decimal_text};

verus! {

/// What one write settled.
#[derive(Debug, PartialEq, Eq)]
pub enum WriteResult {
    Create(CreateOutcome),
    Storno(StornoOutcome),
    Delete(DeleteOutcome),
    /// szamlazz.hu answered a code that settles nothing about the write;
    /// `credentials` when it was a credential code.
    Answered { credentials: bool, answer: SzamlazzAnswer },
    /// Nothing was settled; `reason` says why.
    Unresolved { reason: String },
}

impl WriteResult {
    /// Whether the write is settled.
    pub open spec fn spec_settled(&self) -> bool {
        !(self is Unresolved)
    }
}

/// Which protocol the write follows.
#[derive(Debug, PartialEq, Eq)]
pub enum WriteMode {
    /// The one-shot write: sent only under the permission that arming in
    /// this very execution grants, never on a replay. `name` is its run's.
    Protected { name: String },
    /// A request-response write that may be resent on replay, under the
    /// execution contract its intent carries.
    RequestResponse { write: ReplayWrite },
}

/// Where the write stands.
#[derive(Clone, Copy, Debug, PartialEq, Eq, Structural)]
pub enum WriteStage {
    /// Nothing done yet.
    Start,
    /// The prepare run is under way.
    Preparing,
    /// The marker command is being issued.
    Marking,
    /// The arming (or marker-acknowledging) run is under way.
    Arming,
    /// The write's own run is under way.
    Sending,
    /// The read-only reconciliation run is under way.
    Reconciling,
    /// The marker is being cleared; the result is settled.
    Clearing,
    /// The write has answered.
    Finished,
}

/// What the handler does next.
#[derive(Debug, PartialEq, Eq)]
pub enum WriteAction {
    /// Run the prepare step under `name`: journal the marker with the time.
    RunPrepare { name: String },
    /// Report `BeforeMarker`, store the marker, report `AfterMarker`.
    StoreMarker,
    /// Run the arming step under `name`; then report `after`, when given.
    RunArm { name: String, after: Option<WriteCheckpoint> },
    /// Run the write under `name`, with one attempt. Send to szamlazz.hu only
    /// when `send`; otherwise the run's result is `Unresolved { reason }`
    /// with `refusal`. Report `Sent` after.
    RunWrite { name: String, send: bool, refusal: String },
    /// Run the read-only reconciliation of `original` under `name`.
    RunReconcile { name: String, original: String },
    /// Report `Settled`, then clear the marker.
    ClearMarker,
    /// Answer the handler with this.
    Finish(Result<WriteResult, Fault>),
}

/// What the handler hands back after an action.
#[derive(Debug, PartialEq, Eq)]
pub enum WriteEvent {
    /// Start the write.
    Begin,
    /// The prepare run's journaled marker (the time filled in), or how it
    /// ended without one.
    Prepared(Result<UnresolvedWrite, RunEnd>),
    /// The marker command was issued.
    Marked,
    /// The arming run ended; `fresh` when its closure ran in this execution
    /// rather than replaying.
    Armed { result: Result<(), RunEnd>, fresh: bool },
    /// The write's run ended.
    Sent(Result<WriteResult, RunEnd>),
    /// The reconciliation run ended.
    Reconciled(Result<WriteResult, RunEnd>),
    /// The marker was cleared.
    Cleared,
}

/// One Order write in progress.
#[derive(Debug, PartialEq, Eq)]
pub struct OrderWrite {
    mode: WriteMode,
    order: OrderKey,
    external_id: ExternalId,
    expected_contract: Option<ExecutionContract>,
    stage: WriteStage,
    marker: Option<UnresolvedWrite>,
    stored: bool,
    /// Whether the write's own run was handed out.
    issued: bool,
    settled: Option<WriteResult>,
}

/// The run name of the prepare step.
pub open spec fn prepare_name(mode: &WriteMode) -> Seq<char> {
    match mode {
        WriteMode::Protected { .. } => "prepare-write"@,
        WriteMode::RequestResponse { write } => "prepare-"@ + write.spec_step() + "-write"@,
    }
}

/// The run name of the arming step.
pub open spec fn arm_name(mode: &WriteMode) -> Seq<char> {
    match mode {
        WriteMode::Protected { .. } => "arm-write"@,
        WriteMode::RequestResponse { write } => write.spec_step() + "-marker-committed"@,
    }
}

/// The run name of the write itself.
pub open spec fn write_run_name(mode: &WriteMode) -> Seq<char> {
    match mode {
        WriteMode::Protected { name } => name@,
        WriteMode::RequestResponse { write } => write.spec_write_name(),
    }
}

/// The run name of the reconciliation.
pub open spec fn reconcile_name(mode: &WriteMode) -> Seq<char> {
    match mode {
        WriteMode::Protected { .. } => "reconcile-write"@,
        WriteMode::RequestResponse { write } => "reconcile-"@ + write.spec_step() + "-write"@,
    }
}

/// The reason a write run carries when it may not send.
pub open spec fn refusal_text(mode: &WriteMode) -> Seq<char> {
    match mode {
        WriteMode::Protected { .. } => "send permission unavailable on replay; reconcile the earlier execution"@,
        WriteMode::RequestResponse { .. } => "outbound request differs from retained execution contract"@,
    }
}

/// The message of a run that ended at a durable await after the marker
/// was stored.
pub open spec fn uncertain_text(mode: &WriteMode, error: &RunEnd) -> Seq<char> {
    match mode {
        WriteMode::Protected { .. } => "the Order write ended at a durable await ("@ + decimal(error.code as nat) + ": "@
            + (if error.code == CANCELLED { "cancelled"@ } else { "unconfirmed"@ })
            + "); a send may have landed; the unresolved marker is retained; reconcile before deliberately authorizing another operation"@,
        WriteMode::RequestResponse { .. } => "replay-enabled Order write interrupted at durable await; marker retained"@,
    }
}

/// The error a reconciliation run fails with while the write stays
/// unresolved, so that its policy retries it: the original reason and the
/// latest.
pub open spec fn reconcile_failure_text(mode: &WriteMode, original: Seq<char>, latest: Seq<char>) -> Seq<char> {
    match mode {
        WriteMode::Protected { .. } => "Order write unresolved; original: "@ + original + "; latest reconciliation: "@
            + latest + "; reconciliation is read-only; absence does not authorize another send"@,
        WriteMode::RequestResponse { .. } => "ordinary write unresolved; original: "@ + original + "; latest: "@ + latest
            + "; reconciliation is read-only"@,
    }
}

/// The reconciliation run's verdict on what the read-only reconciliation
/// found: a settled result is the run's value, an unresolved one its
/// (retryable) error.
pub fn reconcile_verdict(mode: &WriteMode, original: &str, latest: WriteResult) -> (r: Result<WriteResult, String>)
    ensures
        match latest {
            WriteResult::Unresolved { reason } => r matches Err(e) && e@ == reconcile_failure_text(mode, original@, reason@),
            _ => r == Ok::<WriteResult, String>(latest),
        },
{
    match latest {
        WriteResult::Unresolved { reason } => {
            let text = match mode {
                WriteMode::Protected { .. } => String::from_str("Order write unresolved; original: ").concat(original).concat(
                    "; latest reconciliation: ",
                ).concat(reason.as_str()).concat(
                    "; reconciliation is read-only; absence does not authorize another send",
                ),
                WriteMode::RequestResponse { .. } => String::from_str("ordinary write unresolved; original: ").concat(
                    original,
                ).concat("; latest: ").concat(reason.as_str()).concat("; reconciliation is read-only"),
            };
            Err(text)
        },
        settled => Ok(settled),
    }
}

/// The kind a marker's operation issues, for the faults about it.
pub open spec fn operation_kind(operation: &WriteOperation, mode: &WriteMode) -> Option<IssuedKind> {
    match operation {
        WriteOperation::Create { kind, .. } => Some(*kind),
        WriteOperation::Delete { .. } => match mode {
            WriteMode::Protected { .. } => None,
            WriteMode::RequestResponse { .. } => Some(IssuedKind::Proforma),
        },
        WriteOperation::Storno { .. } => None,
    }
}

/// The kind a marker's operation issues, for the faults about it: a
/// create's kind; a request-response deletion's proforma; nothing else.
fn kind_of_operation(operation: &WriteOperation, mode: &WriteMode) -> (k: Option<IssuedKind>)
    ensures
        k == operation_kind(operation, mode),
{
    match operation {
        WriteOperation::Create { kind, .. } => Some(*kind),
        WriteOperation::Delete { .. } => match mode {
            WriteMode::Protected { .. } => None,
            WriteMode::RequestResponse { .. } => Some(IssuedKind::Proforma),
        },
        WriteOperation::Storno { .. } => None,
    }
}

/// The message of an event that does not fit the write's stage.
pub open spec fn write_out_of_order_text() -> Seq<char> {
    "the Order write protocol received an event out of order; the unresolved marker is retained"@
}

/// The marker a write stores for the prepared `m`: `m` itself for a
/// protected write, its ordinary intent for a request-response one.
pub open spec fn stored_marker(mode: &WriteMode, m: UnresolvedWrite) -> UnresolvedWrite {
    match mode {
        WriteMode::Protected { .. } => m,
        WriteMode::RequestResponse { .. } => spec_ordinary_intent(m),
    }
}

/// Whether `event` is one the write expects at `stage`.
pub open spec fn expected_event(stage: WriteStage, event: &WriteEvent) -> bool {
    match (stage, event) {
        (WriteStage::Start, WriteEvent::Begin) => true,
        (WriteStage::Preparing, WriteEvent::Prepared(_)) => true,
        (WriteStage::Marking, WriteEvent::Marked) => true,
        (WriteStage::Arming, WriteEvent::Armed { .. }) => true,
        (WriteStage::Sending, WriteEvent::Sent(_)) => true,
        (WriteStage::Reconciling, WriteEvent::Reconciled(_)) => true,
        (WriteStage::Clearing, WriteEvent::Cleared) => true,
        _ => false,
    }
}

/// Whether two execution contracts are the same.
fn same_contract(a: &Option<ExecutionContract>, b: &Option<ExecutionContract>) -> (eq: bool)
    ensures
        eq == (*a == *b),
{
    match (a, b) {
        (None, None) => true,
        (Some(ExecutionContract::RequestResponseOrdinaryV1), Some(ExecutionContract::RequestResponseOrdinaryV1)) => true,
        (Some(ExecutionContract::RequestResponsePrepaymentV1), Some(ExecutionContract::RequestResponsePrepaymentV1)) => true,
        (Some(ExecutionContract::RequestResponseFinalV1), Some(ExecutionContract::RequestResponseFinalV1)) => true,
        (Some(ExecutionContract::RequestResponseProformaV1), Some(ExecutionContract::RequestResponseProformaV1)) => true,
        (
            Some(ExecutionContract::RequestResponseDeleteV1 { mode: m1, force: f1, document_id: d1 }),
            Some(ExecutionContract::RequestResponseDeleteV1 { mode: m2, force: f2, document_id: d2 }),
        ) => *m1 == *m2 && *f1 == *f2 && *d1 == *d2,
        (
            Some(ExecutionContract::RequestResponseStornoV1 { document_id: d1, fulfillment_date: t1, e_invoice: e1, appearance: a1 }),
            Some(ExecutionContract::RequestResponseStornoV1 { document_id: d2, fulfillment_date: t2, e_invoice: e2, appearance: a2 }),
        ) => *d1 == *d2 && *t1 == *t2 && *e1 == *e2 && *a1 == *a2,
        _ => false,
    }
}

impl OrderWrite {
    /// The stage the write is in.
    pub closed spec fn spec_stage(&self) -> WriteStage {
        self.stage
    }

    /// Whether the marker is stored.
    /// Whether the write's own run was handed out: once per write at most.
    pub closed spec fn spec_issued(&self) -> bool {
        self.issued
    }

    /// Whether the marker is stored.
    pub closed spec fn spec_stored(&self) -> bool {
        self.stored
    }

    /// The settled result awaiting the marker's clearance.
    pub closed spec fn spec_settled_result(&self) -> Option<WriteResult> {
        self.settled
    }

    /// The protocol the write follows.
    pub closed spec fn spec_mode(&self) -> &WriteMode {
        &self.mode
    }

    /// The order whose document is written.
    pub closed spec fn spec_order(&self) -> Seq<char> {
        self.order@
    }

    /// The kind the faults about the write name: the kind the prepared
    /// marker's operation issues, once prepared.
    pub closed spec fn spec_kind(&self) -> Option<IssuedKind> {
        match self.marker {
            Some(m) => operation_kind(&m.operation, &self.mode),
            None => None,
        }
    }

    /// The external id of the written document.
    pub closed spec fn spec_external_id(&self) -> Seq<char> {
        self.external_id@
    }

    /// The contract a request-response intent must still carry when sent.
    pub closed spec fn spec_expected_contract(&self) -> Option<ExecutionContract> {
        self.expected_contract
    }

    /// The fault of a run that ended without a value once the marker is
    /// stored: `outcome_unknown` about the write's document.
    pub open spec fn uncertain_fault(&self, error: RunEnd) -> FaultView {
        about(
            plain(TerminalCode::OutcomeUnknown, uncertain_text(self.spec_mode(), &error)),
            self.spec_order(),
            self.spec_kind(),
            self.spec_external_id(),
        )
    }

    /// What every stage keeps: the marker is stored from the arming on and
    /// until it is cleared; a result awaits clearance exactly while
    /// clearing, and it is settled.
    pub closed spec fn wf(&self) -> bool {
        &&& (self.stage == WriteStage::Arming || self.stage == WriteStage::Sending || self.stage
            == WriteStage::Reconciling || self.stage == WriteStage::Clearing) ==> self.stored
        &&& (self.stage == WriteStage::Start || self.stage == WriteStage::Preparing || self.stage
            == WriteStage::Marking) ==> !self.stored
        &&& (self.stage == WriteStage::Marking || self.stage == WriteStage::Arming || self.stage
            == WriteStage::Sending || self.stage == WriteStage::Reconciling || self.stage == WriteStage::Clearing)
            ==> self.marker is Some
        &&& (self.stage == WriteStage::Sending || self.stage == WriteStage::Reconciling || self.stage
            == WriteStage::Clearing) ==> self.issued
        &&& (self.stage == WriteStage::Start || self.stage == WriteStage::Preparing || self.stage == WriteStage::Marking
            || self.stage == WriteStage::Arming) ==> !self.issued
        &&& (self.stage == WriteStage::Clearing <==> self.settled is Some)
        &&& self.settled matches Some(r) ==> r.spec_settled()
    }

    /// A write of `mode` for the `order`'s document under `external_id`.
    /// `expected_contract` is the contract a request-response intent must
    /// still carry when it is sent.
    pub fn new(
        mode: WriteMode,
        order: OrderKey,
        external_id: ExternalId,
        expected_contract: Option<ExecutionContract>,
    ) -> (w: OrderWrite)
        ensures
            w.wf(),
            w.spec_stage() == WriteStage::Start,
            !w.spec_stored(),
            *w.spec_mode() == mode,
            w.spec_expected_contract() == expected_contract,
            w.spec_marker() is None,
            w.spec_settled_result() is None,
            !w.spec_issued(),
            w.spec_order() == order@,
            w.spec_kind() is None,
            w.spec_external_id() == external_id@,
    {
        OrderWrite {
            mode,
            order,
            external_id,
            expected_contract,
            stage: WriteStage::Start,
            marker: None,
            stored: false,
            issued: false,
            settled: None,
        }
    }

    /// The prepared marker, once the prepare run answered.
    pub closed spec fn spec_marker(&self) -> Option<UnresolvedWrite> {
        self.marker
    }

    /// The prepared marker, once the prepare run answered.
    pub fn marker(&self) -> (m: Option<&UnresolvedWrite>)
        ensures
            m is Some == self.spec_marker() is Some,
            m matches Some(x) ==> self.spec_marker() == Some(*x),
    {
        match &self.marker {
            Some(m) => Some(m),
            None => None,
        }
    }

    /// The fault of a run that ended without a value once the marker is
    /// stored: `outcome_unknown` about the write's document.
    fn uncertain(&self, error: &RunEnd) -> (f: Fault)
        ensures
            f@ == self.uncertain_fault(*error),
    {
        let message = match &self.mode {
            WriteMode::Protected { .. } => {
                let verdict = if is_cancelled(error) { "cancelled" } else { "unconfirmed" };
                String::from_str("the Order write ended at a durable await (").concat(
                    decimal_text(error.code as u64).as_str(),
                ).concat(": ").concat(verdict).concat(
                    "); a send may have landed; the unresolved marker is retained; reconcile before deliberately authorizing another operation",
                )
            },
            WriteMode::RequestResponse { .. } => String::from_str(
                "replay-enabled Order write interrupted at durable await; marker retained",
            ),
        };
        let kind = match &self.marker {
            Some(m) => kind_of_operation(&m.operation, &self.mode),
            None => None,
        };
        Fault::outcome_unknown(message).about(&self.order, kind, &self.external_id)
    }

    /// One step: after `event`, the next action. Whatever the events, the
    /// marker is stored before a write may run; a protected write sends only
    /// when its arming ran in this very execution, never on a replay; the
    /// marker is cleared only with a settled result, and the write answers
    /// `Ok` only once it is cleared; a run that ends without a value leaves
    /// the marker as it was.
    pub fn step(&mut self, event: WriteEvent) -> (a: WriteAction)
        requires
            old(self).wf(),
        ensures
            final(self).wf(),
            final(self).spec_mode() == old(self).spec_mode(),
            final(self).spec_order() == old(self).spec_order(),
            final(self).spec_external_id() == old(self).spec_external_id(),
            final(self).spec_expected_contract() == old(self).spec_expected_contract(),
            a is RunWrite ==> final(self).spec_stored() && final(self).spec_stage() == WriteStage::Sending,
            a matches WriteAction::RunWrite { send, .. } ==> (old(self).spec_mode() is Protected ==> (send
                <==> (event matches WriteEvent::Armed { fresh: true, .. }))),
            a is ClearMarker ==> (final(self).spec_settled_result() matches Some(r) && r.spec_settled()),
            a matches WriteAction::Finish(Ok(r)) ==> old(self).spec_stage() == WriteStage::Clearing
                && !final(self).spec_stored() && r.spec_settled(),
            a matches WriteAction::Finish(Err(_)) ==> final(self).spec_stored() == old(self).spec_stored(),
            a is StoreMarker ==> old(self).spec_stage() == WriteStage::Preparing,
            a is RunWrite ==> !old(self).spec_issued() && final(self).spec_issued(),
            old(self).spec_issued() ==> final(self).spec_issued(),
            a is Finish ==> final(self).spec_stage() == WriteStage::Finished,
            old(self).spec_stage() == WriteStage::Finished ==> a is Finish && final(self).spec_stage()
                == WriteStage::Finished,
            a matches WriteAction::RunPrepare { name } ==> old(self).spec_stage() == WriteStage::Start && event
                is Begin && name@ == prepare_name(old(self).spec_mode()) && final(self).spec_stage()
                == WriteStage::Preparing,
            a matches WriteAction::RunArm { name, after } ==> old(self).spec_stage() == WriteStage::Marking
                && event is Marked && name@ == arm_name(old(self).spec_mode()) && (after is Some <==> old(
                self).spec_mode() is Protected) && (after matches Some(c) ==> c == WriteCheckpoint::Armed),
            a matches WriteAction::RunWrite { name, refusal, .. } ==> old(self).spec_stage() == WriteStage::Arming
                && name@ == write_run_name(old(self).spec_mode()) && refusal@ == refusal_text(
                old(self).spec_mode()),
            a matches WriteAction::RunWrite { send, .. } ==> (old(self).spec_mode() is RequestResponse ==> (send
                <==> (old(self).spec_marker() matches Some(m) && m.execution_contract == old(
                self).spec_expected_contract()))),
            a matches WriteAction::RunReconcile { name, original } ==> old(self).spec_stage() == WriteStage::Sending
                && name@ == reconcile_name(old(self).spec_mode()) && (event matches WriteEvent::Sent(
                Ok(WriteResult::Unresolved { reason })) && original@ == reason@),
            event matches WriteEvent::Prepared(Err(e)) ==> (old(self).spec_stage() == WriteStage::Preparing ==> (a
                matches WriteAction::Finish(Err(f)) && f@ == spec_recovery_read_fault(&e))),
            event matches WriteEvent::Armed { result: Err(e), .. } ==> (old(self).spec_stage() == WriteStage::Arming
                ==> (a matches WriteAction::Finish(Err(f)) && f@ == old(self).uncertain_fault(e))),
            event matches WriteEvent::Sent(Err(e)) ==> (old(self).spec_stage() == WriteStage::Sending ==> (a
                matches WriteAction::Finish(Err(f)) && f@ == old(self).uncertain_fault(e))),
            event matches WriteEvent::Reconciled(Err(e)) ==> (old(self).spec_stage() == WriteStage::Reconciling
                ==> (a matches WriteAction::Finish(Err(f)) && f@ == old(self).uncertain_fault(e))),
            event matches WriteEvent::Sent(Ok(r)) ==> ((old(self).spec_stage() == WriteStage::Sending
                && r.spec_settled()) ==> (a is ClearMarker && final(self).spec_settled_result() == Some(r))),
            event matches WriteEvent::Reconciled(Ok(r)) ==> ((old(self).spec_stage() == WriteStage::Reconciling
                && r.spec_settled()) ==> (a is ClearMarker && final(self).spec_settled_result() == Some(r))),
            (old(self).spec_stage() == WriteStage::Clearing && event is Cleared) ==> a == WriteAction::Finish(
                Ok(old(self).spec_settled_result().unwrap())),
            (old(self).spec_stage() == WriteStage::Start && event is Begin) ==> (a matches WriteAction::RunPrepare {
                name,
            } && name@ == prepare_name(old(self).spec_mode()) && final(self).spec_stage() == WriteStage::Preparing),
            event matches WriteEvent::Prepared(Ok(m)) ==> (old(self).spec_stage() == WriteStage::Preparing ==> (a
                is StoreMarker && final(self).spec_stage() == WriteStage::Marking && final(self).spec_marker()
                == Some(stored_marker(old(self).spec_mode(), m)))),
            !(old(self).spec_stage() == WriteStage::Preparing && event matches WriteEvent::Prepared(Ok(_))) ==> final(
                self).spec_marker() == old(self).spec_marker(),
            (old(self).spec_stage() == WriteStage::Marking && event is Marked) ==> (a is RunArm && final(
                self).spec_stage() == WriteStage::Arming && final(self).spec_stored()),
            event matches WriteEvent::Armed { result: Ok(()), fresh } ==> (old(self).spec_stage()
                == WriteStage::Arming ==> (a matches WriteAction::RunWrite { send, .. } && final(self).spec_stage()
                == WriteStage::Sending && (old(self).spec_mode() is Protected ==> send == fresh))),
            event matches WriteEvent::Sent(Ok(WriteResult::Unresolved { reason })) ==> (old(self).spec_stage()
                == WriteStage::Sending ==> (a matches WriteAction::RunReconcile { original, .. } && original@
                == reason@ && final(self).spec_stage() == WriteStage::Reconciling)),
            event matches WriteEvent::Reconciled(Ok(WriteResult::Unresolved { .. })) ==> (old(self).spec_stage()
                == WriteStage::Reconciling ==> (a matches WriteAction::Finish(Err(f)) && f@ == plain(
                TerminalCode::OutcomeUnknown,
                write_out_of_order_text(),
            ))),
            !expected_event(old(self).spec_stage(), &event) ==> (a matches WriteAction::Finish(Err(f)) && f@ == plain(
                TerminalCode::OutcomeUnknown,
                write_out_of_order_text(),
            ) && final(self).spec_stage() == WriteStage::Finished),
    {
        match (self.stage, event) {
            (WriteStage::Start, WriteEvent::Begin) => {
                self.stage = WriteStage::Preparing;
                let name = match &self.mode {
                    WriteMode::Protected { .. } => String::from_str("prepare-write"),
                    WriteMode::RequestResponse { write } => String::from_str("prepare-").concat(write.step()).concat(
                        "-write",
                    ),
                };
                WriteAction::RunPrepare { name }
            },
            (WriteStage::Preparing, WriteEvent::Prepared(Ok(marker))) => {
                let marker = match &self.mode {
                    WriteMode::Protected { .. } => marker,
                    WriteMode::RequestResponse { .. } => {
                        let intent = OrdinaryIntent::new(marker);
                        intent.into_marker()
                    },
                };
                self.marker = Some(marker);
                self.stage = WriteStage::Marking;
                WriteAction::StoreMarker
            },
            (WriteStage::Preparing, WriteEvent::Prepared(Err(error))) => {
                self.stage = WriteStage::Finished;
                WriteAction::Finish(Err(read_fault(&error)))
            },
            (WriteStage::Marking, WriteEvent::Marked) => {
                self.stored = true;
                self.stage = WriteStage::Arming;
                match &self.mode {
                    WriteMode::Protected { .. } => WriteAction::RunArm {
                        name: String::from_str("arm-write"),
                        after: Some(WriteCheckpoint::Armed),
                    },
                    WriteMode::RequestResponse { write } => WriteAction::RunArm {
                        name: String::from_str(write.step()).concat("-marker-committed"),
                        after: None,
                    },
                }
            },
            (WriteStage::Arming, WriteEvent::Armed { result: Ok(()), fresh }) => {
                self.stage = WriteStage::Sending;
                self.issued = true;
                match &self.mode {
                    WriteMode::Protected { name } => {
                        WriteAction::RunWrite {
                            name: name.clone(),
                            send: fresh,
                            refusal: String::from_str(
                                "send permission unavailable on replay; reconcile the earlier execution",
                            ),
                        }
                    },
                    WriteMode::RequestResponse { write } => {
                        let send = match &self.marker {
                            Some(m) => same_contract(&m.execution_contract, &self.expected_contract),
                            None => false,
                        };
                        WriteAction::RunWrite {
                            name: String::from_str(write.write_name()),
                            send,
                            refusal: String::from_str("outbound request differs from retained execution contract"),
                        }
                    },
                }
            },
            (WriteStage::Arming, WriteEvent::Armed { result: Err(error), .. }) => {
                self.stage = WriteStage::Finished;
                WriteAction::Finish(Err(self.uncertain(&error)))
            },
            (WriteStage::Sending, WriteEvent::Sent(Ok(result))) => {
                match result {
                    WriteResult::Unresolved { reason } => {
                        self.stage = WriteStage::Reconciling;
                        let name = match &self.mode {
                            WriteMode::Protected { .. } => String::from_str("reconcile-write"),
                            WriteMode::RequestResponse { write } => String::from_str("reconcile-").concat(
                                write.step(),
                            ).concat("-write"),
                        };
                        WriteAction::RunReconcile { name, original: reason }
                    },
                    settled => {
                        self.settled = Some(settled);
                        self.stage = WriteStage::Clearing;
                        WriteAction::ClearMarker
                    },
                }
            },
            (WriteStage::Sending, WriteEvent::Sent(Err(error))) => {
                self.stage = WriteStage::Finished;
                WriteAction::Finish(Err(self.uncertain(&error)))
            },
            (WriteStage::Reconciling, WriteEvent::Reconciled(Ok(result))) => {
                match result {
                    WriteResult::Unresolved { .. } => {
                        self.stage = WriteStage::Finished;
                        WriteAction::Finish(Err(Fault::outcome_unknown(String::from_str(
                            "the Order write protocol received an event out of order; the unresolved marker is retained",
                        ))))
                    },
                    settled => {
                        self.settled = Some(settled);
                        self.stage = WriteStage::Clearing;
                        WriteAction::ClearMarker
                    },
                }
            },
            (WriteStage::Reconciling, WriteEvent::Reconciled(Err(error))) => {
                self.stage = WriteStage::Finished;
                WriteAction::Finish(Err(self.uncertain(&error)))
            },
            (WriteStage::Clearing, WriteEvent::Cleared) => {
                self.stored = false;
                self.stage = WriteStage::Finished;
                let result = self.settled.take();
                match result {
                    Some(r) => WriteAction::Finish(Ok(r)),
                    None => WriteAction::Finish(Err(Fault::outcome_unknown(String::from_str(
                        "unexpected recovery operation",
                    )))),
                }
            },
            _ => {
                self.stage = WriteStage::Finished;
                self.settled = None;
                WriteAction::Finish(Err(Fault::outcome_unknown(String::from_str(
                    "the Order write protocol received an event out of order; the unresolved marker is retained",
                ))))
            },
        }
    }
}

/// The marker of a write about to be prepared: the invocation `invocation`
/// owns it and is its token; the creation time is filled in by the prepare
/// run.
pub fn new_marker(
    invocation: &str,
    scope: Option<&str>,
    order: &OrderKey,
    namespace: &Namespace,
    external_id: &ExternalId,
    account: &Account,
    operation: WriteOperation,
    execution_contract: Option<ExecutionContract>,
    proforma_number: Option<String>,
    prepayment_number: Option<String>,
) -> (m: UnresolvedWrite)
    ensures
        m.token@ == invocation@,
        m.owner_invocation@ == invocation@,
        m.created_at@.len() == 0,
        m.scope.deep_view() == match scope { Some(t) => Some(t@), None => None::<Seq<char>> },
        m.order@ == order@,
        m.namespace@ == namespace@,
        m.external_id@ == external_id@,
        m.account_id@ == account.id@,
        m.endpoint@ == account.endpoint@,
        m.credential_ref@ == account.credential_ref@,
        m.operation == operation,
        m.execution_contract == execution_contract,
        m.proforma_number == proforma_number,
        m.prepayment_number == prepayment_number,
{
    UnresolvedWrite {
        execution_contract,
        proforma_number,
        prepayment_number,
        token: String::from_str(invocation),
        owner_invocation: String::from_str(invocation),
        created_at: String::new(),
        scope: match scope {
            Some(t) => Some(String::from_str(t)),
            None => None,
        },
        order: order.duplicate(),
        namespace: namespace.duplicate(),
        external_id: String::from_str(external_id.as_str()),
        account_id: account.id.clone(),
        endpoint: account.endpoint.clone(),
        credential_ref: account.credential_ref.clone(),
        operation,
    }
}

/// The contract an ordinary request-response create is admitted under: by
/// the kind it issues.
pub open spec fn spec_ordinary_contract(operation: &WriteOperation) -> ExecutionContract {
    match operation {
        WriteOperation::Create { kind: IssuedKind::Prepayment, .. } => ExecutionContract::RequestResponsePrepaymentV1,
        WriteOperation::Create { kind: IssuedKind::Final, .. } => ExecutionContract::RequestResponseFinalV1,
        WriteOperation::Create { kind: IssuedKind::Proforma, .. } => ExecutionContract::RequestResponseProformaV1,
        _ => ExecutionContract::RequestResponseOrdinaryV1,
    }
}

/// The contract an ordinary request-response create is admitted under.
pub fn ordinary_contract(operation: &WriteOperation) -> (c: ExecutionContract)
    ensures
        c == spec_ordinary_contract(operation),
{
    match operation {
        WriteOperation::Create { kind: IssuedKind::Prepayment, .. } => ExecutionContract::RequestResponsePrepaymentV1,
        WriteOperation::Create { kind: IssuedKind::Final, .. } => ExecutionContract::RequestResponseFinalV1,
        WriteOperation::Create { kind: IssuedKind::Proforma, .. } => ExecutionContract::RequestResponseProformaV1,
        _ => ExecutionContract::RequestResponseOrdinaryV1,
    }
}

/// Whether two optional texts hold the same text.
fn same_text(a: &Option<String>, b: &Option<String>) -> (eq: bool)
    ensures
        eq == (a.deep_view() == b.deep_view()),
{
    match (a, b) {
        (Some(x), Some(y)) => text_eq(x.as_str(), y.as_str()),
        (None, None) => true,
        _ => false,
    }
}

/// The view of an operation, for comparisons.
pub open spec fn operation_view(o: &WriteOperation) -> (u8, Option<IssuedKind>, Option<Seq<char>>, Option<Seq<char>>, Seq<char>) {
    match o {
        WriteOperation::Create { kind, expected_number, corrected_number } => (
            0,
            Some(*kind),
            expected_number.deep_view(),
            corrected_number.deep_view(),
            Seq::empty(),
        ),
        WriteOperation::Storno { number } => (1, None, None, None, number@),
        WriteOperation::Delete { number } => (2, None, None, None, number@),
    }
}

/// Whether two operations are the same write.
pub fn same_operation(a: &WriteOperation, b: &WriteOperation) -> (eq: bool)
    ensures
        eq == (operation_view(a) == operation_view(b)),
{
    match (a, b) {
        (
            WriteOperation::Create { kind: k1, expected_number: e1, corrected_number: c1 },
            WriteOperation::Create { kind: k2, expected_number: e2, corrected_number: c2 },
        ) => *k1 == *k2 && same_text(e1, e2) && same_text(c1, c2),
        (WriteOperation::Storno { number: n1 }, WriteOperation::Storno { number: n2 }) => text_eq(n1.as_str(), n2.as_str()),
        (WriteOperation::Delete { number: n1 }, WriteOperation::Delete { number: n2 }) => text_eq(n1.as_str(), n2.as_str()),
        _ => false,
    }
}

/// The refusal to send a create whose outbound request is not the retained
/// intent.
pub open spec fn intent_differs_text() -> Seq<char> {
    "outbound request differs from retained issuance intent"@
}

/// Whether a request-response create may be sent: only when the outbound
/// request is exactly the retained intent (operation, proforma and
/// prepayment numbers); otherwise the write is left unresolved.
pub fn intent_check(
    marker: &UnresolvedWrite,
    operation: &WriteOperation,
    proforma_number: &Option<String>,
    prepayment_number: &Option<String>,
) -> (r: Option<WriteResult>)
    ensures
        r is None <==> (operation_view(&marker.operation) == operation_view(operation)
            && marker.proforma_number.deep_view() == proforma_number.deep_view()
            && marker.prepayment_number.deep_view() == prepayment_number.deep_view()),
        r matches Some(w) ==> (w matches WriteResult::Unresolved { reason } && reason@ == intent_differs_text()),
{
    if same_operation(&marker.operation, operation) && same_text(&marker.proforma_number, proforma_number)
        && same_text(&marker.prepayment_number, prepayment_number) {
        None
    } else {
        Some(WriteResult::Unresolved {
            reason: String::from_str("outbound request differs from retained issuance intent"),
        })
    }
}

/// An unresolved result with `reason`.
fn unresolved(reason: String) -> (w: WriteResult)
    ensures
        w == (WriteResult::Unresolved { reason }),
{
    WriteResult::Unresolved { reason }
}

/// The verdict on the fresh read of the proforma's namespace holder before
/// a request-response deletion: the holder must still be the pinned
/// proforma (same number and document id), else the write is left
/// unresolved with the reason; `unanswered` carries the cause of a read
/// that settled nothing.
pub fn holder_verdict(holder: Result<OwnershipOutcome, String>, pinned: &FoundDocument) -> (r: Option<WriteResult>)
    ensures
        r is None <==> (holder matches Ok(OwnershipOutcome::Live(c)) && c.number@ == pinned.number@
            && c.document_id == pinned.document_id) || (holder matches Ok(OwnershipOutcome::Reversed(c))
            && c.number@ == pinned.number@ && c.document_id == pinned.document_id),
        r matches Some(w) ==> w is Unresolved,
        holder is Err ==> r is Some,
{
    match holder {
        Ok(OwnershipOutcome::Live(current)) | Ok(OwnershipOutcome::Reversed(current)) => {
            if text_eq(current.number.as_str(), pinned.number.as_str()) && current.document_id == pinned.document_id {
                None
            } else {
                Some(unresolved(String::from_str("deletion namespace target changed or collided")))
            }
        },
        Ok(OwnershipOutcome::CredentialsRejected(answer)) => Some(unresolved(
            String::from_str("deletion namespace credentials rejected: ").concat(answer.code.as_str()),
        )),
        Ok(OwnershipOutcome::Absent) => Some(unresolved(String::from_str(
            "deletion namespace holder absent; absence does not settle deletion",
        ))),
        Ok(OwnershipOutcome::Api(answer)) => Some(unresolved(
            String::from_str("deletion namespace vendor code ").concat(answer.code.as_str()),
        )),
        Ok(OwnershipOutcome::Collision(_)) => Some(unresolved(String::from_str(
            "deletion namespace target changed or collided",
        ))),
        Err(cause) => Some(unresolved(String::from_str("deletion namespace query unanswered: ").concat(cause.as_str()))),
    }
}

/// What a request-response deletion's answer settles: only a deletion done
/// now settles it; every other answer leaves the earlier execution
/// unresolved, with the reason.
pub fn delete_write_result(outcome: DeleteOutcome) -> (w: WriteResult)
    ensures
        (outcome is Deleted) <==> (w matches WriteResult::Delete(DeleteOutcome::Deleted)),
        !(outcome is Deleted) ==> w is Unresolved,
{
    match outcome {
        DeleteOutcome::Deleted => WriteResult::Delete(DeleteOutcome::Deleted),
        DeleteOutcome::CredentialsRejected(answer) => unresolved(
            String::from_str("deletion credentials rejected: ").concat(answer.code.as_str()),
        ),
        DeleteOutcome::AlreadyGone => unresolved(String::from_str(
            "proforma reported absent; absence does not settle earlier deletion",
        )),
        DeleteOutcome::Paid => unresolved(String::from_str(
            "fresh deletion paid guard refused; earlier deletion remains unresolved",
        )),
        DeleteOutcome::TargetChanged => unresolved(String::from_str(
            "fresh deletion target changed; earlier deletion remains unresolved",
        )),
        DeleteOutcome::Api(answer) => unresolved(String::from_str("deletion guard vendor code ").concat(answer.code.as_str())),
        DeleteOutcome::Rejected(rejection) => unresolved(
            String::from_str("deletion refused: ").concat(rejection.code.as_str()).concat(
                "; earlier execution remains unresolved",
            ),
        ),
        DeleteOutcome::Inconclusive(answer) => unresolved(
            String::from_str("inconclusive deletion code ").concat(answer.code.as_str()),
        ),
        DeleteOutcome::GuardFailed(cause) => unresolved(
            String::from_str("deletion guard unanswered: ").concat(cause.message.as_str()),
        ),
        DeleteOutcome::Lost(cause) => unresolved(String::from_str("deletion answer lost: ").concat(cause.message.as_str())),
    }
}

} // verus!
