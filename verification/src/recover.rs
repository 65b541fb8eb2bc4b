//! `recover_marker` as a state machine: an operator's evidence about an
//! unresolved write is checked against the exact stored marker, a document
//! named as evidence is verified read-only, and the marker is cleared only
//! after the accepted evidence is recorded.

use vstd::prelude::*;
use vstd::string::*;

use crate::fault::{plain, spec_answered_fault, AnsweredCode, Fault, FaultView, RunEnd, TerminalCode};
use crate::recovery::{
    completion_mismatch_text, read_fault, spec_completion_fits, spec_recovery_read_fault, validate_completion,
    AttestedCompletion, UnresolvedWrite,
};
use crate::text::{trim, trimmed};
use crate::write::WriteResult;

verus! {

/// What an operator brings as evidence of an unresolved write's fate.
#[derive(Debug, PartialEq, Eq)]
pub enum RecoveryEvidence {
    /// The write never executed, by the operator's attestation.
    NotExecuted { audit_reference: String },
    /// The write completed as `completion` says, by the operator's
    /// attestation.
    Completed { audit_reference: String, completion: AttestedCompletion },
    /// Document `number` settles the write; it is verified before it counts.
    Document { number: String },
}

impl RecoveryEvidence {
    /// A copy of the evidence.
    pub fn duplicate(&self) -> (e: RecoveryEvidence)
        ensures
            e == *self,
    {
        match self {
            RecoveryEvidence::NotExecuted { audit_reference } => RecoveryEvidence::NotExecuted {
                audit_reference: audit_reference.clone(),
            },
            RecoveryEvidence::Completed { audit_reference, completion } => RecoveryEvidence::Completed {
                audit_reference: audit_reference.clone(),
                completion: match completion {
                    AttestedCompletion::Issued { number } => AttestedCompletion::Issued { number: number.clone() },
                    AttestedCompletion::Reversed { number } => AttestedCompletion::Reversed { number: number.clone() },
                    AttestedCompletion::Deleted { number } => AttestedCompletion::Deleted { number: number.clone() },
                },
            },
            RecoveryEvidence::Document { number } => RecoveryEvidence::Document { number: number.clone() },
        }
    }
}

/// What a recovery records and answers: the unresolved write's token, the
/// operator who recovered it, and the evidence.
#[derive(Debug, PartialEq, Eq)]
pub struct RecoveryReceipt {
    pub token: String,
    pub operator: String,
    pub evidence: RecoveryEvidence,
}

/// The stored marker as the handler observed it.
#[derive(Debug, PartialEq, Eq)]
pub struct ObservedMarker {
    /// The marker, when it decoded and is believed.
    pub marker: Option<UnresolvedWrite>,
    /// Whether the stored bytes are JSON at all.
    pub json_readable: bool,
    /// Whether the stored marker is exactly the one the request names.
    pub exact: bool,
    /// Whether the marker's pinned endpoint is a valid endpoint.
    pub endpoint_parses: bool,
}

/// Where a recovery stands.
#[derive(Clone, Copy, Debug, PartialEq, Eq, Structural)]
pub enum RecoveryStage {
    Start,
    Verifying,
    Recording,
    Clearing,
    Finished,
}

/// What the handler does next.
#[derive(Debug, PartialEq, Eq)]
pub enum RecoveryAction {
    /// Verify document `number` against the marker, read-only, under the
    /// run `verify-recovery`; report `RecoveryVerified` after.
    RunVerify { number: String },
    /// Record `receipt` under the run `record-recovery`; report
    /// `RecoveryRecorded` after.
    RunRecord { receipt: RecoveryReceipt },
    /// Clear the marker.
    ClearMarker,
    /// Answer the handler: the recorded receipt, once the marker is cleared.
    Finish(Result<RecoveryReceipt, Fault>),
}

/// What the handler hands back.
#[derive(Debug, PartialEq, Eq)]
pub enum RecoveryEvent {
    /// The stored state: nothing, the observed marker, or how the read ended.
    Observed(Result<Option<ObservedMarker>, RunEnd>),
    /// The verification run ended.
    Verified(Result<WriteResult, RunEnd>),
    /// The record run ended with the journaled receipt, or without one.
    Recorded(Result<RecoveryReceipt, RunEnd>),
    /// The marker was cleared.
    Cleared,
}

/// Whether an attestation's audit reference is missing.
pub open spec fn spec_unaudited(evidence: &RecoveryEvidence) -> bool {
    match evidence {
        RecoveryEvidence::NotExecuted { audit_reference } => trim(audit_reference@).len() == 0,
        RecoveryEvidence::Completed { audit_reference, .. } => trim(audit_reference@).len() == 0,
        RecoveryEvidence::Document { .. } => false,
    }
}

/// Whether the evidence may be recorded without a verification run: an
/// audited attestation that fits the marker's operation.
pub open spec fn spec_attestation_ok(m: &UnresolvedWrite, evidence: &RecoveryEvidence) -> bool {
    match evidence {
        RecoveryEvidence::NotExecuted { .. } => !spec_unaudited(evidence),
        RecoveryEvidence::Completed { completion, .. } => !spec_unaudited(evidence) && spec_completion_fits(
            &m.operation,
            completion,
        ),
        RecoveryEvidence::Document { .. } => false,
    }
}

/// One recovery in progress.
#[derive(Debug, PartialEq, Eq)]
pub struct Recovery {
    evidence: RecoveryEvidence,
    operator: String,
    stage: RecoveryStage,
    /// Whether the evidence was accepted: attested and fitting, or a document
    /// verified to settle the write.
    accepted: bool,
    /// The observed marker's token, once the marker passed its checks.
    token: Option<String>,
    /// The journaled receipt, once recorded.
    recorded: Option<RecoveryReceipt>,
}

/// The faults of a stored state that cannot be recovered as asked.
pub open spec fn spec_observed_fault(o: &ObservedMarker) -> Option<crate::fault::FaultView> {
    if o.marker is None {
        Some(plain(TerminalCode::OutcomeUnknown, "unreadable unresolved marker; use a compatible deployment"@))
    } else if !o.json_readable {
        Some(plain(TerminalCode::OutcomeUnknown, "unreadable marker JSON"@))
    } else if !o.exact {
        Some(plain(TerminalCode::InvalidInput, "recovery does not match the exact unresolved marker"@))
    } else if !o.endpoint_parses {
        Some(plain(TerminalCode::InvalidInput, "invalid pinned endpoint"@))
    } else {
        None
    }
}

/// The message of an attestation without an audit reference.
pub open spec fn audit_required_text() -> Seq<char> {
    "an operator attestation requires an audit reference"@
}

/// What the observed stored state admits of the evidence.
pub ghost enum Admission {
    /// Refused with the fault; the marker stays.
    Refused(FaultView),
    /// Document `number` is verified first.
    Verify(Seq<char>),
    /// The attestation is recorded.
    Record,
}

/// What the observed stored state `o` admits of `evidence`: a state that
/// cannot be recovered is refused; a document is verified; an attestation
/// is recorded when audited and fitting the marker's operation.
pub open spec fn spec_admission(o: &ObservedMarker, evidence: &RecoveryEvidence) -> Admission {
    match spec_observed_fault(o) {
        Some(f) => Admission::Refused(f),
        None => match evidence {
            RecoveryEvidence::Document { number } => Admission::Verify(number@),
            _ => if spec_unaudited(evidence) {
                Admission::Refused(plain(TerminalCode::InvalidInput, audit_required_text()))
            } else if o.marker matches Some(m) && spec_attestation_ok(&m, evidence) {
                Admission::Record
            } else {
                Admission::Refused(plain(TerminalCode::InvalidInput, completion_mismatch_text()))
            },
        },
    }
}

/// Whether `a` is what `d` admits, recording `receipt` when it records.
pub open spec fn admits(a: &RecoveryAction, d: Admission, receipt: RecoveryReceipt) -> bool {
    match d {
        Admission::Refused(f) => a matches RecoveryAction::Finish(Err(g)) && g@ == f,
        Admission::Verify(n) => a matches RecoveryAction::RunVerify { number } && number@ == n,
        Admission::Record => a == RecoveryAction::RunRecord { receipt },
    }
}

/// The receipt of a recovery of the observed marker `o` by `operator` with
/// `evidence`: the marker's token.
pub open spec fn receipt_of(o: &ObservedMarker, operator: String, evidence: RecoveryEvidence) -> RecoveryReceipt {
    RecoveryReceipt {
        token: o.marker.unwrap().token,
        operator,
        evidence,
    }
}

/// The message of document evidence that does not settle the write.
pub open spec fn unsettled_evidence_text(reason: Seq<char>) -> Seq<char> {
    "document evidence does not settle the exact unresolved write; marker retained: "@ + reason
}

impl Recovery {
    /// The stage.
    pub closed spec fn spec_stage(&self) -> RecoveryStage {
        self.stage
    }

    /// Whether the evidence was accepted.
    pub closed spec fn spec_accepted(&self) -> bool {
        self.accepted
    }

    /// The evidence.
    pub closed spec fn spec_evidence(&self) -> RecoveryEvidence {
        self.evidence
    }

    /// The operator recovering the write.
    pub closed spec fn spec_operator(&self) -> String {
        self.operator
    }

    /// The observed marker's token, once the marker passed its checks.
    pub closed spec fn spec_token(&self) -> Option<String> {
        self.token
    }

    /// The journaled receipt, once recorded.
    pub closed spec fn spec_recorded(&self) -> Option<RecoveryReceipt> {
        self.recorded
    }

    /// The receipt this recovery records, for the marker token `token`.
    pub open spec fn spec_receipt(&self, token: String) -> RecoveryReceipt {
        RecoveryReceipt { token, operator: self.spec_operator(), evidence: self.spec_evidence() }
    }

    /// What every stage keeps: evidence is recorded, and the marker cleared,
    /// only once it was accepted; a document is verified, and evidence
    /// recorded, only for a marker that passed its checks; the marker is
    /// cleared only once the receipt is recorded.
    pub closed spec fn wf(&self) -> bool {
        &&& (self.stage == RecoveryStage::Recording || self.stage == RecoveryStage::Clearing) ==> self.accepted
        &&& (self.stage == RecoveryStage::Verifying || self.stage == RecoveryStage::Recording) ==> self.token is Some
        &&& (self.stage == RecoveryStage::Clearing <==> self.recorded is Some)
    }

    /// A recovery by `operator` with `evidence`.
    pub fn new(evidence: RecoveryEvidence, operator: String) -> (r: Recovery)
        ensures
            r.wf(),
            r.spec_evidence() == evidence,
            r.spec_operator() == operator,
            r.spec_stage() == RecoveryStage::Start,
            !r.spec_accepted(),
    {
        Recovery { evidence, operator, stage: RecoveryStage::Start, accepted: false, token: None, recorded: None }
    }

    /// The evidence.
    pub fn evidence(&self) -> (e: &RecoveryEvidence)
        ensures
            *e == self.spec_evidence(),
    {
        &self.evidence
    }

    /// The receipt to record for the marker token `token`.
    fn receipt(&self, token: &String) -> (r: RecoveryReceipt)
        ensures
            r == self.spec_receipt(*token),
    {
        RecoveryReceipt { token: token.clone(), operator: self.operator.clone(), evidence: self.evidence.duplicate() }
    }

    /// Refuse with `f`, keeping the marker.
    fn refuse(&mut self, f: Fault) -> (a: RecoveryAction)
        ensures
            *final(self) == (Recovery { stage: RecoveryStage::Finished, recorded: None, ..*old(self) }),
            a == RecoveryAction::Finish(Err(f)),
    {
        self.stage = RecoveryStage::Finished;
        self.recorded = None;
        RecoveryAction::Finish(Err(f))
    }

    /// The decision on the observed stored state.
    fn on_observed(&mut self, o: ObservedMarker) -> (a: RecoveryAction)
        requires
            old(self).stage == RecoveryStage::Start,
            !old(self).accepted,
            old(self).recorded is None,
        ensures
            final(self).wf(),
            final(self).evidence == old(self).evidence,
            final(self).operator == old(self).operator,
            a is RunRecord ==> (o.marker matches Some(m) && final(self).stage == RecoveryStage::Recording
                && final(self).accepted && spec_observed_fault(&o) is None && spec_attestation_ok(
                &m,
                &old(self).evidence,
            )),
            a is RunVerify ==> final(self).stage == RecoveryStage::Verifying && !final(self).accepted
                && spec_observed_fault(&o) is None && old(self).evidence is Document && final(self).token == Some(
                o.marker.unwrap().token,
            ),
            a matches RecoveryAction::Finish(r) ==> r is Err && final(self).stage == RecoveryStage::Finished,
            !(a is ClearMarker),
            spec_observed_fault(&o) matches Some(f) ==> (a matches RecoveryAction::Finish(Err(g)) && g@ == f),
            admits(&a, spec_admission(&o, &old(self).evidence), receipt_of(&o, old(self).operator, old(self).evidence)),
    {
        if o.marker.is_none() {
            return self.refuse(Fault::outcome_unknown(String::from_str(
                "unreadable unresolved marker; use a compatible deployment",
            )));
        }
        if !o.json_readable {
            return self.refuse(Fault::outcome_unknown(String::from_str("unreadable marker JSON")));
        }
        if !o.exact {
            return self.refuse(Fault::invalid_input(String::from_str(
                "recovery does not match the exact unresolved marker",
            )));
        }
        if !o.endpoint_parses {
            return self.refuse(Fault::invalid_input(String::from_str("invalid pinned endpoint")));
        }
        let m = match &o.marker {
            Some(m) => m,
            None => {
                return self.refuse(Fault::outcome_unknown(String::from_str(
                    "unreadable unresolved marker; use a compatible deployment",
                )));
            },
        };
        self.token = Some(m.token.clone());
        match &self.evidence {
            RecoveryEvidence::NotExecuted { audit_reference } => {
                if trimmed(audit_reference.as_str()).as_str().unicode_len() == 0 {
                    return self.refuse(Fault::invalid_input(String::from_str(
                        "an operator attestation requires an audit reference",
                    )));
                }
                let receipt = self.receipt(&m.token);
                self.accepted = true;
                self.stage = RecoveryStage::Recording;
                RecoveryAction::RunRecord { receipt }
            },
            RecoveryEvidence::Completed { audit_reference, completion } => {
                if trimmed(audit_reference.as_str()).as_str().unicode_len() == 0 {
                    return self.refuse(Fault::invalid_input(String::from_str(
                        "an operator attestation requires an audit reference",
                    )));
                }
                match validate_completion(&m.operation, completion) {
                    Ok(()) => {
                        let receipt = self.receipt(&m.token);
                        self.accepted = true;
                        self.stage = RecoveryStage::Recording;
                        RecoveryAction::RunRecord { receipt }
                    },
                    Err(f) => self.refuse(f),
                }
            },
            RecoveryEvidence::Document { number } => {
                let number = number.clone();
                self.stage = RecoveryStage::Verifying;
                RecoveryAction::RunVerify { number }
            },
        }
    }

    /// One step: after `event`, the next action. The marker is cleared only
    /// after accepted evidence was recorded; every refusal and every run that
    /// ends without a value leaves it stored.
    pub fn step(&mut self, event: RecoveryEvent) -> (a: RecoveryAction)
        requires
            old(self).wf(),
        ensures
            final(self).wf(),
            a is ClearMarker ==> old(self).spec_stage() == RecoveryStage::Recording && final(self).spec_accepted()
                && (event matches RecoveryEvent::Recorded(Ok(_))),
            a is RunRecord ==> final(self).spec_accepted(),
            a matches RecoveryAction::Finish(Ok(_)) ==> old(self).spec_stage() == RecoveryStage::Clearing,
            old(self).spec_stage() == RecoveryStage::Finished ==> a is Finish,
            final(self).spec_evidence() == old(self).spec_evidence(),
            final(self).spec_operator() == old(self).spec_operator(),
            event matches RecoveryEvent::Observed(r) ==> ((old(self).spec_stage() == RecoveryStage::Start && !old(
                self).spec_accepted()) ==> match r {
                Err(e) => a matches RecoveryAction::Finish(Err(f)) && f@ == spec_recovery_read_fault(&e),
                Ok(None) => a matches RecoveryAction::Finish(Err(f)) && f@ == plain(
                    TerminalCode::InvalidInput,
                    "no unresolved marker matches this recovery"@,
                ),
                Ok(Some(o)) => admits(
                    &a,
                    spec_admission(&o, &old(self).spec_evidence()),
                    receipt_of(&o, old(self).spec_operator(), old(self).spec_evidence()),
                ),
            }),
            event matches RecoveryEvent::Verified(r) ==> (old(self).spec_stage() == RecoveryStage::Verifying
                ==> match r {
                Err(e) => a matches RecoveryAction::Finish(Err(f)) && f@ == spec_recovery_read_fault(&e),
                Ok(WriteResult::Answered { credentials, answer }) => a matches RecoveryAction::Finish(Err(f)) && f@
                    == spec_answered_fault(
                    &(if credentials {
                        AnsweredCode::CredentialsRejected(answer)
                    } else {
                        AnsweredCode::Inconclusive(answer)
                    }),
                ),
                Ok(WriteResult::Unresolved { reason }) => a matches RecoveryAction::Finish(Err(f)) && f@ == plain(
                    TerminalCode::OutcomeUnknown,
                    unsettled_evidence_text(reason@),
                ),
                Ok(_) => old(self).spec_token() matches Some(t) && a == RecoveryAction::RunRecord {
                    receipt: old(self).spec_receipt(t),
                } && final(self).spec_stage() == RecoveryStage::Recording,
            }),
            event matches RecoveryEvent::Recorded(r) ==> (old(self).spec_stage() == RecoveryStage::Recording
                ==> match r {
                Err(e) => a matches RecoveryAction::Finish(Err(f)) && f@ == spec_recovery_read_fault(&e),
                Ok(receipt) => a is ClearMarker && final(self).spec_stage() == RecoveryStage::Clearing && final(
                    self).spec_recorded() == Some(receipt),
            }),
            (old(self).spec_stage() == RecoveryStage::Clearing && event is Cleared) ==> a == RecoveryAction::Finish(
                Ok(old(self).spec_recorded().unwrap()),
            ),
    {
        match (self.stage, event) {
            (RecoveryStage::Start, RecoveryEvent::Observed(Err(error))) => self.refuse(read_fault(&error)),
            (RecoveryStage::Start, RecoveryEvent::Observed(Ok(None))) => self.refuse(
                Fault::invalid_input(String::from_str("no unresolved marker matches this recovery")),
            ),
            (RecoveryStage::Start, RecoveryEvent::Observed(Ok(Some(o)))) => {
                if self.accepted {
                    self.accepted = false;
                    return self.refuse(Fault::outcome_unknown(String::from_str(
                        "the recovery protocol received an event out of order; the unresolved marker is retained",
                    )));
                }
                self.recorded = None;
                self.on_observed(o)
            },
            (RecoveryStage::Verifying, RecoveryEvent::Verified(Err(error))) => self.refuse(read_fault(&error)),
            (RecoveryStage::Verifying, RecoveryEvent::Verified(Ok(result))) => {
                match result {
                    WriteResult::Answered { credentials, answer } => {
                        let code = if credentials {
                            AnsweredCode::CredentialsRejected(answer)
                        } else {
                            AnsweredCode::Inconclusive(answer)
                        };
                        self.refuse(code.into_fault())
                    },
                    WriteResult::Unresolved { reason } => self.refuse(Fault::outcome_unknown(
                        String::from_str(
                            "document evidence does not settle the exact unresolved write; marker retained: ",
                        ).concat(reason.as_str()),
                    )),
                    _ => {
                        let token = match &self.token {
                            Some(t) => t.clone(),
                            None => String::new(),
                        };
                        let receipt = self.receipt(&token);
                        self.accepted = true;
                        self.stage = RecoveryStage::Recording;
                        RecoveryAction::RunRecord { receipt }
                    },
                }
            },
            (RecoveryStage::Recording, RecoveryEvent::Recorded(Err(error))) => self.refuse(read_fault(&error)),
            (RecoveryStage::Recording, RecoveryEvent::Recorded(Ok(receipt))) => {
                self.recorded = Some(receipt);
                self.stage = RecoveryStage::Clearing;
                RecoveryAction::ClearMarker
            },
            (RecoveryStage::Clearing, RecoveryEvent::Cleared) => {
                self.stage = RecoveryStage::Finished;
                match self.recorded.take() {
                    Some(receipt) => RecoveryAction::Finish(Ok(receipt)),
                    None => RecoveryAction::Finish(Err(Fault::outcome_unknown(String::from_str(
                        "the recovery protocol received an event out of order; the unresolved marker is retained",
                    )))),
                }
            },
            _ => self.refuse(Fault::outcome_unknown(String::from_str(
                "the recovery protocol received an event out of order; the unresolved marker is retained",
            ))),
        }
    }
}

} // verus!
