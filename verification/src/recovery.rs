//! The unresolved-write marker and the protocol around one Order write: what
//! a stored marker must be to be believed, what an operator's attestation
//! must match, and the step sequence that arms, sends, reconciles and clears.

use vstd::prelude::*;
use vstd::string::*;

use crate::fault::{plain, Fault, RunEnd, TerminalCode};
use crate::gateway::Date;
use crate::identity::{spec_kind_id, spec_storno_id, Namespace, OrderKey};
use crate::kinds::IssuedKind;
use crate::prologue::Account;
use crate::text::{begins_with, strip_prefix, text_eq};

verus! {

/// The boundaries of one Order write at which an interruption is observable.
#[derive(Clone, Copy, Debug, PartialEq, Eq, Structural)]
pub enum WriteCheckpoint {
    /// Before the marker command.
    BeforeMarker,
    /// After the marker command, before acknowledged arming.
    AfterMarker,
    /// After acknowledged arming, before consuming permission.
    Armed,
    /// Experimental ordinary write: fresh target and guards passed, before send.
    OrdinaryGuardsPassed,
    /// After the write returns, before recording its result.
    Sent,
    /// After a positive reconciliation query, before recording it.
    Reconciled,
    /// After recorded settlement, before clearing the marker.
    Settled,
    /// After recorded document verification, before recording recovery.
    RecoveryVerified,
    /// After recorded recovery evidence, before clearing its marker.
    RecoveryRecorded,
}

/// Interruption control for protocol tests: told of every boundary an
/// execution reaches. Never told by a completed run's replay.
pub trait WriteObserver {
    /// The execution of `order` reached `point`.
    fn reached(&self, order: &str, point: WriteCheckpoint);
}

/// The observer of an endpoint nobody interrupts: it notes nothing.
pub struct Unobserved;

impl WriteObserver for Unobserved {
    fn reached(&self, order: &str, point: WriteCheckpoint) {
    }
}

/// How a proforma deletion names its target.
#[derive(Clone, Copy, Debug, PartialEq, Eq, Structural)]
pub enum DeleteMode {
    /// The proforma is the one under the order's own external id.
    NamespaceOwned,
    /// The proforma is the exact document the request names.
    ExactTarget,
}

/// The request-response contract an experimental write was admitted under,
/// with what it pins of the target.
#[derive(Debug, PartialEq, Eq)]
pub enum ExecutionContract {
    RequestResponseOrdinaryV1,
    RequestResponsePrepaymentV1,
    RequestResponseFinalV1,
    RequestResponseProformaV1,
    RequestResponseDeleteV1 { mode: DeleteMode, force: bool, document_id: Option<u64> },
    RequestResponseStornoV1 {
        document_id: Option<u64>,
        fulfillment_date: Date,
        e_invoice: bool,
        appearance: u8,
    },
}

/// The write an unresolved marker stands for.
#[derive(Debug, PartialEq, Eq)]
pub enum WriteOperation {
    /// Issue a `kind` document; `expected_number` is the exact target of a
    /// reissue, `corrected_number` the base of a corrective.
    Create { kind: IssuedKind, expected_number: Option<String>, corrected_number: Option<String> },
    /// Reverse invoice `number`.
    Storno { number: String },
    /// Delete proforma `number`.
    Delete { number: String },
}

/// The durable marker of a write whose outcome is not yet settled: who wrote
/// it, for which order and account, and what was sent.
#[derive(Debug, PartialEq, Eq)]
pub struct UnresolvedWrite {
    pub execution_contract: Option<ExecutionContract>,
    pub proforma_number: Option<String>,
    pub prepayment_number: Option<String>,
    pub token: String,
    pub owner_invocation: String,
    pub created_at: String,
    pub scope: Option<String>,
    pub order: OrderKey,
    pub namespace: Namespace,
    pub external_id: String,
    pub account_id: String,
    pub endpoint: String,
    pub credential_ref: String,
    pub operation: WriteOperation,
}

/// What the document-number, endpoint and correction-id rules say of a
/// marker's fields, each checked where that rule is kept.
#[derive(Debug, PartialEq, Eq)]
pub struct FieldVerdicts {
    /// The pinned endpoint is a valid endpoint.
    pub endpoint: bool,
    /// The proforma number, when present, is a provider document number.
    pub proforma_number: bool,
    /// The prepayment number, when present, is a provider document number.
    pub prepayment_number: bool,
    /// The expected number of a create, when present, is an invoice number.
    pub expected_number: bool,
    /// The corrected number of a create, when present, is an invoice number.
    pub corrected_number: bool,
    /// The number a storno or deletion names is an invoice number.
    pub operation_number: bool,
    /// The tail of a corrective's external id is a correction id.
    pub correction_id: bool,
}

/// Whether `text` is a timestamp as `jiff::Timestamp` parses one.
pub uninterp spec fn jiff_timestamp_parses(text: Seq<char>) -> bool;

/// Whether `text` parses as a `jiff::Timestamp` (`str::parse`): a function
/// of the text alone; which texts parse (RFC 3339 and the forms jiff's
/// default parser takes) is jiff's and left unsaid.
#[verifier::external_body]
fn timestamp_parses(text: &str) -> (b: bool)
    ensures
        b == jiff_timestamp_parses(text@),
{
    match text.parse::<jiff::Timestamp>() {
        Ok(_) => true,
        Err(_) => false,
    }
}

/// Whether the marker's execution contract fits its operation and its
/// pinned proforma and prepayment numbers.
pub open spec fn spec_valid_contract(m: &UnresolvedWrite, prepayment_parses: bool) -> bool {
    if m.prepayment_number is Some && !(m.execution_contract matches Some(ExecutionContract::RequestResponseFinalV1)) {
        false
    } else {
        match (m.execution_contract, m.operation) {
            (Some(ExecutionContract::RequestResponseOrdinaryV1), WriteOperation::Create { kind, corrected_number, .. }) =>
                kind == IssuedKind::Invoice && corrected_number is None,
            (Some(ExecutionContract::RequestResponsePrepaymentV1), WriteOperation::Create { kind, corrected_number, .. }) =>
                kind == IssuedKind::Prepayment && corrected_number is None,
            (Some(ExecutionContract::RequestResponseFinalV1), WriteOperation::Create { kind, corrected_number, .. }) =>
                kind == IssuedKind::Final && corrected_number is None && m.proforma_number is None
                    && m.prepayment_number is Some && prepayment_parses,
            (Some(ExecutionContract::RequestResponseProformaV1), WriteOperation::Create { kind, corrected_number, .. }) =>
                kind == IssuedKind::Proforma && corrected_number is None && m.proforma_number is None,
            (None, _) => m.proforma_number is None,
            (Some(ExecutionContract::RequestResponseDeleteV1 { .. }), WriteOperation::Delete { .. }) =>
                m.proforma_number is None,
            (Some(ExecutionContract::RequestResponseStornoV1 { fulfillment_date, .. }), WriteOperation::Storno { .. }) =>
                m.proforma_number is None && 1 <= fulfillment_date.year <= 9999,
            _ => false,
        }
    }
}

/// Whether the marker's execution contract fits its operation and its
/// pinned numbers; `prepayment_parses` is whether the prepayment number is a
/// provider document number.
pub fn valid_execution_contract(m: &UnresolvedWrite, prepayment_parses: bool) -> (b: bool)
    ensures
        b == spec_valid_contract(m, prepayment_parses),
{
    let final_contract = match &m.execution_contract {
        Some(ExecutionContract::RequestResponseFinalV1) => true,
        _ => false,
    };
    if m.prepayment_number.is_some() && !final_contract {
        return false;
    }
    match (&m.execution_contract, &m.operation) {
        (Some(ExecutionContract::RequestResponseOrdinaryV1), WriteOperation::Create { kind, corrected_number, .. }) =>
            *kind == IssuedKind::Invoice && corrected_number.is_none(),
        (Some(ExecutionContract::RequestResponsePrepaymentV1), WriteOperation::Create { kind, corrected_number, .. }) =>
            *kind == IssuedKind::Prepayment && corrected_number.is_none(),
        (Some(ExecutionContract::RequestResponseFinalV1), WriteOperation::Create { kind, corrected_number, .. }) =>
            *kind == IssuedKind::Final && corrected_number.is_none() && m.proforma_number.is_none()
                && m.prepayment_number.is_some() && prepayment_parses,
        (Some(ExecutionContract::RequestResponseProformaV1), WriteOperation::Create { kind, corrected_number, .. }) =>
            *kind == IssuedKind::Proforma && corrected_number.is_none() && m.proforma_number.is_none(),
        (None, _) => m.proforma_number.is_none(),
        (Some(ExecutionContract::RequestResponseDeleteV1 { .. }), WriteOperation::Delete { .. }) =>
            m.proforma_number.is_none(),
        (Some(ExecutionContract::RequestResponseStornoV1 { fulfillment_date, .. }), WriteOperation::Storno { .. }) =>
            m.proforma_number.is_none() && 1 <= fulfillment_date.year && fulfillment_date.year <= 9999,
        _ => false,
    }
}

/// The prefix of the external id of a corrective of the marker's order.
pub open spec fn corrective_prefix(m: &UnresolvedWrite) -> Seq<char> {
    m.namespace@ + ":"@ + m.order@ + ":corrective:"@
}

/// Whether the marker's operation names well-formed numbers and the marker's
/// external id is the one the worker derives for that operation.
pub open spec fn spec_operation_matches(m: &UnresolvedWrite, v: &FieldVerdicts) -> bool {
    match m.operation {
        WriteOperation::Create { kind, expected_number, corrected_number } => {
            (expected_number is None || v.expected_number) && if kind == IssuedKind::Corrective {
                corrected_number is Some && v.corrected_number && expected_number is None
                    && begins_with(m.external_id@, corrective_prefix(m)) && v.correction_id
            } else {
                corrected_number is None && m.external_id@ == spec_kind_id(m.namespace@, m.order@, kind)
            }
        },
        WriteOperation::Storno { number } => v.operation_number
            && m.external_id@ == spec_storno_id(m.namespace@, m.order@, number@),
        WriteOperation::Delete { number } => v.operation_number
            && m.external_id@ == spec_kind_id(m.namespace@, m.order@, IssuedKind::Proforma),
    }
}

/// Whether a stored marker is believed for the object under `scope` and
/// `key`: its contract fits, its pinned numbers and endpoint are valid, it
/// belongs to this object, its token is its owner's invocation, its creation
/// time is a timestamp, and its external id is the one its operation
/// derives.
pub open spec fn spec_valid_marker(
    m: &UnresolvedWrite,
    scope: Option<Seq<char>>,
    key: Seq<char>,
    v: &FieldVerdicts,
) -> bool {
    &&& spec_valid_contract(m, v.prepayment_number)
    &&& if m.execution_contract is Some {
        m.proforma_number is None || v.proforma_number
    } else {
        m.proforma_number is None
    }
    &&& m.scope.deep_view() == scope
    &&& m.order@ == key
    &&& m.token@.len() > 0
    &&& m.token@ == m.owner_invocation@
    &&& v.endpoint
    &&& jiff_timestamp_parses(m.created_at@)
    &&& spec_operation_matches(m, v)
}

/// Whether two optional texts hold the same text.
fn same_option(a: &Option<String>, b: Option<&str>) -> (eq: bool)
    ensures
        eq == (a.deep_view() == match b { Some(t) => Some(t@), None => None::<Seq<char>> }),
{
    match (a, b) {
        (Some(x), Some(y)) => text_eq(x.as_str(), y),
        (None, None) => true,
        _ => false,
    }
}

/// Whether the marker's operation names well-formed numbers and its
/// external id is the one the operation derives.
fn operation_matches(m: &UnresolvedWrite, v: &FieldVerdicts) -> (b: bool)
    ensures
        b == spec_operation_matches(m, v),
{
    match &m.operation {
        WriteOperation::Create { kind, expected_number, corrected_number } => {
            if expected_number.is_some() && !v.expected_number {
                return false;
            }
            if *kind == IssuedKind::Corrective {
                if corrected_number.is_none() || !v.corrected_number || expected_number.is_some() {
                    return false;
                }
                let prefix = String::from_str(m.namespace.as_str()).concat(":").concat(m.order.as_str()).concat(
                    ":corrective:",
                );
                match strip_prefix(m.external_id.as_str(), prefix.as_str()) {
                    Some(_) => v.correction_id,
                    None => false,
                }
            } else {
                if corrected_number.is_some() {
                    return false;
                }
                let expected = String::from_str(m.namespace.as_str()).concat(":").concat(m.order.as_str()).concat(
                    ":",
                ).concat(crate::identity::kind_name(*kind));
                text_eq(m.external_id.as_str(), expected.as_str())
            }
        },
        WriteOperation::Storno { number } => {
            let expected = String::from_str(m.namespace.as_str()).concat(":").concat(m.order.as_str()).concat(
                ":storno:",
            ).concat(number.as_str());
            v.operation_number && text_eq(m.external_id.as_str(), expected.as_str())
        },
        WriteOperation::Delete { .. } => {
            let expected = String::from_str(m.namespace.as_str()).concat(":").concat(m.order.as_str()).concat(
                ":",
            ).concat(crate::identity::kind_name(IssuedKind::Proforma));
            v.operation_number && text_eq(m.external_id.as_str(), expected.as_str())
        },
    }
}

/// Whether a stored marker is believed for the object under `scope` and
/// `key` (see [`spec_valid_marker`]). A marker that is not believed is
/// unreadable: it authorizes nothing and is never acted upon.
pub fn valid_marker(m: &UnresolvedWrite, scope: Option<&str>, key: &str, v: &FieldVerdicts) -> (b: bool)
    ensures
        b == spec_valid_marker(m, match scope { Some(t) => Some(t@), None => None::<Seq<char>> }, key@, v),
{
    if !valid_execution_contract(m, v.prepayment_number) {
        return false;
    }
    if m.execution_contract.is_some() {
        if m.proforma_number.is_some() && !v.proforma_number {
            return false;
        }
    } else if m.proforma_number.is_some() {
        return false;
    }
    if !same_option(&m.scope, scope) || !text_eq(m.order.as_str(), key) || m.token.as_str().unicode_len() == 0
        || !text_eq(m.token.as_str(), m.owner_invocation.as_str()) || !v.endpoint {
        return false;
    }
    if !timestamp_parses(m.created_at.as_str()) {
        return false;
    }
    operation_matches(m, v)
}

/// What an operator attests an unresolved write did.
#[derive(Debug, PartialEq, Eq)]
pub enum AttestedCompletion {
    Issued { number: String },
    Reversed { number: String },
    Deleted { number: String },
}

/// The refusal of an attestation that fits neither the operation nor its
/// expected document.
pub open spec fn completion_mismatch_text() -> Seq<char> {
    "attested completion does not match the unresolved operation and expected document"@
}

/// Whether an attested completion fits the unresolved operation: an issue
/// names a document other than the exact target already known, a reversal a
/// document other than the original, a deletion exactly its target.
pub open spec fn spec_completion_fits(operation: &WriteOperation, completion: &AttestedCompletion) -> bool {
    match (operation, completion) {
        (WriteOperation::Create { expected_number, .. }, AttestedCompletion::Issued { number }) =>
            expected_number.deep_view() != Some(number@),
        (WriteOperation::Storno { number: original }, AttestedCompletion::Reversed { number }) =>
            original@ != number@,
        (WriteOperation::Delete { number: target }, AttestedCompletion::Deleted { number }) =>
            target@ == number@,
        _ => false,
    }
}

/// Whether an operator's attested completion fits the unresolved operation
/// and its expected document; `invalid_input` when it does not.
pub fn validate_completion(operation: &WriteOperation, completion: &AttestedCompletion) -> (r: Result<(), Fault>)
    ensures
        r is Ok <==> spec_completion_fits(operation, completion),
        r matches Err(f) ==> f@ == plain(TerminalCode::InvalidInput, completion_mismatch_text()),
{
    let fits = match (operation, completion) {
        (WriteOperation::Create { expected_number, .. }, AttestedCompletion::Issued { number }) =>
            !same_option(expected_number, Some(number.as_str())),
        (WriteOperation::Storno { number: original }, AttestedCompletion::Reversed { number }) =>
            !text_eq(original.as_str(), number.as_str()),
        (WriteOperation::Delete { number: target }, AttestedCompletion::Deleted { number }) =>
            text_eq(target.as_str(), number.as_str()),
        _ => false,
    };
    if fits {
        Ok(())
    } else {
        Err(Fault::invalid_input(String::from_str(
            "attested completion does not match the unresolved operation and expected document",
        )))
    }
}

/// The refusal of any new mutation while an earlier write is unresolved.
pub open spec fn guard_text() -> Seq<char> {
    "an earlier Order write remains unresolved; retain its invocation identity and obtain operator reconciliation; no new mutation is authorized"@
}

/// Whether a new Order mutation may start: never while a marker is stored.
pub fn guard(marker_stored: bool) -> (r: Result<(), Fault>)
    ensures
        r is Ok <==> !marker_stored,
        r matches Err(f) ==> f@ == plain(TerminalCode::OutcomeUnknown, guard_text()),
{
    if marker_stored {
        Err(Fault::outcome_unknown(String::from_str(
            "an earlier Order write remains unresolved; retain its invocation identity and obtain operator reconciliation; no new mutation is authorized",
        )))
    } else {
        Ok(())
    }
}

/// The fault of a recovery read or record that ended without a value: a
/// cancellation is `cancelled`, anything else `unavailable`; the marker is
/// kept either way.
pub open spec fn spec_recovery_read_fault(error: &RunEnd) -> crate::fault::FaultView {
    if error.code == crate::fault::CANCELLED {
        plain(TerminalCode::Cancelled, "recovery observation cancelled; unresolved state is retained"@)
    } else {
        plain(
            TerminalCode::Unavailable,
            "could not read or record recovery evidence; inspect the unresolved marker"@,
        )
    }
}

/// The fault of a recovery read or record that ended without a value.
pub fn read_fault(error: &RunEnd) -> (f: Fault)
    ensures
        f@ == spec_recovery_read_fault(error),
{
    if crate::fault::is_cancelled(error) {
        Fault::cancelled(String::from_str("recovery observation cancelled; unresolved state is retained"))
    } else {
        Fault::unavailable(String::from_str(
            "could not read or record recovery evidence; inspect the unresolved marker",
        ))
    }
}

/// The account a marker pins, when its endpoint is valid (`endpoint_parses`);
/// `invalid_input` otherwise.
pub fn pinned_account(m: &UnresolvedWrite, endpoint_parses: bool) -> (r: Result<Account, Fault>)
    ensures
        endpoint_parses <==> r is Ok,
        r matches Ok(a) ==> a.id@ == m.account_id@ && a.credential_ref@ == m.credential_ref@
            && a.endpoint@ == m.endpoint@,
        r matches Err(f) ==> f@ == plain(TerminalCode::InvalidInput, "invalid pinned endpoint"@),
{
    if endpoint_parses {
        Ok(Account {
            id: m.account_id.clone(),
            credential_ref: m.credential_ref.clone(),
            endpoint: m.endpoint.clone(),
        })
    } else {
        Err(Fault::invalid_input(String::from_str("invalid pinned endpoint")))
    }
}

/// The writes that replay under a request-response contract.
#[derive(Clone, Copy, Debug, PartialEq, Eq, Structural)]
pub enum ReplayWrite {
    Create,
    Delete,
    Storno,
}

impl ReplayWrite {
    /// The step name its runs carry (`prepare-{step}-write`, ...).
    pub open spec fn spec_step(self) -> Seq<char> {
        match self {
            ReplayWrite::Create => "ordinary"@,
            ReplayWrite::Delete => "proforma-delete"@,
            ReplayWrite::Storno => "order-storno"@,
        }
    }

    /// The step name its runs carry.
    pub fn step(self) -> (s: &'static str)
        ensures
            s@ == self.spec_step(),
    {
        match self {
            ReplayWrite::Create => "ordinary",
            ReplayWrite::Delete => "proforma-delete",
            ReplayWrite::Storno => "order-storno",
        }
    }

    /// The name of the write's own run.
    pub open spec fn spec_write_name(self) -> Seq<char> {
        match self {
            ReplayWrite::Create => "create-ordinary-request-response"@,
            ReplayWrite::Delete => "delete-proforma-request-response"@,
            ReplayWrite::Storno => "storno-request-response"@,
        }
    }

    /// The name of the write's own run.
    pub fn write_name(self) -> (s: &'static str)
        ensures
            s@ == self.spec_write_name(),
    {
        match self {
            ReplayWrite::Create => "create-ordinary-request-response",
            ReplayWrite::Delete => "delete-proforma-request-response",
            ReplayWrite::Storno => "storno-request-response",
        }
    }
}

/// The marker of the ordinary intent of `m`: `m` under the ordinary
/// contract when it names none.
pub open spec fn spec_ordinary_intent(m: UnresolvedWrite) -> UnresolvedWrite {
    if m.execution_contract is Some {
        m
    } else {
        UnresolvedWrite { execution_contract: Some(ExecutionContract::RequestResponseOrdinaryV1), ..m }
    }
}

/// The journaled intent of a request-response write: a marker that carries
/// an execution contract, the ordinary one when none was given.
#[derive(Debug, PartialEq, Eq)]
pub struct OrdinaryIntent {
    marker: UnresolvedWrite,
}

impl OrdinaryIntent {
    /// The intent of `marker`, under the ordinary contract when it names
    /// none.
    pub fn new(marker: UnresolvedWrite) -> (i: OrdinaryIntent)
        ensures
            i.spec_marker() == spec_ordinary_intent(marker),
            i.spec_marker().execution_contract is Some,
            marker.execution_contract is Some ==> i.spec_marker() == marker,
            marker.execution_contract is None ==> i.spec_marker() == (UnresolvedWrite {
                execution_contract: Some(ExecutionContract::RequestResponseOrdinaryV1),
                ..marker
            }),
    {
        let mut marker = marker;
        if marker.execution_contract.is_none() {
            marker.execution_contract = Some(ExecutionContract::RequestResponseOrdinaryV1);
        }
        OrdinaryIntent { marker }
    }

    /// The intent a decoded marker is, when its contract fits and names one:
    /// an intent without a contract is refused.
    pub fn from_decoded(marker: UnresolvedWrite, prepayment_parses: bool) -> (r: Option<OrdinaryIntent>)
        ensures
            r is Some <==> (spec_valid_contract(&marker, prepayment_parses) && marker.execution_contract is Some),
            r matches Some(i) ==> i.spec_marker() == marker,
    {
        if valid_execution_contract(&marker, prepayment_parses) && marker.execution_contract.is_some() {
            Some(OrdinaryIntent { marker })
        } else {
            None
        }
    }

    /// The marker.
    pub closed spec fn spec_marker(&self) -> UnresolvedWrite {
        self.marker
    }

    /// The marker, taken out of the intent.
    pub fn into_marker(self) -> (m: UnresolvedWrite)
        ensures
            m == self.spec_marker(),
    {
        self.marker
    }

    /// The marker.
    pub fn marker(&self) -> (m: &UnresolvedWrite)
        ensures
            *m == self.spec_marker(),
    {
        &self.marker
    }
}

/// What `get` reports of the stored marker slot.
#[derive(Clone, Copy, Debug, PartialEq, Eq, Structural)]
pub enum ObservationKind {
    /// No marker is stored.
    Absent,
    /// A believed marker, exactly as stored.
    Unresolved,
    /// A stored marker shown as the raw JSON it is: believed but not stored
    /// exactly as it would be written, or unreadable on a deployment that
    /// permits replay.
    Other,
    /// A stored marker nothing can be read from.
    Unreadable,
}

/// What `get` reports of the stored marker slot: nothing stored is absent;
/// a believed marker is unresolved when it writes back to exactly the
/// stored JSON, else shown raw; an unbelieved one is shown raw when the
/// deployment permits replay and it is JSON, else unreadable.
pub open spec fn spec_observation(stored: bool, believed: bool, round_trips: bool, json_readable: bool, permits_replay: bool) -> ObservationKind {
    if !stored {
        ObservationKind::Absent
    } else if believed {
        if round_trips { ObservationKind::Unresolved } else { ObservationKind::Other }
    } else if permits_replay && json_readable {
        ObservationKind::Other
    } else {
        ObservationKind::Unreadable
    }
}

/// What `get` reports of the stored marker slot; a believed marker whose
/// bytes are not JSON after all is the `unavailable` fault.
pub fn observation(stored: bool, believed: bool, round_trips: bool, json_readable: bool, permits_replay: bool) -> (r: Result<ObservationKind, Fault>)
    ensures
        (stored && believed && !json_readable) <==> r is Err,
        r matches Ok(k) ==> k == spec_observation(stored, believed, round_trips, json_readable, permits_replay),
        r matches Err(f) ==> f@ == plain(TerminalCode::Unavailable, "could not read marker JSON"@),
{
    if !stored {
        Ok(ObservationKind::Absent)
    } else if believed {
        if !json_readable {
            Err(Fault::unavailable(String::from_str("could not read marker JSON")))
        } else if round_trips {
            Ok(ObservationKind::Unresolved)
        } else {
            Ok(ObservationKind::Other)
        }
    } else if permits_replay && json_readable {
        Ok(ObservationKind::Other)
    } else {
        Ok(ObservationKind::Unreadable)
    }
}

} // verus!
