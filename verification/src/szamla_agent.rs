//! The low-level Számla Agent layer's decisions, outcome as data: what a
//! failed call means, whether a document found under our external id or the
//! order-number hint is ours, and the query-first step sequences of one
//! issuing and one storno attempt. An expected szamlazz.hu outcome is a
//! value, never an error.

use vstd::prelude::*;
use vstd::string::*;

use crate::amount::Amount;
use crate::gateway::{Date, FoundDocument, IssuedDocument};
use crate::identity::{ExternalId, OrderKey};
use crate::kinds::{document_type_of, is_invoice_family, spec_document_type, spec_invoice_family, IssuedKind};
use crate::text::text_eq;

verus! {

/// How a call to szamlazz.hu failed, as the client reports it.
#[derive(Debug, PartialEq, Eq)]
pub enum ClientFailure {
    /// szamlazz.hu answered an error code.
    Api { code: String, message: String },
    /// szamlazz.hu reported unavailability (`szlahu_down`): its message, and
    /// the client's text for the failure.
    ServiceUnavailable { message: String, text: String },
    /// The request violated the wire contract before it was sent.
    Request { message: String },
    /// The HTTP exchange or the response parse failed.
    Transport { message: String },
}

/// szamlazz.hu's code for an unknown selector.
pub open spec fn missing_data() -> Seq<char> {
    "7"@
}

/// szamlazz.hu's code for a proforma it no longer knows.
pub open spec fn proforma_not_found() -> Seq<char> {
    "335"@
}

/// Whether `code` refuses the order number as a duplicate (71, 152).
pub open spec fn spec_duplicate_code(code: Seq<char>) -> bool {
    code == "71"@ || code == "152"@
}

/// Whether `code` leaves a create's outcome unknown: maintenance (1), a
/// failed e-invoice signature (55) or an undelivered notification (56).
pub open spec fn spec_unknown_code(code: Seq<char>) -> bool {
    code == "1"@ || code == "55"@ || code == "56"@
}

/// A duplicate-order-number code never leaves the outcome unknown.
proof fn lemma_duplicate_is_not_unknown(code: Seq<char>)
    requires
        spec_duplicate_code(code),
    ensures
        !spec_unknown_code(code),
{
    reveal_strlit("71");
    reveal_strlit("152");
    reveal_strlit("1");
    reveal_strlit("55");
    reveal_strlit("56");
    assert("71"@.len() == 2 && "152"@.len() == 3 && "1"@.len() == 1);
    assert("55"@[1] == '5' && "56"@[1] == '6' && "71"@[1] == '1');
    assert("71"@[0] == '7' && "55"@[0] == '5');
}

/// The wire-contract code of a request refused before it was sent.
pub open spec fn request_code() -> Seq<char> {
    "request"@
}

/// A failed create-like call, classified.
#[derive(Debug, PartialEq, Eq)]
pub enum Failure {
    Rejected { code: String, message: String },
    Duplicate { code: String, message: String },
    Unknown { code: Option<String>, message: String },
    Transport { message: String },
}

/// The classification of a failed create-like call.
pub open spec fn spec_failure_matches(error: &ClientFailure, f: &Failure) -> bool {
    match error {
        ClientFailure::Api { code, message } => if spec_duplicate_code(code@) {
            f matches Failure::Duplicate { code: c, message: m } && c == code && m == message
        } else if spec_unknown_code(code@) {
            f matches Failure::Unknown { code: Some(c), message: m } && c == code && m == message
        } else {
            f matches Failure::Rejected { code: c, message: m } && c == code && m == message
        },
        ClientFailure::ServiceUnavailable { message, .. } => f matches Failure::Unknown { code: None, message: m }
            && m == message,
        ClientFailure::Request { message } => f matches Failure::Rejected { code: c, message: m } && c@
            == request_code() && m == message,
        ClientFailure::Transport { message } => f matches Failure::Transport { message: m } && m == message,
    }
}

/// Whether `code` is a duplicate-order-number code.
fn is_duplicate_code(code: &str) -> (b: bool)
    ensures
        b == spec_duplicate_code(code@),
{
    text_eq(code, "71") || text_eq(code, "152")
}

/// Whether `code` leaves a create's outcome unknown.
fn is_unknown_code(code: &str) -> (b: bool)
    ensures
        b == spec_unknown_code(code@),
{
    text_eq(code, "1") || text_eq(code, "55") || text_eq(code, "56")
}

/// Whether `code` is szamlazz.hu's unknown-selector code.
fn is_missing_data(code: &str) -> (b: bool)
    ensures
        b == (code@ == missing_data()),
{
    text_eq(code, "7")
}

/// What a failed create-like call means: 71/152 a duplicate order number;
/// 1, 55, 56 and unavailability an unknown outcome; a wire-contract
/// violation and any other code a rejection; anything else transport.
pub fn classify_failure(error: ClientFailure) -> (f: Failure)
    ensures
        spec_failure_matches(&error, &f),
{
    match error {
        ClientFailure::Api { code, message } => {
            if is_duplicate_code(code.as_str()) {
                Failure::Duplicate { code, message }
            } else if is_unknown_code(code.as_str()) {
                Failure::Unknown { code: Some(code), message }
            } else {
                Failure::Rejected { code, message }
            }
        },
        ClientFailure::ServiceUnavailable { message, .. } => Failure::Unknown { code: None, message },
        ClientFailure::Request { message } => Failure::Rejected { code: String::from_str("request"), message },
        ClientFailure::Transport { message } => Failure::Transport { message },
    }
}

/// Why a query returned no document.
#[derive(Debug, PartialEq, Eq)]
pub enum QueryError {
    /// szamlazz.hu does not know the selector (code 7).
    NotFound,
    /// szamlazz.hu reported another error.
    Api { code: String, message: String },
    /// szamlazz.hu reported unavailability (`szlahu_down`).
    Unavailable { message: String },
    /// The HTTP exchange or the response parse failed.
    Transport { message: String },
}

/// The text of a query error.
pub open spec fn query_error_text(e: &QueryError) -> Seq<char> {
    match e {
        QueryError::NotFound => "szamlazz.hu does not know the document (code 7)"@,
        QueryError::Api { code, message } => "szamlazz.hu error "@ + code@ + ": "@ + message@,
        QueryError::Unavailable { message } => "szamlazz.hu is unavailable: "@ + message@,
        QueryError::Transport { message } => "transport failure: "@ + message@,
    }
}

impl QueryError {
    /// The error's text.
    pub fn message(&self) -> (s: String)
        ensures
            s@ == query_error_text(self),
    {
        match self {
            QueryError::NotFound => String::from_str("szamlazz.hu does not know the document (code 7)"),
            QueryError::Api { code, message } => String::from_str("szamlazz.hu error ").concat(code.as_str()).concat(
                ": ",
            ).concat(message.as_str()),
            QueryError::Unavailable { message } => String::from_str("szamlazz.hu is unavailable: ").concat(
                message.as_str(),
            ),
            QueryError::Transport { message } => String::from_str("transport failure: ").concat(message.as_str()),
        }
    }
}

/// The query error a failed query call is: code 7 is not found, another
/// code passes through, unavailability is unavailability, the rest
/// transport (a wire-contract violation's text included).
pub fn query_error(error: ClientFailure) -> (e: QueryError)
    ensures
        match error {
            ClientFailure::Api { code, message } => if code@ == missing_data() {
                e is NotFound
            } else {
                e matches QueryError::Api { code: c, message: m } && c == code && m == message
            },
            ClientFailure::ServiceUnavailable { message, .. } => e matches QueryError::Unavailable { message: m }
                && m == message,
            ClientFailure::Request { message } => e matches QueryError::Transport { message: m } && m == message,
            ClientFailure::Transport { message } => e matches QueryError::Transport { message: m } && m == message,
        },
{
    match error {
        ClientFailure::Api { code, message } => {
            if is_missing_data(code.as_str()) {
                QueryError::NotFound
            } else {
                QueryError::Api { code, message }
            }
        },
        ClientFailure::ServiceUnavailable { message, .. } => QueryError::Unavailable { message },
        ClientFailure::Request { message } => QueryError::Transport { message },
        ClientFailure::Transport { message } => QueryError::Transport { message },
    }
}

/// The result of a query that only needs to know whether a document exists.
#[derive(Debug, PartialEq, Eq)]
pub enum QueryOutcome {
    Found(Box<FoundDocument>),
    NotFound,
    Transport(String),
}

/// A query's result as data: the document, not found on code 7, and any
/// other failure as transport with the error's text.
pub fn outcome(result: Result<FoundDocument, QueryError>) -> (o: QueryOutcome)
    ensures
        match result {
            Ok(doc) => o matches QueryOutcome::Found(d) && *d == doc,
            Err(QueryError::NotFound) => o is NotFound,
            Err(e) => o matches QueryOutcome::Transport(t) && t@ == query_error_text(&e),
        },
{
    match result {
        Ok(doc) => QueryOutcome::Found(Box::new(doc)),
        Err(QueryError::NotFound) => QueryOutcome::NotFound,
        Err(e) => QueryOutcome::Transport(e.message()),
    }
}

/// One issuing attempt: the document's identity and what a found document
/// must be to be ours.
#[derive(Debug, PartialEq, Eq)]
pub struct IssueRequest {
    /// The external id the document carries and is looked up by.
    pub external_id: ExternalId,
    /// The kind being issued.
    pub kind: IssuedKind,
    /// The order the document belongs to.
    pub order: OrderKey,
    /// Query the order number before creating.
    pub check_hint: bool,
    /// Every number the ledger knows as ours.
    pub our_numbers: Vec<String>,
    /// The proforma number recorded as live, if any.
    pub our_proforma: Option<String>,
    /// The supplier id to expect on a found document, when known.
    pub expect_supplier_id: Option<u64>,
    /// The `teszt` flag to expect on a found document.
    pub expect_test: bool,
}

/// Whether a found document was issued from the request's account: the
/// same test mode and, when both are known, the same supplier.
pub open spec fn spec_account_matches(doc: &FoundDocument, request: &IssueRequest) -> bool {
    doc.test == request.expect_test && match (request.expect_supplier_id, doc.supplier_id) {
        (Some(expected), Some(seen)) => expected == seen,
        _ => true,
    }
}

/// Whether a found document was issued from the request's account.
pub fn account_matches(doc: &FoundDocument, request: &IssueRequest) -> (b: bool)
    ensures
        b == spec_account_matches(doc, request),
{
    doc.test == request.expect_test && match (request.expect_supplier_id, doc.supplier_id) {
        (Some(expected), Some(seen)) => expected == seen,
        _ => true,
    }
}

/// Whether a document found under our external id is ours: the same order,
/// the issued kind's `tipus`, and the account's test mode and supplier.
pub open spec fn spec_is_ours(doc: &FoundDocument, request: &IssueRequest) -> bool {
    doc.spec_carries(request.order@) && doc.document_type@ == spec_document_type(request.kind)
        && spec_account_matches(doc, request)
}

/// Whether a document found under our external id is ours.
pub fn is_ours(doc: &FoundDocument, request: &IssueRequest) -> (b: bool)
    ensures
        b == spec_is_ours(doc, request),
{
    doc.carries_order(&request.order) && text_eq(doc.document_type.as_str(), document_type_of(request.kind))
        && account_matches(doc, request)
}

/// Whether `number` is among `numbers`.
pub open spec fn spec_listed(numbers: Seq<String>, number: Seq<char>) -> bool {
    exists|i: int| 0 <= i < numbers.len() && #[trigger] numbers[i]@ == number
}

/// Whether `number` is among `numbers`.
fn listed(numbers: &Vec<String>, number: &str) -> (b: bool)
    ensures
        b == spec_listed(numbers@, number@),
{
    let mut i: usize = 0;
    while i < numbers.len()
        invariant
            i <= numbers@.len(),
            forall|j: int| 0 <= j < i ==> #[trigger] numbers@[j]@ != number@,
        decreases numbers@.len() - i,
    {
        if text_eq(numbers[i].as_str(), number) {
            return true;
        }
        i = i + 1;
    }
    false
}

/// The result of one issuing attempt.
#[derive(Debug, PartialEq, Eq)]
pub enum IssueOutcome {
    /// szamlazz.hu issued the document.
    Issued(IssuedDocument),
    /// A document of ours was found before or instead of creating.
    Found(Box<FoundDocument>),
    /// The external id resolves to a document that is not ours.
    Collision(Box<FoundDocument>),
    /// A live invoice of the order that the ledger does not own exists.
    Foreign(Box<FoundDocument>),
    /// The order number was refused as a duplicate and the external id
    /// re-query found nothing.
    DuplicateOrderNumber { code: String, message: String },
    /// szamlazz.hu refused the document; nothing was created.
    Rejected { code: String, message: String },
    /// The attempt may or may not have issued a document.
    Unknown { code: Option<String>, message: String },
    /// The exchange failed; the outcome of any create is unknown.
    Transport(String),
}

/// Whether the hint converts the proforma the ledger holds as ours.
pub open spec fn spec_converts_our_proforma(doc: &FoundDocument, request: &IssueRequest) -> bool {
    request.our_proforma is Some && doc.referenced_proforma.deep_view() == request.our_proforma.deep_view()
}

/// What the order-number hint means: nothing (`None`) unless it is a live
/// invoice (`SZ`, `ES`, `VS`) the ledger does not know; then ours, adopted,
/// when it is of the issued kind and references our proforma, and foreign
/// otherwise.
pub open spec fn spec_hint_matches(doc: FoundDocument, request: &IssueRequest, o: Option<IssueOutcome>) -> bool {
    if !spec_invoice_family(doc.document_type@) || doc.reversed == Some(true) || spec_listed(
        request.our_numbers@,
        doc.number@,
    ) {
        o is None
    } else if doc.document_type@ == spec_document_type(request.kind) && spec_converts_our_proforma(&doc, request) {
        o matches Some(IssueOutcome::Found(d)) && *d == (FoundDocument { adopted: true, ..doc })
    } else {
        o matches Some(IssueOutcome::Foreign(d)) && *d == doc
    }
}

/// Whether two optional texts hold the same text.
fn same_text_option(a: &Option<String>, b: &Option<String>) -> (eq: bool)
    ensures
        eq == (a.deep_view() == b.deep_view()),
{
    match (a, b) {
        (Some(x), Some(y)) => text_eq(x.as_str(), y.as_str()),
        (None, None) => true,
        _ => false,
    }
}

/// What the order-number hint means for the attempt.
pub fn classify_hint(doc: FoundDocument, request: &IssueRequest) -> (o: Option<IssueOutcome>)
    ensures
        spec_hint_matches(doc, request, o),
{
    if !is_invoice_family(doc.document_type.as_str()) || doc.reversed == Some(true) || listed(
        &request.our_numbers,
        doc.number.as_str(),
    ) {
        return None;
    }
    let converts = request.our_proforma.is_some() && same_text_option(&doc.referenced_proforma, &request.our_proforma);
    if text_eq(doc.document_type.as_str(), document_type_of(request.kind)) && converts {
        let found = FoundDocument { adopted: true, ..doc };
        Some(IssueOutcome::Found(Box::new(found)))
    } else {
        Some(IssueOutcome::Foreign(Box::new(doc)))
    }
}

/// What a query by our external id settles: `Ok(Some)` on a hit (ours is
/// found, another is a collision), `Ok(None)` on code 7, `Err(text)` when
/// the check itself failed.
pub fn by_external_id(result: Result<FoundDocument, QueryError>, request: &IssueRequest) -> (r: Result<Option<IssueOutcome>, String>)
    ensures
        match result {
            Ok(doc) => if spec_is_ours(&doc, request) {
                r matches Ok(Some(IssueOutcome::Found(d))) && *d == doc
            } else {
                r matches Ok(Some(IssueOutcome::Collision(d))) && *d == doc
            },
            Err(QueryError::NotFound) => r matches Ok(None),
            Err(e) => r matches Err(t) && t@ == query_error_text(&e),
        },
{
    match result {
        Ok(doc) => {
            if is_ours(&doc, request) {
                Ok(Some(IssueOutcome::Found(Box::new(doc))))
            } else {
                Ok(Some(IssueOutcome::Collision(Box::new(doc))))
            }
        },
        Err(QueryError::NotFound) => Ok(None),
        Err(e) => Err(e.message()),
    }
}

/// szamlazz.hu's answer to a successful create.
#[derive(Debug, PartialEq, Eq)]
pub struct CreateReply {
    pub invoice_number: Option<String>,
    pub net_total: Option<Amount>,
    pub gross_total: Option<Amount>,
    pub outstanding: Option<Amount>,
    pub customer_account_url: Option<String>,
    pub document_id: Option<u64>,
    pub notification_delivery_failed: bool,
}

/// Where an issuing attempt stands.
#[derive(Clone, Copy, Debug, PartialEq, Eq, Structural)]
pub enum IssueStage {
    Start,
    QueryingId,
    QueryingHint,
    Creating,
    Requerying,
    Finished,
}

/// What the attempt does next.
#[derive(Debug, PartialEq, Eq)]
pub enum IssueAction {
    /// Query by the request's external id.
    QueryExternalId,
    /// Query by the order number (the hint).
    QueryOrderNumber,
    /// Send the create.
    Create,
    /// The attempt's outcome.
    Finish(IssueOutcome),
}

/// What the attempt hands back.
#[derive(Debug, PartialEq, Eq)]
pub enum IssueEvent {
    Begin,
    Queried(Result<FoundDocument, QueryError>),
    Created(Result<CreateReply, ClientFailure>),
}

/// One issuing attempt, query-first: nothing is created unless the check by
/// external id found nothing, and, with the hint, the order number shows no
/// live invoice of another.
#[derive(Debug, PartialEq, Eq)]
pub struct IssueAttempt {
    request: IssueRequest,
    stage: IssueStage,
    /// Whether the external-id check found nothing (code 7).
    clear: bool,
    /// The duplicate-order-number answer awaiting the re-query.
    duplicate: Option<(String, String)>,
}

impl IssueAttempt {
    /// The stage.
    pub closed spec fn spec_stage(&self) -> IssueStage {
        self.stage
    }

    /// Whether the external-id check found nothing.
    pub closed spec fn spec_clear(&self) -> bool {
        self.clear
    }

    /// The request.
    pub closed spec fn spec_request(&self) -> IssueRequest {
        self.request
    }

    /// The duplicate-order-number answer awaiting the re-query.
    pub closed spec fn spec_duplicate(&self) -> Option<(String, String)> {
        self.duplicate
    }

    /// A create is sent only after the external-id check found nothing.
    pub closed spec fn wf(&self) -> bool {
        &&& (self.stage == IssueStage::Creating || self.stage == IssueStage::Requerying || self.stage
            == IssueStage::QueryingHint) ==> self.clear
        &&& (self.stage == IssueStage::Requerying <==> self.duplicate is Some)
    }

    /// An attempt for `request`.
    pub fn new(request: IssueRequest) -> (a: IssueAttempt)
        ensures
            a.wf(),
            a.spec_stage() == IssueStage::Start,
            a.spec_request() == request,
    {
        IssueAttempt { request, stage: IssueStage::Start, clear: false, duplicate: None }
    }

    /// The request.
    pub fn request(&self) -> (r: &IssueRequest)
        ensures
            *r == self.spec_request(),
    {
        &self.request
    }

    /// One step. A create is asked for only once the external-id query
    /// answered code 7 (and, with the hint, the hint settled nothing); a
    /// failed check never leads to a create; a duplicate order number is
    /// re-queried by the external id before it is reported.
    pub fn step(&mut self, event: IssueEvent) -> (a: IssueAction)
        requires
            old(self).wf(),
        ensures
            final(self).wf(),
            final(self).spec_request() == old(self).spec_request(),
            a is Create ==> final(self).spec_clear() && final(self).spec_stage() == IssueStage::Creating,
            a is Create ==> ((event matches IssueEvent::Queried(Err(QueryError::NotFound)) && old(self).spec_stage()
                == IssueStage::QueryingId && !old(self).spec_request().check_hint) || old(self).spec_stage()
                == IssueStage::QueryingHint),
            a is QueryOrderNumber ==> old(self).spec_request().check_hint && final(self).spec_clear(),
            old(self).spec_stage() == IssueStage::Finished ==> a is Finish,
            a is Finish ==> final(self).spec_stage() == IssueStage::Finished,
            a is Create ==> old(self).spec_stage() != IssueStage::Creating,
            (old(self).spec_stage() == IssueStage::Start && event is Begin) ==> (a is QueryExternalId && final(
                self).spec_stage() == IssueStage::QueryingId),
            event matches IssueEvent::Queried(r) ==> (old(self).spec_stage() == IssueStage::QueryingId ==> match r {
                Ok(doc) => if spec_is_ours(&doc, &old(self).spec_request()) {
                    a matches IssueAction::Finish(IssueOutcome::Found(d)) && *d == doc
                } else {
                    a matches IssueAction::Finish(IssueOutcome::Collision(d)) && *d == doc
                },
                Err(QueryError::NotFound) => if old(self).spec_request().check_hint {
                    a is QueryOrderNumber && final(self).spec_stage() == IssueStage::QueryingHint
                } else {
                    a is Create
                },
                Err(e) => a matches IssueAction::Finish(IssueOutcome::Transport(t)) && t@ == query_error_text(&e),
            }),
            event matches IssueEvent::Queried(r) ==> (old(self).spec_stage() == IssueStage::QueryingHint ==> match r {
                Ok(doc) => (a is Create || a is Finish) && spec_hint_matches(
                    doc,
                    &old(self).spec_request(),
                    match a {
                        IssueAction::Finish(o) => Some(o),
                        _ => None,
                    },
                ),
                Err(QueryError::NotFound) | Err(QueryError::Api { .. }) => a is Create,
                Err(e) => a matches IssueAction::Finish(IssueOutcome::Transport(t)) && t@ == query_error_text(&e),
            }),
            event matches IssueEvent::Created(r) ==> (old(self).spec_stage() == IssueStage::Creating ==> match r {
                Ok(reply) => match reply.invoice_number {
                    Some(number) => a == IssueAction::Finish(
                        IssueOutcome::Issued(
                            IssuedDocument {
                                number,
                                net_total: reply.net_total,
                                gross_total: reply.gross_total,
                                outstanding: reply.outstanding,
                                customer_account_url: reply.customer_account_url,
                                document_id: reply.document_id,
                                notification_delivery_failed: reply.notification_delivery_failed,
                            },
                        ),
                    ),
                    None => a matches IssueAction::Finish(IssueOutcome::Unknown { code: None, message }) && message@
                        == "create succeeded without a document number"@,
                },
                Err(ClientFailure::Api { code, message }) => if spec_duplicate_code(code@) {
                    a is QueryExternalId && final(self).spec_stage() == IssueStage::Requerying && final(
                        self).spec_duplicate() == Some((code, message))
                } else if spec_unknown_code(code@) {
                    a == IssueAction::Finish(IssueOutcome::Unknown { code: Some(code), message })
                } else {
                    a == IssueAction::Finish(IssueOutcome::Rejected { code, message })
                },
                Err(ClientFailure::ServiceUnavailable { message, .. }) => a == IssueAction::Finish(
                    IssueOutcome::Unknown { code: None, message },
                ),
                Err(ClientFailure::Request { message }) => a matches IssueAction::Finish(
                    IssueOutcome::Rejected { code: c, message: m },
                ) && c@ == request_code() && m == message,
                Err(ClientFailure::Transport { message }) => a == IssueAction::Finish(IssueOutcome::Transport(message)),
            }),
            event matches IssueEvent::Queried(r) ==> (old(self).spec_stage() == IssueStage::Requerying ==> match r {
                Ok(doc) => if spec_is_ours(&doc, &old(self).spec_request()) {
                    a matches IssueAction::Finish(IssueOutcome::Found(d)) && *d == doc
                } else {
                    a matches IssueAction::Finish(IssueOutcome::Collision(d)) && *d == doc
                },
                Err(QueryError::NotFound) => old(self).spec_duplicate() matches Some((code, message)) && a
                    == IssueAction::Finish(IssueOutcome::DuplicateOrderNumber { code, message }),
                Err(e) => a matches IssueAction::Finish(IssueOutcome::Transport(t)) && t@ == query_error_text(&e),
            }),
    {
        match (self.stage, event) {
            (IssueStage::Start, IssueEvent::Begin) => {
                self.stage = IssueStage::QueryingId;
                IssueAction::QueryExternalId
            },
            (IssueStage::QueryingId, IssueEvent::Queried(result)) => {
                match by_external_id(result, &self.request) {
                    Ok(Some(outcome)) => {
                        self.stage = IssueStage::Finished;
                        IssueAction::Finish(outcome)
                    },
                    Ok(None) => {
                        self.clear = true;
                        if self.request.check_hint {
                            self.stage = IssueStage::QueryingHint;
                            IssueAction::QueryOrderNumber
                        } else {
                            self.stage = IssueStage::Creating;
                            IssueAction::Create
                        }
                    },
                    Err(text) => {
                        self.stage = IssueStage::Finished;
                        IssueAction::Finish(IssueOutcome::Transport(text))
                    },
                }
            },
            (IssueStage::QueryingHint, IssueEvent::Queried(result)) => {
                match result {
                    Ok(doc) => match classify_hint(doc, &self.request) {
                        Some(outcome) => {
                            self.stage = IssueStage::Finished;
                            IssueAction::Finish(outcome)
                        },
                        None => {
                            self.stage = IssueStage::Creating;
                            IssueAction::Create
                        },
                    },
                    Err(QueryError::NotFound) => {
                        self.stage = IssueStage::Creating;
                        IssueAction::Create
                    },
                    Err(QueryError::Api { .. }) => {
                        self.stage = IssueStage::Creating;
                        IssueAction::Create
                    },
                    Err(e) => {
                        self.stage = IssueStage::Finished;
                        IssueAction::Finish(IssueOutcome::Transport(e.message()))
                    },
                }
            },
            (IssueStage::Creating, IssueEvent::Created(Ok(reply))) => {
                self.stage = IssueStage::Finished;
                match reply.invoice_number {
                    Some(number) => IssueAction::Finish(
                        IssueOutcome::Issued(
                            IssuedDocument {
                                number,
                                net_total: reply.net_total,
                                gross_total: reply.gross_total,
                                outstanding: reply.outstanding,
                                customer_account_url: reply.customer_account_url,
                                document_id: reply.document_id,
                                notification_delivery_failed: reply.notification_delivery_failed,
                            },
                        ),
                    ),
                    None => IssueAction::Finish(
                        IssueOutcome::Unknown {
                            code: None,
                            message: String::from_str("create succeeded without a document number"),
                        },
                    ),
                }
            },
            (IssueStage::Creating, IssueEvent::Created(Err(error))) => {
                match classify_failure(error) {
                    Failure::Duplicate { code, message } => {
                        self.stage = IssueStage::Requerying;
                        self.duplicate = Some((code, message));
                        IssueAction::QueryExternalId
                    },
                    Failure::Rejected { code, message } => {
                        self.stage = IssueStage::Finished;
                        IssueAction::Finish(IssueOutcome::Rejected { code, message })
                    },
                    Failure::Unknown { code, message } => {
                        self.stage = IssueStage::Finished;
                        IssueAction::Finish(IssueOutcome::Unknown { code, message })
                    },
                    Failure::Transport { message } => {
                        self.stage = IssueStage::Finished;
                        IssueAction::Finish(IssueOutcome::Transport(message))
                    },
                }
            },
            (IssueStage::Requerying, IssueEvent::Queried(result)) => {
                self.stage = IssueStage::Finished;
                let answer = self.duplicate.take();
                match by_external_id(result, &self.request) {
                    Ok(Some(outcome)) => IssueAction::Finish(outcome),
                    Ok(None) => match answer {
                        Some((code, message)) => IssueAction::Finish(IssueOutcome::DuplicateOrderNumber { code, message }),
                        None => IssueAction::Finish(IssueOutcome::Transport(String::from_str(
                            "the issuing attempt received an event out of order",
                        ))),
                    },
                    Err(text) => IssueAction::Finish(IssueOutcome::Transport(text)),
                }
            },
            _ => {
                self.stage = IssueStage::Finished;
                self.duplicate = None;
                IssueAction::Finish(IssueOutcome::Transport(String::from_str(
                    "the issuing attempt received an event out of order",
                )))
            },
        }
    }
}

/// One storno attempt.
#[derive(Debug, PartialEq, Eq)]
pub struct StornoAttempt {
    /// The invoice to reverse.
    pub invoice_number: String,
    /// The external id the storno carries and is pre-queried by.
    pub external_id: ExternalId,
    /// Comment placed on the storno invoice.
    pub comment: Option<String>,
    /// Issue the storno as an e-invoice.
    pub e_invoice: bool,
}

/// The result of one storno attempt.
#[derive(Debug, PartialEq, Eq)]
pub enum StornoOutcome {
    /// The invoice is reversed by `storno_number`.
    Reversed { storno_number: String, gross: Option<Amount>, document_id: Option<u64> },
    /// The pre-query found the storno under its external id; nothing was
    /// sent.
    AlreadyReversed { storno_number: String },
    /// szamlazz.hu echoed the requested document: it cannot be reversed.
    NotStornoable,
    /// szamlazz.hu refused.
    Rejected { code: String, message: String },
    /// The storno may or may not have been issued.
    Unknown { code: Option<String>, message: String },
    /// The exchange failed.
    Transport(String),
}

/// szamlazz.hu's answer to a storno request that succeeded.
#[derive(Debug, PartialEq, Eq)]
pub struct StornoReply {
    /// The number of the document the answer names.
    pub invoice_number: String,
    pub gross_total: Option<Amount>,
    pub document_id: Option<u64>,
    /// Whether the answer reverses the requested invoice (an echo of the
    /// requested document does not).
    pub reverses: bool,
}

/// What the query before the send settles: a storno of the invoice under the
/// attempt's external id ends the attempt; any other document, or code 7,
/// lets it send; a failed check ends it as transport.
pub fn storno_precheck(result: Result<FoundDocument, QueryError>, attempt: &StornoAttempt) -> (o: Option<StornoOutcome>)
    ensures
        match result {
            Ok(doc) => if doc.spec_storno_of(attempt.invoice_number@) {
                o matches Some(StornoOutcome::AlreadyReversed { storno_number }) && storno_number == doc.number
            } else {
                o is None
            },
            Err(QueryError::NotFound) => o is None,
            Err(e) => o matches Some(StornoOutcome::Transport(t)) && t@ == query_error_text(&e),
        },
{
    match result {
        Ok(doc) => {
            if doc.is_storno_of(attempt.invoice_number.as_str()) {
                Some(StornoOutcome::AlreadyReversed { storno_number: doc.number })
            } else {
                None
            }
        },
        Err(QueryError::NotFound) => None,
        Err(e) => Some(StornoOutcome::Transport(e.message())),
    }
}

/// What szamlazz.hu's answer `result` to a storno request settles: a reply
/// that reverses the invoice is `Reversed`, an echo `NotStornoable`; a
/// failure is classified as for a create, a duplicate code a rejection.
pub open spec fn storno_reply_settles(result: Result<StornoReply, ClientFailure>, o: StornoOutcome) -> bool {
    match result {
        Ok(reply) => if reply.reverses {
            o == (StornoOutcome::Reversed {
                storno_number: reply.invoice_number,
                gross: reply.gross_total,
                document_id: reply.document_id,
            })
        } else {
            o is NotStornoable
        },
        Err(error) => match error {
            ClientFailure::Api { code, message } => if spec_unknown_code(code@) {
                o == (StornoOutcome::Unknown { code: Some(code), message })
            } else {
                o == (StornoOutcome::Rejected { code, message })
            },
            ClientFailure::ServiceUnavailable { message, .. } => o == (StornoOutcome::Unknown { code: None, message }),
            ClientFailure::Request { message } => o matches StornoOutcome::Rejected { code, message: m } && code@
                == request_code() && m == message,
            ClientFailure::Transport { message } => o == StornoOutcome::Transport(message),
        },
    }
}

/// What szamlazz.hu's answer to the storno request settles.
pub fn storno_result(result: Result<StornoReply, ClientFailure>) -> (o: StornoOutcome)
    ensures
        storno_reply_settles(result, o),
        match result {
            Ok(reply) => if reply.reverses {
                o == (StornoOutcome::Reversed {
                    storno_number: reply.invoice_number,
                    gross: reply.gross_total,
                    document_id: reply.document_id,
                })
            } else {
                o is NotStornoable
            },
            Err(error) => match error {
                ClientFailure::Api { code, message } => if spec_unknown_code(code@) {
                    o == (StornoOutcome::Unknown { code: Some(code), message })
                } else {
                    o == (StornoOutcome::Rejected { code, message })
                },
                ClientFailure::ServiceUnavailable { message, .. } => o == (StornoOutcome::Unknown { code: None, message }),
                ClientFailure::Request { message } => o matches StornoOutcome::Rejected { code, message: m } && code@
                    == request_code() && m == message,
                ClientFailure::Transport { message } => o == StornoOutcome::Transport(message),
            },
        },
{
    match result {
        Ok(reply) => {
            if reply.reverses {
                StornoOutcome::Reversed {
                    storno_number: reply.invoice_number,
                    gross: reply.gross_total,
                    document_id: reply.document_id,
                }
            } else {
                StornoOutcome::NotStornoable
            }
        },
        Err(error) => match classify_failure(error) {
            Failure::Rejected { code, message } => StornoOutcome::Rejected { code, message },
            Failure::Duplicate { code, message } => {
                proof {
                    lemma_duplicate_is_not_unknown(code@);
                }
                StornoOutcome::Rejected { code, message }
            },
            Failure::Unknown { code, message } => StornoOutcome::Unknown { code, message },
            Failure::Transport { message } => StornoOutcome::Transport(message),
        },
    }
}

/// The result of a proforma deletion.
#[derive(Debug, PartialEq, Eq)]
pub enum DeleteOutcome {
    /// Deleted now.
    Deleted,
    /// szamlazz.hu no longer knows the proforma (335).
    AlreadyGone,
    /// szamlazz.hu refused.
    Rejected { code: String, message: String },
    /// The exchange, the response parse or the service failed.
    Transport(String),
}

/// The client's text for a failure that is not an answered code.
pub open spec fn failure_text(error: &ClientFailure) -> Seq<char> {
    match error {
        ClientFailure::Api { code, message } => code@ + ": "@ + message@,
        ClientFailure::ServiceUnavailable { text, .. } => text@,
        ClientFailure::Request { message } => message@,
        ClientFailure::Transport { message } => message@,
    }
}

/// What szamlazz.hu's answer to a proforma deletion settles: 335 means the
/// proforma is already gone.
pub fn delete_result(result: Result<(), ClientFailure>) -> (o: DeleteOutcome)
    ensures
        match result {
            Ok(()) => o is Deleted,
            Err(ClientFailure::Api { code, message }) => if code@ == proforma_not_found() {
                o is AlreadyGone
            } else {
                o == (DeleteOutcome::Rejected { code, message })
            },
            Err(error) => o matches DeleteOutcome::Transport(t) && t@ == failure_text(&error),
        },
{
    match result {
        Ok(()) => DeleteOutcome::Deleted,
        Err(ClientFailure::Api { code, message }) => {
            if text_eq(code.as_str(), "335") {
                DeleteOutcome::AlreadyGone
            } else {
                DeleteOutcome::Rejected { code, message }
            }
        },
        Err(ClientFailure::ServiceUnavailable { text, .. }) => DeleteOutcome::Transport(text),
        Err(ClientFailure::Request { message }) => DeleteOutcome::Transport(message),
        Err(ClientFailure::Transport { message }) => DeleteOutcome::Transport(message),
    }
}

/// The most credit entries one request carries.
pub const MAX_CREDIT_ENTRIES: usize = 5;

/// The refusal of a request with more credit entries than the wire allows.
pub open spec fn too_many_entries_text() -> Seq<char> {
    "a credit-entry request can contain at most five entries"@
}

/// The result of registering credit entries.
#[derive(Debug, PartialEq, Eq)]
pub enum SetPaymentsOutcome {
    /// The entries are registered.
    Done { outstanding: Option<Amount>, gross: Option<Amount> },
    /// szamlazz.hu, or the wire contract (`request`), refused.
    Rejected { code: String, message: String },
    /// The exchange, the response parse or the service failed.
    Transport(String),
}

/// The wire contract's verdict on a request of `count` credit entries:
/// more than five is refused before anything is sent.
pub fn credit_entries_refusal(count: usize) -> (o: Option<SetPaymentsOutcome>)
    ensures
        count <= MAX_CREDIT_ENTRIES <==> o is None,
        o matches Some(r) ==> (r matches SetPaymentsOutcome::Rejected { code, message } && code@ == request_code()
            && message@ == too_many_entries_text()),
{
    if count <= MAX_CREDIT_ENTRIES {
        None
    } else {
        Some(SetPaymentsOutcome::Rejected {
            code: String::from_str("request"),
            message: String::from_str("a credit-entry request can contain at most five entries"),
        })
    }
}

/// What szamlazz.hu's answer to a credit-entry registration settles.
pub fn set_payments_result(result: Result<(Option<Amount>, Option<Amount>), ClientFailure>) -> (o: SetPaymentsOutcome)
    ensures
        match result {
            Ok((outstanding, gross)) => o == (SetPaymentsOutcome::Done { outstanding, gross }),
            Err(ClientFailure::Api { code, message }) => o == (SetPaymentsOutcome::Rejected { code, message }),
            Err(ClientFailure::Request { message }) => o matches SetPaymentsOutcome::Rejected { code, message: m }
                && code@ == request_code() && m == message,
            Err(error) => o matches SetPaymentsOutcome::Transport(t) && t@ == failure_text(&error),
        },
{
    match result {
        Ok((outstanding, gross)) => SetPaymentsOutcome::Done { outstanding, gross },
        Err(ClientFailure::Api { code, message }) => SetPaymentsOutcome::Rejected { code, message },
        Err(ClientFailure::Request { message }) => SetPaymentsOutcome::Rejected {
            code: String::from_str("request"),
            message,
        },
        Err(ClientFailure::ServiceUnavailable { text, .. }) => SetPaymentsOutcome::Transport(text),
        Err(ClientFailure::Transport { message }) => SetPaymentsOutcome::Transport(message),
    }
}

/// The account settings the layer puts on every request it builds.
#[derive(Debug, PartialEq, Eq)]
pub struct AgentConfig {
    /// The aggregator (`szamlaagentkulcs` partner) to name, if any.
    pub aggregator: Option<String>,
    /// The guardian flag the account's storno requests carry.
    pub guardian: bool,
}

/// How a query names the document it asks for.
#[derive(Debug, PartialEq, Eq)]
pub enum Selector {
    InvoiceNumber(String),
    OrderNumber(String),
    ExternalId(String),
}

/// A storno request as the layer sends it.
#[derive(Debug, PartialEq, Eq)]
pub struct StornoRequest {
    pub invoice_number: String,
    pub e_invoice: bool,
    pub external_id: String,
    pub comment: Option<String>,
    pub aggregator: Option<String>,
    pub guardian: bool,
    /// Never set: szamlazz.hu refuses a storno with an issue date (352).
    pub issue_date: Option<Date>,
}

/// One credit entry.
#[derive(Debug, PartialEq, Eq)]
pub struct CreditEntry {
    pub date: Date,
    pub method: String,
    pub amount: Amount,
    pub description: Option<String>,
}

/// A credit-entry registration as the layer sends it.
#[derive(Debug, PartialEq, Eq)]
pub struct CreditRequest {
    pub invoice_number: String,
    pub additive: bool,
    pub entries: Vec<CreditEntry>,
    pub aggregator: Option<String>,
}

/// Whether `r` is the storno request of `attempt` under `config`: the
/// attempt's invoice, flag, external id and comment, the account's
/// aggregator and guardian, and no issue date.
pub open spec fn storno_request_for(config: AgentConfig, attempt: &StornoAttempt, r: StornoRequest) -> bool {
    &&& r.invoice_number@ == attempt.invoice_number@
    &&& r.e_invoice == attempt.e_invoice
    &&& r.external_id@ == attempt.external_id@
    &&& r.comment.deep_view() == attempt.comment.deep_view()
    &&& r.aggregator.deep_view() == config.aggregator.deep_view()
    &&& r.guardian == config.guardian
    &&& r.issue_date is None
}

/// Where a storno attempt stands.
#[derive(Clone, Copy, Debug, PartialEq, Eq, Structural)]
pub enum StornoStage {
    Start,
    Querying,
    Sending,
    Finished,
}

/// What the storno attempt does next.
#[derive(Debug, PartialEq, Eq)]
pub enum StornoAction {
    /// Query by the storno's external id.
    QueryExternalId { external_id: String },
    /// Send the storno request.
    Send(StornoRequest),
    /// The attempt's outcome.
    Finish(StornoOutcome),
}

/// What the storno attempt hands back.
#[derive(Debug, PartialEq, Eq)]
pub enum StornoEvent {
    Begin,
    Queried(Result<FoundDocument, QueryError>),
    Sent(Result<StornoReply, ClientFailure>),
}

/// The message of an event that does not fit the attempt's stage.
pub open spec fn storno_out_of_order_text() -> Seq<char> {
    "the storno attempt received an event out of order"@
}

/// Whether the query before the send lets the storno be sent: nothing under
/// the external id (code 7), or a document that is no storno of the invoice.
pub open spec fn spec_precheck_clear(result: &Result<FoundDocument, QueryError>, number: Seq<char>) -> bool {
    match result {
        Ok(doc) => !doc.spec_storno_of(number),
        Err(QueryError::NotFound) => true,
        Err(_) => false,
    }
}

/// One storno attempt, query-first: the storno is sent at most once, and
/// only after the query of its external id found no storno of the invoice.
#[derive(Debug, PartialEq, Eq)]
pub struct StornoRun {
    attempt: StornoAttempt,
    request: Option<StornoRequest>,
    stage: StornoStage,
    /// Whether the storno was handed out to be sent.
    sent: bool,
}

impl StornoRun {
    /// The stage.
    pub closed spec fn spec_stage(&self) -> StornoStage {
        self.stage
    }

    /// The attempt.
    pub closed spec fn spec_attempt(&self) -> StornoAttempt {
        self.attempt
    }

    /// The request the attempt sends, until it is sent.
    pub closed spec fn spec_request(&self) -> Option<StornoRequest> {
        self.request
    }

    /// Whether the storno was handed out to be sent.
    pub closed spec fn spec_sent(&self) -> bool {
        self.sent
    }

    /// The request is held until it is sent, and only then.
    pub closed spec fn wf(&self) -> bool {
        &&& (self.stage == StornoStage::Start || self.stage == StornoStage::Querying) ==> (self.request is Some
            && !self.sent)
        &&& self.stage == StornoStage::Sending ==> self.sent
        &&& self.sent ==> self.request is None
    }

    /// The attempt `attempt`, sending `request` once the query lets it.
    pub fn new(attempt: StornoAttempt, request: StornoRequest) -> (r: StornoRun)
        ensures
            r.wf(),
            r.spec_stage() == StornoStage::Start,
            r.spec_attempt() == attempt,
            r.spec_request() == Some(request),
            !r.spec_sent(),
    {
        StornoRun { attempt, request: Some(request), stage: StornoStage::Start, sent: false }
    }

    /// One step. The storno is sent only after the query of its external id
    /// answered code 7 or a document that is no storno of the invoice, and
    /// at most once; a storno already there, or a failed query, finishes
    /// the attempt with nothing sent.
    pub fn step(&mut self, event: StornoEvent) -> (a: StornoAction)
        requires
            old(self).wf(),
        ensures
            final(self).wf(),
            final(self).spec_attempt() == old(self).spec_attempt(),
            a is Send ==> old(self).spec_stage() == StornoStage::Querying && !old(self).spec_sent() && final(
                self).spec_sent() && (event matches StornoEvent::Queried(r) && spec_precheck_clear(
                &r,
                old(self).spec_attempt().invoice_number@,
            )),
            old(self).spec_sent() ==> final(self).spec_sent(),
            a is Finish ==> final(self).spec_stage() == StornoStage::Finished,
            old(self).spec_stage() == StornoStage::Finished ==> a is Finish,
            (old(self).spec_stage() == StornoStage::Start && event is Begin) ==> (a matches StornoAction::QueryExternalId {
                external_id,
            } && external_id@ == old(self).spec_attempt().external_id@ && final(self).spec_stage()
                == StornoStage::Querying),
            event matches StornoEvent::Queried(r) ==> (old(self).spec_stage() == StornoStage::Querying ==> match r {
                Ok(doc) => if doc.spec_storno_of(old(self).spec_attempt().invoice_number@) {
                    a == StornoAction::Finish(StornoOutcome::AlreadyReversed { storno_number: doc.number })
                } else {
                    old(self).spec_request() matches Some(req) && a == StornoAction::Send(req) && final(
                        self).spec_stage() == StornoStage::Sending
                },
                Err(QueryError::NotFound) => old(self).spec_request() matches Some(req) && a == StornoAction::Send(
                    req,
                ) && final(self).spec_stage() == StornoStage::Sending,
                Err(e) => a matches StornoAction::Finish(StornoOutcome::Transport(t)) && t@ == query_error_text(&e),
            }),
            event matches StornoEvent::Sent(r) ==> (old(self).spec_stage() == StornoStage::Sending ==> (a matches StornoAction::Finish(
                o,
            ) && storno_reply_settles(r, o))),
            (!(old(self).spec_stage() == StornoStage::Start && event is Begin) && !(old(self).spec_stage()
                == StornoStage::Querying && event is Queried) && !(old(self).spec_stage() == StornoStage::Sending
                && event is Sent)) ==> (a matches StornoAction::Finish(StornoOutcome::Transport(t)) && t@
                == storno_out_of_order_text()),
    {
        match (self.stage, event) {
            (StornoStage::Start, StornoEvent::Begin) => {
                self.stage = StornoStage::Querying;
                StornoAction::QueryExternalId { external_id: String::from_str(self.attempt.external_id.as_str()) }
            },
            (StornoStage::Querying, StornoEvent::Queried(result)) => {
                match storno_precheck(result, &self.attempt) {
                    Some(outcome) => {
                        self.stage = StornoStage::Finished;
                        StornoAction::Finish(outcome)
                    },
                    None => {
                        let request = self.request.take();
                        match request {
                            Some(request) => {
                                self.sent = true;
                                self.stage = StornoStage::Sending;
                                StornoAction::Send(request)
                            },
                            None => {
                                self.stage = StornoStage::Finished;
                                StornoAction::Finish(StornoOutcome::Transport(String::from_str(
                                    "the storno attempt received an event out of order",
                                )))
                            },
                        }
                    },
                }
            },
            (StornoStage::Sending, StornoEvent::Sent(result)) => {
                self.stage = StornoStage::Finished;
                StornoAction::Finish(storno_result(result))
            },
            _ => {
                self.stage = StornoStage::Finished;
                StornoAction::Finish(StornoOutcome::Transport(String::from_str(
                    "the storno attempt received an event out of order",
                )))
            },
        }
    }
}

/// The low-level Számla Agent layer of one deployment: the account settings
/// its requests carry. The client that sends them is the handler's.
#[derive(Debug, PartialEq, Eq)]
pub struct SzamlaAgent {
    config: AgentConfig,
}

fn copy_text(o: &Option<String>) -> (r: Option<String>)
    ensures
        r.deep_view() == o.deep_view(),
{
    match o {
        Some(t) => Some(t.clone()),
        None => None,
    }
}

impl SzamlaAgent {
    /// The layer for `config`.
    pub fn new(config: AgentConfig) -> (a: SzamlaAgent)
        ensures
            a.spec_config() == config,
    {
        SzamlaAgent { config }
    }

    /// The account settings.
    pub closed spec fn spec_config(&self) -> AgentConfig {
        self.config
    }

    /// The account settings.
    pub fn config(&self) -> (c: &AgentConfig)
        ensures
            *c == self.spec_config(),
    {
        &self.config
    }

    /// One issuing attempt for `request`, query-first.
    pub fn issue(&self, request: IssueRequest) -> (a: IssueAttempt)
        ensures
            a.wf(),
            a.spec_stage() == IssueStage::Start,
            a.spec_request() == request,
    {
        IssueAttempt::new(request)
    }

    /// The query that verifies the recorded document `number`.
    pub fn verify(&self, number: &str) -> (s: Selector)
        ensures
            s matches Selector::InvoiceNumber(n) && n@ == number@,
    {
        Selector::InvoiceNumber(String::from_str(number))
    }

    /// The order-number hint: the query of the most recent document of any
    /// kind carrying `order`.
    pub fn hint(&self, order: &OrderKey) -> (s: Selector)
        ensures
            s matches Selector::OrderNumber(n) && n@ == order@,
    {
        Selector::OrderNumber(String::from_str(order.as_str()))
    }

    /// The storno request of `attempt`: its invoice, flag, external id and
    /// comment, the account's aggregator and guardian, and no issue date.
    pub fn storno(&self, attempt: &StornoAttempt) -> (r: StornoRequest)
        ensures
            storno_request_for(self.spec_config(), attempt, r),
            r.invoice_number@ == attempt.invoice_number@,
            r.e_invoice == attempt.e_invoice,
            r.external_id@ == attempt.external_id@,
            r.comment.deep_view() == attempt.comment.deep_view(),
            r.aggregator.deep_view() == self.spec_config().aggregator.deep_view(),
            r.guardian == self.spec_config().guardian,
            r.issue_date is None,
    {
        StornoRequest {
            invoice_number: attempt.invoice_number.clone(),
            e_invoice: attempt.e_invoice,
            external_id: String::from_str(attempt.external_id.as_str()),
            comment: copy_text(&attempt.comment),
            aggregator: copy_text(&self.config.aggregator),
            guardian: self.config.guardian,
            issue_date: None,
        }
    }

    /// One storno attempt for `attempt`, query-first, sending the request
    /// [`SzamlaAgent::storno`] builds.
    pub fn storno_run(&self, attempt: StornoAttempt) -> (r: StornoRun)
        ensures
            r.wf(),
            r.spec_stage() == StornoStage::Start,
            r.spec_attempt() == attempt,
            !r.spec_sent(),
            r.spec_request() matches Some(req) && storno_request_for(self.spec_config(), &attempt, req),
    {
        let request = self.storno(&attempt);
        StornoRun::new(attempt, request)
    }

    /// The registration of `entries` on invoice `number`, replacing the
    /// existing entries unless `additive`; more than five entries are the
    /// wire contract's refusal, and nothing is sent.
    pub fn set_payments(&self, number: &str, entries: Vec<CreditEntry>, additive: bool) -> (r: Result<CreditRequest, SetPaymentsOutcome>)
        ensures
            entries@.len() <= MAX_CREDIT_ENTRIES <==> r is Ok,
            r matches Ok(req) ==> req.invoice_number@ == number@ && req.additive == additive && req.entries
                == entries && req.aggregator.deep_view() == self.spec_config().aggregator.deep_view(),
            r matches Err(o) ==> (o matches SetPaymentsOutcome::Rejected { code, message } && code@ == request_code()
                && message@ == too_many_entries_text()),
    {
        match credit_entries_refusal(entries.len()) {
            Some(refusal) => Err(refusal),
            None => Ok(CreditRequest {
                invoice_number: String::from_str(number),
                additive,
                entries,
                aggregator: copy_text(&self.config.aggregator),
            }),
        }
    }
}

} // verus!
