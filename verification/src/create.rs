//! The create protocol's decisions, in the order the steps run: the options
//! check (step 0), exclusivity and the prepayment of a final invoice
//! (step 1), the proforma link (step 2), the lookup (step 3) and the settled
//! create step as the caller's response (step 5). Each is a pure function of
//! what the step before it settled.

use vstd::prelude::*;
use vstd::string::*;

use std::ops::ControlFlow;

use crate::amount::{outstanding, spec_outstanding, Amount};
use crate::fault::{
    about, plain, spec_answered_fault, szlahu_down_text,
    AnsweredCode, Fault, FaultView, RunEnd, TerminalCode,
};
use crate::gateway::{
    CreateOutcome, FoundDocument, LookupOutcome, OwnershipOutcome, QueryOutcome,
};
use crate::identity::{
    spec_kind_id, spec_kind_name, ExternalId, Namespace, OrderKey,
};
use crate::kinds::{issued_kind, DocumentKind, IssuedKind};
use crate::text::{decimal, decimal_text, trim, trimmed};

verus! {

/// What a create settled as.
#[derive(Clone, Copy, Debug, PartialEq, Eq, Structural)]
pub enum Outcome {
    /// szamlazz.hu issued the document now.
    Issued,
    /// A live document of ours was already under the external id.
    AlreadyIssued,
    /// A reversed document of ours is under the external id.
    Reversed,
    /// The document was reconciled from an earlier execution's send.
    Reconciled,
    /// Refused without a send; `conflict_reason` says why.
    Conflict,
    /// szamlazz.hu refused the document.
    Rejected,
}

/// Why a create was refused without a send.
#[derive(Clone, Copy, Debug, PartialEq, Eq, Structural)]
pub enum ConflictReason {
    /// The invoice chain and the prepayment chain exclude each other.
    PrepaidChain,
    /// A proforma after the order is invoiced.
    OrderInvoiced,
    /// The newest holder of an external id is not ours.
    ExternalIdCollision,
    /// A live document of ours under the id, under `reissue`.
    Live,
    /// Another channel's live invoice under the order.
    Foreign,
    /// szamlazz.hu refused the order number as a duplicate.
    DuplicateOrderNumber,
    /// A final invoice without a prepayment invoice.
    PrepaymentMissing,
    /// A final invoice whose prepayment invoice is reversed.
    PrepaymentReversed,
    /// `options.proforma: none` while a live proforma of ours exists.
    ProformaLive,
    /// The proforma named by number is not known.
    ProformaMissing,
    /// The document named by number is not this order's.
    NotManaged,
    /// The corrective's base is reversed.
    BaseReversed,
}

/// A warning an answer carries beside its outcome.
#[derive(Clone, Copy, Debug, PartialEq, Eq, Structural)]
pub enum Warning {
    /// Issued, but the notification could not be delivered (code 56).
    NotificationDeliveryFailed,
}

/// The answer of a create handler.
#[derive(Debug, PartialEq, Eq)]
pub struct CreateResponse {
    pub outcome: Outcome,
    pub kind: IssuedKind,
    pub external_id: String,
    pub invoice_number: Option<String>,
    pub net_total: Option<Amount>,
    pub gross_total: Option<Amount>,
    pub outstanding: Option<Amount>,
    pub customer_account_url: Option<String>,
    pub storno_number: Option<String>,
    pub conflict_reason: Option<ConflictReason>,
    pub existing_number: Option<String>,
    pub code: Option<String>,
    pub message: Option<String>,
    pub warnings: Vec<Warning>,
}

/// A create answer, mathematically.
pub ghost struct ResponseView {
    pub outcome: Outcome,
    pub kind: IssuedKind,
    pub external_id: Seq<char>,
    pub invoice_number: Option<Seq<char>>,
    pub net_total: Option<Amount>,
    pub gross_total: Option<Amount>,
    pub outstanding: Option<Amount>,
    pub customer_account_url: Option<Seq<char>>,
    pub storno_number: Option<Seq<char>>,
    pub conflict_reason: Option<ConflictReason>,
    pub existing_number: Option<Seq<char>>,
    pub code: Option<Seq<char>>,
    pub message: Option<Seq<char>>,
    pub warnings: Seq<Warning>,
}

impl View for CreateResponse {
    type V = ResponseView;

    open spec fn view(&self) -> ResponseView {
        ResponseView {
            outcome: self.outcome,
            kind: self.kind,
            external_id: self.external_id@,
            invoice_number: self.invoice_number.deep_view(),
            net_total: self.net_total,
            gross_total: self.gross_total,
            outstanding: self.outstanding,
            customer_account_url: self.customer_account_url.deep_view(),
            storno_number: self.storno_number.deep_view(),
            conflict_reason: self.conflict_reason,
            existing_number: self.existing_number.deep_view(),
            code: self.code.deep_view(),
            message: self.message.deep_view(),
            warnings: self.warnings@,
        }
    }
}

/// The document a create is about: its kind and external id.
#[derive(Debug, PartialEq, Eq)]
pub struct Identity {
    pub kind: IssuedKind,
    pub external_id: ExternalId,
}

/// The bare answer `outcome` about `id`.
pub open spec fn respond_view(id: &Identity, outcome: Outcome) -> ResponseView {
    ResponseView {
        outcome,
        kind: id.kind,
        external_id: id.external_id@,
        invoice_number: None,
        net_total: None,
        gross_total: None,
        outstanding: None,
        customer_account_url: None,
        storno_number: None,
        conflict_reason: None,
        existing_number: None,
        code: None,
        message: None,
        warnings: Seq::empty(),
    }
}

/// `conflict{reason}` about `id`.
pub open spec fn conflict_view(id: &Identity, reason: ConflictReason) -> ResponseView {
    ResponseView { conflict_reason: Some(reason), ..respond_view(id, Outcome::Conflict) }
}

/// `conflict{reason, existing_number}` about `id`.
pub open spec fn conflict_about_view(id: &Identity, reason: ConflictReason, number: Seq<char>) -> ResponseView {
    ResponseView { existing_number: Some(number), ..conflict_view(id, reason) }
}

/// `outcome` for the found document: its number and totals, and what is
/// still owed on it.
pub open spec fn found_view(id: &Identity, outcome: Outcome, found: &FoundDocument) -> ResponseView {
    ResponseView {
        invoice_number: Some(found.number@),
        net_total: Some(found.net),
        gross_total: Some(found.gross),
        outstanding: match spec_outstanding(Some(found.gross), found.payments@) {
            Some((m, s)) => Some(Amount { mantissa: m as i128, scale: s as u32 }),
            None => None,
        },
        ..respond_view(id, outcome)
    }
}

/// `reversed` for `number`, reversed by `storno_number`.
pub open spec fn reversed_view(id: &Identity, number: Seq<char>, storno_number: Option<Seq<char>>) -> ResponseView {
    ResponseView { invoice_number: Some(number), storno_number, ..respond_view(id, Outcome::Reversed) }
}

/// `rejected{code, message}` about `id`.
pub open spec fn rejected_view(id: &Identity, code: Seq<char>, message: Seq<char>) -> ResponseView {
    ResponseView { code: Some(code), message: Some(message), ..respond_view(id, Outcome::Rejected) }
}

fn copy_text(o: &Option<String>) -> (r: Option<String>)
    ensures
        r.deep_view() == o.deep_view(),
{
    match o {
        Some(s) => Some(s.clone()),
        None => None,
    }
}

impl Identity {
    /// The identity of the `kind` document of `order`.
    pub fn of_kind(ns: &Namespace, order: &OrderKey, kind: DocumentKind) -> (id: Identity)
        ensures
            id.kind == issued_kind(kind),
            id.external_id@ == spec_kind_id(ns@, order@, issued_kind(kind)),
    {
        Identity { kind: kind.issued(), external_id: ExternalId::for_kind(ns, order, kind) }
    }

    /// The bare answer `outcome` about this document.
    pub fn respond(&self, outcome: Outcome) -> (r: CreateResponse)
        ensures
            r@ == respond_view(self, outcome),
    {
        CreateResponse {
            outcome,
            kind: self.kind,
            external_id: String::from_str(self.external_id.as_str()),
            invoice_number: None,
            net_total: None,
            gross_total: None,
            outstanding: None,
            customer_account_url: None,
            storno_number: None,
            conflict_reason: None,
            existing_number: None,
            code: None,
            message: None,
            warnings: Vec::new(),
        }
    }

    /// `conflict{reason}`.
    pub fn conflict(&self, reason: ConflictReason) -> (r: CreateResponse)
        ensures
            r@ == conflict_view(self, reason),
    {
        let mut r = self.respond(Outcome::Conflict);
        r.conflict_reason = Some(reason);
        r
    }

    /// `conflict{reason, existing_number}`.
    pub fn conflict_about(&self, reason: ConflictReason, number: &str) -> (r: CreateResponse)
        ensures
            r@ == conflict_about_view(self, reason, number@),
    {
        let mut r = self.conflict(reason);
        r.existing_number = Some(String::from_str(number));
        r
    }

    /// `rejected{code, message}`.
    pub fn rejected(&self, code: &str, message: &str) -> (r: CreateResponse)
        ensures
            r@ == rejected_view(self, code@, message@),
    {
        let mut r = self.respond(Outcome::Rejected);
        r.code = Some(String::from_str(code));
        r.message = Some(String::from_str(message));
        r
    }

    /// A response carrying the found document's number and totals.
    pub fn found(&self, outcome: Outcome, found: &FoundDocument) -> (r: CreateResponse)
        ensures
            r@ == found_view(self, outcome, found),
    {
        let mut r = self.respond(outcome);
        r.invoice_number = Some(found.number.clone());
        r.net_total = Some(found.net);
        r.gross_total = Some(found.gross);
        r.outstanding = outstanding(Some(found.gross), &found.payments);
        r
    }

    /// `reversed` for `number`, reversed by `storno_number`.
    pub fn reversed(&self, number: &str, storno_number: Option<String>) -> (r: CreateResponse)
        ensures
            r@ == reversed_view(self, number@, storno_number.deep_view()),
    {
        let mut r = self.respond(Outcome::Reversed);
        r.invoice_number = Some(String::from_str(number));
        r.storno_number = storno_number;
        r
    }

    /// `fault`, about this document of `order`.
    pub fn about(&self, order: &OrderKey, fault: Fault) -> (f: Fault)
        ensures
            f@ == about(fault@, order@, Some(self.kind), self.external_id@),
    {
        fault.about(order, Some(self.kind), &self.external_id)
    }

    /// Step 5: the settled create step as the caller's response. Every
    /// szamlazz.hu answer is data; the faults are rejected credentials and a
    /// leading query answered with another code or `szlahu_down` (nothing
    /// was sent).
    pub fn respond_to(&self, outcome: CreateOutcome) -> (r: Result<CreateResponse, Fault>)
        ensures
            create_answer_view(&r) == spec_respond_to(self, &outcome),
    {
        match outcome {
            CreateOutcome::Issued(issued) => {
                let mut r = self.respond(Outcome::Issued);
                r.invoice_number = Some(issued.number);
                r.net_total = issued.net_total;
                r.gross_total = issued.gross_total;
                r.outstanding = issued.outstanding;
                r.customer_account_url = issued.customer_account_url;
                if issued.notification_delivery_failed {
                    r.warnings.push(Warning::NotificationDeliveryFailed);
                }
                Ok(r)
            },
            CreateOutcome::Found(found) => Ok(self.found(Outcome::Issued, &found)),
            CreateOutcome::Reversed(found) => Ok(self.reversed(found.number.as_str(), None)),
            CreateOutcome::LiveAgain(found) => Ok(
                self.conflict_about(ConflictReason::Live, found.number.as_str()),
            ),
            CreateOutcome::Reconciled(found) => Ok(self.found(Outcome::Reconciled, &found)),
            CreateOutcome::Collision(found) => Ok(
                self.conflict_about(ConflictReason::ExternalIdCollision, found.number.as_str()),
            ),
            CreateOutcome::DuplicateOrderNumber { answer, existing_number } => {
                let mut r = self.conflict(ConflictReason::DuplicateOrderNumber);
                r.code = Some(answer.code);
                r.message = Some(answer.message);
                r.existing_number = existing_number;
                Ok(r)
            },
            CreateOutcome::Rejected(rejection) => Ok(
                self.rejected(rejection.code.as_str(), rejection.message.as_str()),
            ),
            CreateOutcome::CredentialsRejected(answer) => Err(
                AnsweredCode::CredentialsRejected(answer).into_fault(),
            ),
            CreateOutcome::Api(answer) => Err(AnsweredCode::Inconclusive(answer).into_fault()),
            CreateOutcome::Unavailable { message } => Err(
                Fault::szlahu_down_answer(message.as_str()),
            ),
        }
    }
}

/// The view of a create handler's answer.
pub open spec fn create_answer_view(r: &Result<CreateResponse, Fault>) -> Result<ResponseView, FaultView> {
    match r {
        Ok(resp) => Ok(resp@),
        Err(f) => Err(f@),
    }
}

/// Step 5's mapping: the settled create step as the answer about `id`.
pub open spec fn spec_respond_to(id: &Identity, outcome: &CreateOutcome) -> Result<ResponseView, FaultView> {
    match outcome {
        CreateOutcome::Issued(issued) => Ok(
            ResponseView {
                invoice_number: Some(issued.number@),
                net_total: issued.net_total,
                gross_total: issued.gross_total,
                outstanding: issued.outstanding,
                customer_account_url: issued.customer_account_url.deep_view(),
                warnings: if issued.notification_delivery_failed {
                    seq![Warning::NotificationDeliveryFailed]
                } else {
                    Seq::empty()
                },
                ..respond_view(id, Outcome::Issued)
            },
        ),
        CreateOutcome::Found(found) => Ok(found_view(id, Outcome::Issued, &**found)),
        CreateOutcome::Reversed(found) => Ok(reversed_view(id, found.number@, None)),
        CreateOutcome::LiveAgain(found) => Ok(conflict_about_view(id, ConflictReason::Live, found.number@)),
        CreateOutcome::Reconciled(found) => Ok(found_view(id, Outcome::Reconciled, &**found)),
        CreateOutcome::Collision(found) => Ok(
            conflict_about_view(id, ConflictReason::ExternalIdCollision, found.number@),
        ),
        CreateOutcome::DuplicateOrderNumber { answer, existing_number } => Ok(
            ResponseView {
                code: Some(answer.code@),
                message: Some(answer.message@),
                existing_number: existing_number.deep_view(),
                ..conflict_view(id, ConflictReason::DuplicateOrderNumber)
            },
        ),
        CreateOutcome::Rejected(rejection) => Ok(rejected_view(id, rejection.code@, rejection.message@)),
        CreateOutcome::CredentialsRejected(answer) => Err(
            spec_answered_fault(&AnsweredCode::CredentialsRejected(*answer)),
        ),
        CreateOutcome::Api(answer) => Err(spec_answered_fault(&AnsweredCode::Inconclusive(*answer))),
        CreateOutcome::Unavailable { message } => Err(plain(TerminalCode::Unavailable, szlahu_down_text(message@))),
    }
}

/// Step 1's table: the other kinds whose live document of ours refuses a
/// create of `kind`, with the reason.
pub open spec fn spec_exclusive_with(kind: DocumentKind) -> Seq<(DocumentKind, ConflictReason)> {
    match kind {
        DocumentKind::Invoice => seq![
            (DocumentKind::Prepayment, ConflictReason::PrepaidChain),
            (DocumentKind::Final, ConflictReason::PrepaidChain),
        ],
        DocumentKind::Prepayment => seq![
            (DocumentKind::Invoice, ConflictReason::PrepaidChain),
            (DocumentKind::Final, ConflictReason::PrepaidChain),
        ],
        DocumentKind::Proforma => seq![
            (DocumentKind::Invoice, ConflictReason::OrderInvoiced),
            (DocumentKind::Prepayment, ConflictReason::OrderInvoiced),
            (DocumentKind::Final, ConflictReason::OrderInvoiced),
        ],
        DocumentKind::Final => seq![],
    }
}

/// Step 1's table: the other kinds whose live document of ours refuses a
/// create of `kind`, with the reason. The invoice and prepayment chains are
/// exclusive; the final invoice is the prepayment chain's settled end and
/// refuses both; a proforma after any of the three is refused.
pub fn exclusive_with(kind: DocumentKind) -> (table: Vec<(DocumentKind, ConflictReason)>)
    ensures
        table@ == spec_exclusive_with(kind),
{
    let mut table = Vec::new();
    match kind {
        DocumentKind::Invoice => {
            table.push((DocumentKind::Prepayment, ConflictReason::PrepaidChain));
            table.push((DocumentKind::Final, ConflictReason::PrepaidChain));
        },
        DocumentKind::Prepayment => {
            table.push((DocumentKind::Invoice, ConflictReason::PrepaidChain));
            table.push((DocumentKind::Final, ConflictReason::PrepaidChain));
        },
        DocumentKind::Proforma => {
            table.push((DocumentKind::Invoice, ConflictReason::OrderInvoiced));
            table.push((DocumentKind::Prepayment, ConflictReason::OrderInvoiced));
            table.push((DocumentKind::Final, ConflictReason::OrderInvoiced));
        },
        DocumentKind::Final => {},
    }
    proof {
        assert(table@ =~= spec_exclusive_with(kind));
    }
    table
}

/// Step 2's gate: the kinds that convert a proforma and so take
/// `options.proforma`.
pub open spec fn spec_links_proforma(kind: DocumentKind) -> bool {
    kind == DocumentKind::Invoice || kind == DocumentKind::Prepayment
}

/// Step 2's gate: the invoice and the prepayment invoice convert a proforma.
pub fn links_proforma(kind: DocumentKind) -> (b: bool)
    ensures
        b == spec_links_proforma(kind),
{
    match kind {
        DocumentKind::Invoice | DocumentKind::Prepayment => true,
        _ => false,
    }
}

/// What the create may do with the order's proforma (`options.proforma`).
#[derive(Debug, PartialEq, Eq)]
pub enum ProformaLink {
    /// Link the order's live proforma, if any.
    Auto,
    /// `none`: link nothing; a live proforma of ours refuses the create.
    Unlinked,
    /// Link the proforma of this number.
    Number(String),
}

/// The message of `options.proforma` on a kind that converts no proforma.
pub open spec fn options_text(kind: DocumentKind) -> Seq<char> {
    "options.proforma applies to create_invoice and create_prepayment only, not create_"@
        + spec_kind_name(issued_kind(kind))
}

/// Step 0's check of the options: anything but `auto` is refused on a kind
/// that converts no proforma.
pub fn check_options(kind: DocumentKind, link: &ProformaLink) -> (r: Result<(), Fault>)
    ensures
        match r {
            Ok(()) => link is Auto || spec_links_proforma(kind),
            Err(f) => !(link is Auto) && !spec_links_proforma(kind) && f@ == plain(
                TerminalCode::InvalidInput,
                options_text(kind),
            ),
        },
{
    let auto = match link {
        ProformaLink::Auto => true,
        _ => false,
    };
    if !auto && !links_proforma(kind) {
        return Err(
            Fault::invalid_input(
                String::from_str(
                    "options.proforma applies to create_invoice and create_prepayment only, not create_",
                ).concat(crate::identity::kind_name(kind.issued())),
            ),
        );
    }
    Ok(())
}

/// Step 0's check of the buyer: a name that trims to nothing is refused.
pub fn check_buyer_name(name: &str) -> (r: Result<(), Fault>)
    ensures
        match r {
            Ok(()) => trim(name@).len() > 0,
            Err(f) => trim(name@).len() == 0 && f@ == plain(
                TerminalCode::InvalidInput,
                "buyer.name must not be empty"@,
            ),
        },
{
    if trimmed(name).as_str().unicode_len() == 0 {
        return Err(Fault::invalid_input(String::from_str("buyer.name must not be empty")));
    }
    Ok(())
}

/// The references resolved in steps 1–2.
#[derive(Debug, PartialEq, Eq)]
pub struct Refs {
    /// The proforma reference sent in the create (`dijbekeroSzamlaszam`).
    pub proforma: Option<String>,
    /// The prepayment a final invoice settles (`elolegSzamlaszam`).
    pub prepayment: Option<String>,
    /// Numbers known to be ours; the hint ignores them.
    pub our_numbers: Vec<String>,
}

impl Refs {
    /// No references yet.
    pub fn new() -> (r: Refs)
        ensures
            r.proforma is None,
            r.prepayment is None,
            r.our_numbers@.len() == 0,
    {
        Refs { proforma: None, prepayment: None, our_numbers: Vec::new() }
    }
}

/// The fault of an answered ownership read, when it is one.
pub open spec fn ownership_fault(found: &OwnershipOutcome) -> Option<FaultView> {
    match found {
        OwnershipOutcome::Api(a) => Some(spec_answered_fault(&AnsweredCode::Inconclusive(*a))),
        OwnershipOutcome::CredentialsRejected(a) => Some(
            spec_answered_fault(&AnsweredCode::CredentialsRejected(*a)),
        ),
        _ => None,
    }
}

/// Step 1's decision on what the other kind's external id holds: a live
/// document of ours refuses the create with the table's reason; a document
/// that fails validation is `conflict{external_id_collision}`, never
/// "absent" (the newest holder may hide a live document of ours); a
/// reversed document of ours, or nothing, lets the create proceed (`None`).
/// An answered code is a fault.
pub fn decide_exclusivity(found: OwnershipOutcome, reason: ConflictReason, identity: &Identity) -> (r: Result<Option<CreateResponse>, Fault>)
    ensures
        match found {
            OwnershipOutcome::Collision(doc) => r matches Ok(Some(resp)) && resp@
                == conflict_about_view(identity, ConflictReason::ExternalIdCollision, doc.number@),
            OwnershipOutcome::Live(doc) => r matches Ok(Some(resp)) && resp@ == conflict_about_view(
                identity,
                reason,
                doc.number@,
            ),
            OwnershipOutcome::Absent | OwnershipOutcome::Reversed(_) => r matches Ok(None),
            _ => r matches Err(f) && Some(f@) == ownership_fault(&found),
        },
{
    match found {
        OwnershipOutcome::Collision(doc) => Ok(
            Some(identity.conflict_about(ConflictReason::ExternalIdCollision, doc.number.as_str())),
        ),
        OwnershipOutcome::Live(doc) => Ok(Some(identity.conflict_about(reason, doc.number.as_str()))),
        OwnershipOutcome::Absent | OwnershipOutcome::Reversed(_) => Ok(None),
        OwnershipOutcome::Api(answer) => Err(AnsweredCode::Inconclusive(answer).into_fault()),
        OwnershipOutcome::CredentialsRejected(answer) => Err(
            AnsweredCode::CredentialsRejected(answer).into_fault(),
        ),
    }
}

/// Step 1's decision for a final invoice on what `…:prepayment` holds: the
/// live prepayment invoice is recorded in `refs` (the `elolegSzamlaszam`
/// reference, and a number of ours) and the create proceeds; nothing is
/// `conflict{prepayment_missing}`, a reversed one
/// `conflict{prepayment_reversed}`, a collision
/// `conflict{external_id_collision}`. Nothing is recorded on a refusal or a
/// fault.
pub fn decide_prepayment_for_final(found: OwnershipOutcome, identity: &Identity, refs: &mut Refs) -> (r: Result<Option<CreateResponse>, Fault>)
    ensures
        match found {
            OwnershipOutcome::Live(doc) => r matches Ok(None) && final(refs).prepayment.deep_view()
                == Some(doc.number@) && final(refs).our_numbers.deep_view()
                == old(refs).our_numbers.deep_view().push(doc.number@) && final(refs).proforma
                == old(refs).proforma,
            _ => *final(refs) == *old(refs) && match found {
                OwnershipOutcome::Absent => r matches Ok(Some(resp)) && resp@ == conflict_view(
                    identity,
                    ConflictReason::PrepaymentMissing,
                ),
                OwnershipOutcome::Collision(doc) => r matches Ok(Some(resp)) && resp@
                    == conflict_about_view(identity, ConflictReason::ExternalIdCollision, doc.number@),
                OwnershipOutcome::Reversed(doc) => r matches Ok(Some(resp)) && resp@
                    == conflict_about_view(identity, ConflictReason::PrepaymentReversed, doc.number@),
                _ => r matches Err(f) && Some(f@) == ownership_fault(&found),
            },
        },
{
    match found {
        OwnershipOutcome::Absent => Ok(Some(identity.conflict(ConflictReason::PrepaymentMissing))),
        OwnershipOutcome::Collision(doc) => Ok(
            Some(identity.conflict_about(ConflictReason::ExternalIdCollision, doc.number.as_str())),
        ),
        OwnershipOutcome::Reversed(doc) => Ok(
            Some(identity.conflict_about(ConflictReason::PrepaymentReversed, doc.number.as_str())),
        ),
        OwnershipOutcome::Live(doc) => {
            refs.our_numbers.push(doc.number.clone());
            refs.prepayment = Some(doc.number);
            Ok(None)
        },
        OwnershipOutcome::Api(answer) => Err(AnsweredCode::Inconclusive(answer).into_fault()),
        OwnershipOutcome::CredentialsRejected(answer) => Err(
            AnsweredCode::CredentialsRejected(answer).into_fault(),
        ),
    }
}

/// Step 2's decision under `auto` and `none` on what `…:proforma` holds: a
/// live proforma of ours is linked under `auto` (and a `{number}` link, were
/// one passed here) and is `conflict{proforma_live}` under `none`; a
/// reversed one, or nothing, links nothing and the create proceeds; a
/// collision refuses. Nothing is recorded on a refusal or a fault.
pub fn decide_proforma_link(found: OwnershipOutcome, link: &ProformaLink, identity: &Identity, refs: &mut Refs) -> (r: Result<Option<CreateResponse>, Fault>)
    ensures
        match found {
            OwnershipOutcome::Live(doc) => if link is Unlinked {
                r matches Ok(Some(resp)) && resp@ == conflict_about_view(
                    identity,
                    ConflictReason::ProformaLive,
                    doc.number@,
                ) && *final(refs) == *old(refs)
            } else {
                r matches Ok(None) && final(refs).proforma.deep_view() == Some(doc.number@)
                    && final(refs).our_numbers.deep_view() == old(refs).our_numbers.deep_view().push(
                    doc.number@,
                ) && final(refs).prepayment == old(refs).prepayment
            },
            _ => *final(refs) == *old(refs) && match found {
                OwnershipOutcome::Collision(doc) => r matches Ok(Some(resp)) && resp@
                    == conflict_about_view(identity, ConflictReason::ExternalIdCollision, doc.number@),
                OwnershipOutcome::Absent | OwnershipOutcome::Reversed(_) => r matches Ok(None),
                _ => r matches Err(f) && Some(f@) == ownership_fault(&found),
            },
        },
{
    let live = match found {
        OwnershipOutcome::Collision(doc) => {
            return Ok(
                Some(
                    identity.conflict_about(ConflictReason::ExternalIdCollision, doc.number.as_str()),
                ),
            );
        },
        OwnershipOutcome::Live(doc) => doc,
        OwnershipOutcome::Absent | OwnershipOutcome::Reversed(_) => return Ok(None),
        OwnershipOutcome::Api(answer) => return Err(
            AnsweredCode::Inconclusive(answer).into_fault(),
        ),
        OwnershipOutcome::CredentialsRejected(answer) => return Err(
            AnsweredCode::CredentialsRejected(answer).into_fault(),
        ),
    };
    match link {
        ProformaLink::Unlinked => Ok(
            Some(identity.conflict_about(ConflictReason::ProformaLive, live.number.as_str())),
        ),
        _ => {
            refs.our_numbers.push(live.number.clone());
            refs.proforma = Some(live.number);
            Ok(None)
        },
    }
}

/// The message of a document named as the proforma that is none.
pub open spec fn not_a_proforma_text(number: Seq<char>, tipus: Seq<char>) -> Seq<char> {
    number + " is not a proforma (tipus "@ + tipus + ")"@
}

/// Step 2's decision under `{number}` on what the verify of `number` found:
/// this order's number first (another order's, or none, is
/// `conflict{not_managed}`), then the kind (a document of this order that is
/// not a proforma is `invalid_input` naming it, about the caller's request);
/// a proforma of ours is linked as named; code 7 is
/// `conflict{proforma_missing}`, never `not_found`. An answered code is a
/// fault about the document being created. Nothing is recorded on a refusal
/// or a fault.
pub fn decide_proforma_by_number(
    outcome: QueryOutcome,
    number: &str,
    order: &OrderKey,
    identity: &Identity,
    refs: &mut Refs,
) -> (r: Result<Option<CreateResponse>, Fault>)
    ensures
        match outcome {
            QueryOutcome::Found(doc) => if !doc.spec_carries(order@) {
                r matches Ok(Some(resp)) && resp@ == conflict_about_view(
                    identity,
                    ConflictReason::NotManaged,
                    number@,
                ) && *final(refs) == *old(refs)
            } else if doc.document_type@ != "D"@ {
                r matches Err(f) && f@ == plain(
                    TerminalCode::InvalidInput,
                    not_a_proforma_text(number@, doc.document_type@),
                ) && *final(refs) == *old(refs)
            } else {
                r matches Ok(None) && final(refs).proforma.deep_view() == Some(number@)
                    && final(refs).our_numbers.deep_view() == old(refs).our_numbers.deep_view().push(
                    doc.number@,
                ) && final(refs).prepayment == old(refs).prepayment
            },
            QueryOutcome::NotFound => r matches Ok(Some(resp)) && resp@ == conflict_about_view(
                identity,
                ConflictReason::ProformaMissing,
                number@,
            ) && *final(refs) == *old(refs),
            QueryOutcome::Api(a) => r matches Err(f) && f@ == about(
                spec_answered_fault(&AnsweredCode::Inconclusive(a)),
                order@,
                Some(identity.kind),
                identity.external_id@,
            ) && *final(refs) == *old(refs),
            QueryOutcome::CredentialsRejected(a) => r matches Err(f) && f@ == about(
                spec_answered_fault(&AnsweredCode::CredentialsRejected(a)),
                order@,
                Some(identity.kind),
                identity.external_id@,
            ) && *final(refs) == *old(refs),
        },
{
    match outcome {
        QueryOutcome::Api(answer) => Err(
            identity.about(order, AnsweredCode::Inconclusive(answer).into_fault()),
        ),
        QueryOutcome::CredentialsRejected(answer) => Err(
            identity.about(order, AnsweredCode::CredentialsRejected(answer).into_fault()),
        ),
        QueryOutcome::NotFound => Ok(
            Some(identity.conflict_about(ConflictReason::ProformaMissing, number)),
        ),
        QueryOutcome::Found(doc) => {
            if !doc.carries_order(order) {
                return Ok(Some(identity.conflict_about(ConflictReason::NotManaged, number)));
            }
            if !crate::text::text_eq(doc.document_type.as_str(), "D") {
                return Err(
                    Fault::invalid_input(
                        String::from_str(number).concat(" is not a proforma (tipus ").concat(
                            doc.document_type.as_str(),
                        ).concat(")"),
                    ),
                );
            }
            refs.our_numbers.push(doc.number);
            refs.proforma = Some(String::from_str(number));
            Ok(None)
        },
    }
}

/// `correct_invoice`'s decision on the verified base: another order's, or
/// none, is `conflict{not_managed}` (checked first); a reversed one of ours
/// `conflict{base_reversed}`; a live one of ours proceeds (`None`).
pub fn decide_base(found: &FoundDocument, order: &OrderKey, number: &str, identity: &Identity) -> (r: Option<CreateResponse>)
    ensures
        if !found.spec_carries(order@) {
            r matches Some(resp) && resp@ == conflict_about_view(identity, ConflictReason::NotManaged, number@)
        } else if !found.spec_live() {
            r matches Some(resp) && resp@ == conflict_about_view(identity, ConflictReason::BaseReversed, number@)
        } else {
            r is None
        },
{
    if !found.carries_order(order) {
        return Some(identity.conflict_about(ConflictReason::NotManaged, number));
    }
    if !found.is_live() {
        return Some(identity.conflict_about(ConflictReason::BaseReversed, number));
    }
    None
}

/// The message of a create step that ended without a settled outcome.
pub open spec fn create_unknown_text(error: &RunEnd) -> Seq<char> {
    "the create step ended without a confirmed outcome ("@ + decimal(error.code as nat) + "): "@
        + error.message@ + "; retry with a new Idempotency-Key"@
}

/// The fault of a create step whose run ended without a settled outcome:
/// `outcome_unknown` about the document being created, naming how the run
/// ended and its last failure.
pub fn create_outcome_unknown(error: &RunEnd, order: &OrderKey, identity: &Identity) -> (f: Fault)
    ensures
        f@ == about(
            plain(TerminalCode::OutcomeUnknown, create_unknown_text(error)),
            order@,
            Some(identity.kind),
            identity.external_id@,
        ),
{
    let code = decimal_text(error.code as u64);
    identity.about(
        order,
        Fault::outcome_unknown(
            String::from_str("the create step ended without a confirmed outcome (").concat(
                code.as_str(),
            ).concat("): ").concat(error.message.as_str()).concat(
                "; retry with a new Idempotency-Key",
            ),
        ),
    )
}

/// Step 3's decision on what the lookup step found: every case that needs
/// no create is settled as the caller's response (`Break`); what proceeds
/// carries the number of the reversed document the lookup saw
/// (`Continue(Some)`, under `reissue`) or nothing (`Continue(None)`).
pub fn decide_lookup(outcome: LookupOutcome, reissue: bool, identity: &Identity) -> (r: Result<ControlFlow<CreateResponse, Option<String>>, Fault>)
    ensures
        match outcome {
            LookupOutcome::Api(a) => r matches Err(f) && f@ == spec_answered_fault(
                &AnsweredCode::Inconclusive(a),
            ),
            LookupOutcome::CredentialsRejected(a) => r matches Err(f) && f@ == spec_answered_fault(
                &AnsweredCode::CredentialsRejected(a),
            ),
            LookupOutcome::Live(doc) => if reissue {
                r matches Ok(ControlFlow::Break(resp)) && resp@ == conflict_about_view(
                    identity,
                    ConflictReason::Live,
                    doc.number@,
                )
            } else {
                r matches Ok(ControlFlow::Break(resp)) && resp@ == found_view(
                    identity,
                    Outcome::AlreadyIssued,
                    &*doc,
                )
            },
            LookupOutcome::Reversed { document, storno_number } => if reissue {
                r matches Ok(ControlFlow::Continue(Some(n))) && n@ == document.number@
            } else {
                r matches Ok(ControlFlow::Break(resp)) && resp@ == reversed_view(
                    identity,
                    document.number@,
                    storno_number.deep_view(),
                )
            },
            LookupOutcome::Collision(doc) => r matches Ok(ControlFlow::Break(resp)) && resp@
                == conflict_about_view(identity, ConflictReason::ExternalIdCollision, doc.number@),
            LookupOutcome::Foreign(doc) => r matches Ok(ControlFlow::Break(resp)) && resp@
                == conflict_about_view(identity, ConflictReason::Foreign, doc.number@),
            LookupOutcome::Absent => r matches Ok(ControlFlow::Continue(None)),
        },
{
    match outcome {
        LookupOutcome::Api(answer) => Err(AnsweredCode::Inconclusive(answer).into_fault()),
        LookupOutcome::CredentialsRejected(answer) => Err(
            AnsweredCode::CredentialsRejected(answer).into_fault(),
        ),
        LookupOutcome::Live(doc) => {
            if reissue {
                Ok(ControlFlow::Break(identity.conflict_about(ConflictReason::Live, doc.number.as_str())))
            } else {
                Ok(ControlFlow::Break(identity.found(Outcome::AlreadyIssued, &doc)))
            }
        },
        LookupOutcome::Reversed { document, storno_number } => {
            if reissue {
                Ok(ControlFlow::Continue(Some(document.number)))
            } else {
                Ok(ControlFlow::Break(identity.reversed(document.number.as_str(), storno_number)))
            }
        },
        LookupOutcome::Collision(doc) => Ok(
            ControlFlow::Break(
                identity.conflict_about(ConflictReason::ExternalIdCollision, doc.number.as_str()),
            ),
        ),
        LookupOutcome::Foreign(doc) => Ok(
            ControlFlow::Break(identity.conflict_about(ConflictReason::Foreign, doc.number.as_str())),
        ),
        LookupOutcome::Absent => Ok(ControlFlow::Continue(None)),
    }
}

} // verus!
