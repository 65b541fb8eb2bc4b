//! `get`'s decisions: the projection of a document of ours, the fold of the
//! four reads of the order's external ids, and the derivation of a proforma
//! consumed by the invoice or the prepayment invoice that converted it.

use vstd::prelude::*;
use vstd::string::*;

use crate::amount::Amount;
use crate::fault::{spec_answered_fault, AnsweredCode, Fault, FaultView};
use crate::gateway::{FoundDocument, OwnershipOutcome};
use crate::identity::{spec_kind_id, spec_kind_name, ExternalId, Namespace, OrderKey};
use crate::kinds::{issued_kind, DocumentKind};

verus! {

/// The state of one slot's document.
#[derive(Debug, PartialEq, Eq)]
pub enum DocumentState {
    Live,
    Reversed { storno_number: Option<String> },
    /// szamlazz.hu no longer returns the proforma: the document `by` converted
    /// it.
    Consumed { by: String },
}

/// A slot's state, mathematically.
pub ghost enum StateView {
    Live,
    Reversed { storno_number: Option<Seq<char>> },
    Consumed { by: Seq<char> },
}

impl View for DocumentState {
    type V = StateView;

    open spec fn view(&self) -> StateView {
        match self {
            DocumentState::Live => StateView::Live,
            DocumentState::Reversed { storno_number } => StateView::Reversed {
                storno_number: storno_number.deep_view(),
            },
            DocumentState::Consumed { by } => StateView::Consumed { by: by@ },
        }
    }
}

/// `get`'s view of one document of ours.
#[derive(Debug, PartialEq, Eq)]
pub struct DocumentStatus {
    pub number: String,
    pub state: DocumentState,
    pub gross: Option<Amount>,
    pub net: Option<Amount>,
    pub credit_entries: Vec<Amount>,
    pub referenced_proforma: Option<String>,
    pub e_invoice: Option<bool>,
}

/// A slot, mathematically.
pub ghost struct StatusView {
    pub number: Seq<char>,
    pub state: StateView,
    pub gross: Option<Amount>,
    pub net: Option<Amount>,
    pub credit_entries: Seq<Amount>,
    pub referenced_proforma: Option<Seq<char>>,
    pub e_invoice: Option<bool>,
}

impl View for DocumentStatus {
    type V = StatusView;

    open spec fn view(&self) -> StatusView {
        StatusView {
            number: self.number@,
            state: self.state@,
            gross: self.gross,
            net: self.net,
            credit_entries: self.credit_entries@,
            referenced_proforma: self.referenced_proforma.deep_view(),
            e_invoice: self.e_invoice,
        }
    }
}

/// A slot holding `number` in `state`, with nothing else known.
pub open spec fn bare_status(number: Seq<char>, state: StateView) -> StatusView {
    StatusView {
        number,
        state,
        gross: None,
        net: None,
        credit_entries: Seq::empty(),
        referenced_proforma: None,
        e_invoice: None,
    }
}

impl DocumentStatus {
    /// A slot holding `number` in `state`.
    pub fn new(number: &str, state: DocumentState) -> (s: DocumentStatus)
        ensures
            s@ == bare_status(number@, state@),
    {
        DocumentStatus {
            number: String::from_str(number),
            state,
            gross: None,
            net: None,
            credit_entries: Vec::new(),
            referenced_proforma: None,
            e_invoice: None,
        }
    }
}

/// The order's four slots.
#[derive(Debug, PartialEq, Eq)]
pub struct OrderStatus {
    pub proforma: Option<DocumentStatus>,
    pub invoice: Option<DocumentStatus>,
    pub prepayment: Option<DocumentStatus>,
    pub final_invoice: Option<DocumentStatus>,
}

/// The slot's view.
pub open spec fn slot(s: Option<DocumentStatus>) -> Option<StatusView> {
    match s {
        Some(d) => Some(d@),
        None => None,
    }
}

/// The order's slots, mathematically.
pub ghost struct OrderView {
    pub proforma: Option<StatusView>,
    pub invoice: Option<StatusView>,
    pub prepayment: Option<StatusView>,
    pub final_invoice: Option<StatusView>,
}

impl View for OrderStatus {
    type V = OrderView;

    open spec fn view(&self) -> OrderView {
        OrderView {
            proforma: slot(self.proforma),
            invoice: slot(self.invoice),
            prepayment: slot(self.prepayment),
            final_invoice: slot(self.final_invoice),
        }
    }
}

/// No slot filled.
pub open spec fn empty_order() -> OrderView {
    OrderView { proforma: None, invoice: None, prepayment: None, final_invoice: None }
}

/// `o` with the `kind` slot set to `s`.
pub open spec fn set_slot(o: OrderView, kind: DocumentKind, s: Option<StatusView>) -> OrderView {
    match kind {
        DocumentKind::Proforma => OrderView { proforma: s, ..o },
        DocumentKind::Invoice => OrderView { invoice: s, ..o },
        DocumentKind::Prepayment => OrderView { prepayment: s, ..o },
        DocumentKind::Final => OrderView { final_invoice: s, ..o },
    }
}

impl OrderStatus {
    /// No slot filled.
    pub fn empty() -> (s: OrderStatus)
        ensures
            s@ == empty_order(),
    {
        OrderStatus { proforma: None, invoice: None, prepayment: None, final_invoice: None }
    }

    /// Fills the `kind` slot.
    pub fn set(&mut self, kind: DocumentKind, status: Option<DocumentStatus>)
        ensures
            final(self)@ == set_slot(old(self)@, kind, slot(status)),
    {
        match kind {
            DocumentKind::Proforma => self.proforma = status,
            DocumentKind::Invoice => self.invoice = status,
            DocumentKind::Prepayment => self.prepayment = status,
            DocumentKind::Final => self.final_invoice = status,
        }
    }
}

/// `get`'s projection of a document of ours.
pub open spec fn spec_document_status(found: &FoundDocument) -> StatusView {
    StatusView {
        number: found.number@,
        state: if found.spec_live() {
            StateView::Live
        } else {
            StateView::Reversed { storno_number: None }
        },
        gross: Some(found.gross),
        net: Some(found.net),
        credit_entries: found.payments@,
        referenced_proforma: found.referenced_proforma.deep_view(),
        e_invoice: found.e_invoice,
    }
}

/// `get`'s projection of a document of ours: its number, `live` or
/// `reversed` (the storno number is not looked up here), the totals, the
/// credit entries in szamlazz.hu's order, the proforma it references, and
/// its appearance.
pub fn document_status(found: &FoundDocument) -> (s: DocumentStatus)
    ensures
        s@ == spec_document_status(found),
{
    let state = if found.is_live() {
        DocumentState::Live
    } else {
        DocumentState::Reversed { storno_number: None }
    };
    let mut s = DocumentStatus::new(found.number.as_str(), state);
    s.gross = Some(found.gross);
    s.net = Some(found.net);
    s.credit_entries = found.payments.clone();
    s.referenced_proforma = match &found.referenced_proforma {
        Some(p) => Some(p.clone()),
        None => None,
    };
    s.e_invoice = found.e_invoice;
    proof {
        assert(s.credit_entries@ =~= found.payments@);
    }
    s
}

/// What one read contributes to the status.
pub open spec fn spec_observe(o: OrderView, kind: DocumentKind, looked_up: &OwnershipOutcome) -> Result<OrderView, FaultView> {
    match looked_up {
        OwnershipOutcome::Live(doc) | OwnershipOutcome::Reversed(doc) => Ok(
            set_slot(o, kind, Some(spec_document_status(&**doc))),
        ),
        OwnershipOutcome::Absent | OwnershipOutcome::Collision(_) => Ok(o),
        OwnershipOutcome::Api(a) => Err(spec_answered_fault(&AnsweredCode::Inconclusive(*a))),
        OwnershipOutcome::CredentialsRejected(a) => Err(
            spec_answered_fault(&AnsweredCode::CredentialsRejected(*a)),
        ),
    }
}

/// Classifies one read before the next one runs: a document of ours, live
/// or reversed, fills its slot; nothing and a collision leave it empty; an
/// answered code is a fault.
pub fn record_observation(status: &mut OrderStatus, kind: DocumentKind, looked_up: OwnershipOutcome) -> (r: Result<(), Fault>)
    ensures
        match spec_observe(old(status)@, kind, &looked_up) {
            Ok(o) => r is Ok && final(status)@ == o,
            Err(fv) => r matches Err(f) && f@ == fv && final(status)@ == old(status)@,
        },
{
    match looked_up {
        OwnershipOutcome::Live(doc) | OwnershipOutcome::Reversed(doc) => {
            status.set(kind, Some(document_status(&doc)));
            Ok(())
        },
        OwnershipOutcome::Absent | OwnershipOutcome::Collision(_) => Ok(()),
        OwnershipOutcome::Api(answer) => Err(AnsweredCode::Inconclusive(answer).into_fault()),
        OwnershipOutcome::CredentialsRejected(answer) => Err(
            AnsweredCode::CredentialsRejected(answer).into_fault(),
        ),
    }
}

/// The proforma a status derives when szamlazz.hu no longer returns one:
/// consumed by the invoice when it references one, else by the prepayment
/// invoice.
pub open spec fn spec_with_consumed(o: OrderView) -> OrderView {
    if o.proforma is None {
        match consumer_of(o.invoice) {
            Some(p) => OrderView { proforma: Some(p), ..o },
            None => match consumer_of(o.prepayment) {
                Some(p) => OrderView { proforma: Some(p), ..o },
                None => o,
            },
        }
    } else {
        o
    }
}

/// The consumed proforma slot `consumer` derives, when it references one.
pub open spec fn consumer_of(consumer: Option<StatusView>) -> Option<StatusView> {
    match consumer {
        Some(c) => match c.referenced_proforma {
            Some(p) => Some(bare_status(p, StateView::Consumed { by: c.number })),
            None => None,
        },
        None => None,
    }
}

/// The consumed slot for `consumer`'s referenced proforma, when it has one.
fn consumed_by(consumer: &Option<DocumentStatus>) -> (r: Option<DocumentStatus>)
    ensures
        slot(r) == consumer_of(slot(*consumer)),
{
    match consumer {
        Some(c) => match &c.referenced_proforma {
            Some(p) => Some(
                DocumentStatus::new(p.as_str(), DocumentState::Consumed { by: c.number.clone() }),
            ),
            None => None,
        },
        None => None,
    }
}

/// A proforma szamlazz.hu no longer returns while the invoice or the
/// prepayment carries `hivdijbekszam` was consumed by that document, the
/// invoice's reference before the prepayment's.
pub fn with_consumed_proforma(status: OrderStatus) -> (s: OrderStatus)
    ensures
        s@ == spec_with_consumed(status@),
{
    let mut status = status;
    if status.proforma.is_none() {
        let by_invoice = consumed_by(&status.invoice);
        if by_invoice.is_some() {
            status.proforma = by_invoice;
        } else {
            status.proforma = consumed_by(&status.prepayment);
        }
    }
    status
}

/// The fold of `reads` (kind, read) in order, stopping at the first fault.
pub open spec fn spec_fold(reads: Seq<(DocumentKind, OwnershipOutcome)>, o: OrderView) -> Result<OrderView, FaultView>
    decreases reads.len(),
{
    if reads.len() == 0 {
        Ok(o)
    } else {
        match spec_observe(o, reads[0].0, &reads[0].1) {
            Ok(next) => spec_fold(reads.drop_first(), next),
            Err(f) => Err(f),
        }
    }
}

/// `get`'s status folded from the reads of the order's external ids, in
/// order: the first answered code is the fault; otherwise the slots, with a
/// consumed proforma derived.
pub fn order_status(reads: Vec<(DocumentKind, OwnershipOutcome)>) -> (r: Result<OrderStatus, Fault>)
    ensures
        match spec_fold(reads@, empty_order()) {
            Ok(o) => r matches Ok(s) && s@ == spec_with_consumed(o),
            Err(fv) => r matches Err(f) && f@ == fv,
        },
{
    let mut status = OrderStatus::empty();
    let ghost all = reads@;
    let mut pending = reads;
    while pending.len() > 0
        invariant
            all == reads@,
            spec_fold(all, empty_order()) == spec_fold(pending@, status@),
        decreases pending@.len(),
    {
        let ghost before = pending@;
        let (kind, looked_up) = pending.remove(0);
        proof {
            assert(before.drop_first() =~= pending@);
            assert(before[0] == (kind, looked_up));
        }
        let ghost o = status@;
        match record_observation(&mut status, kind, looked_up) {
            Ok(()) => {},
            Err(f) => {
                assert(spec_fold(before, o) == Err::<OrderView, FaultView>(f@));
                return Err(f);
            },
        }
    }
    Ok(with_consumed_proforma(status))
}

/// The kinds `get` reads, in its order.
pub open spec fn read_order() -> Seq<DocumentKind> {
    seq![DocumentKind::Proforma, DocumentKind::Invoice, DocumentKind::Prepayment, DocumentKind::Final]
}

/// The `index`-th kind `get` reads.
fn kind_at(index: usize) -> (k: DocumentKind)
    requires
        index < 4,
    ensures
        k == read_order()[index as int],
{
    if index == 0 {
        DocumentKind::Proforma
    } else if index == 1 {
        DocumentKind::Invoice
    } else if index == 2 {
        DocumentKind::Prepayment
    } else {
        DocumentKind::Final
    }
}

/// What `get` does next.
#[derive(Debug, PartialEq, Eq)]
pub enum StatusAction {
    /// Run the ownership read `name` of `external_id` for a `kind` document.
    Lookup { name: String, external_id: ExternalId, kind: DocumentKind },
    /// Answer the handler.
    Finish(Result<OrderStatus, Fault>),
}

/// One `get` execution: the four external ids read one after another, each
/// observation folded as it comes, the consumed proforma derived at the end.
#[derive(Debug, PartialEq, Eq)]
pub struct StatusRead {
    namespace: Namespace,
    order: OrderKey,
    index: usize,
    status: OrderStatus,
    finished: bool,
}

impl StatusRead {
    /// How many kinds were read and folded.
    pub closed spec fn spec_read(&self) -> int {
        self.index as int
    }

    /// Whether `get` has answered.
    pub closed spec fn spec_finished(&self) -> bool {
        self.finished
    }

    /// The status folded so far.
    pub closed spec fn spec_status(&self) -> OrderView {
        self.status@
    }

    /// The namespace of the external ids read.
    pub closed spec fn spec_namespace(&self) -> Seq<char> {
        self.namespace@
    }

    /// The order whose documents are read.
    pub closed spec fn spec_order(&self) -> Seq<char> {
        self.order@
    }

    /// The reads made so far stay within the four kinds.
    pub closed spec fn wf(&self) -> bool {
        self.index <= 4
    }

    /// The reads of `order`'s external ids under `namespace`.
    pub fn new(namespace: Namespace, order: OrderKey) -> (r: StatusRead)
        ensures
            r.wf(),
            r.spec_read() == 0,
            !r.spec_finished(),
            r.spec_status() == empty_order(),
            r.spec_namespace() == namespace@,
            r.spec_order() == order@,
    {
        StatusRead { namespace, order, index: 0, status: OrderStatus::empty(), finished: false }
    }

    /// The read of the next kind, or the answer after the fourth.
    fn next(&mut self) -> (a: StatusAction)
        requires
            old(self).wf(),
            !old(self).finished,
        ensures
            final(self).wf(),
            final(self).index == old(self).index,
            final(self).namespace == old(self).namespace,
            final(self).order == old(self).order,
            a matches StatusAction::Lookup { name, external_id, kind } ==> name@ == "lookup-"@ + spec_kind_name(
                issued_kind(kind),
            ) && external_id@ == spec_kind_id(old(self).namespace@, old(self).order@, issued_kind(kind)),
            old(self).index < 4 ==> final(self).status == old(self).status,
            old(self).index < 4 ==> (a matches StatusAction::Lookup { kind, .. } && kind == read_order()[old(
                self,
            ).index as int] && !final(self).finished),
            old(self).index == 4 ==> (a matches StatusAction::Finish(Ok(s)) && s@ == spec_with_consumed(old(
                self,
            ).status@) && final(self).finished),
    {
        if self.index < 4 {
            let kind = kind_at(self.index);
            let external_id = ExternalId::for_kind(&self.namespace, &self.order, kind);
            StatusAction::Lookup {
                name: String::from_str("lookup-").concat(crate::identity::kind_name(kind.issued())),
                external_id,
                kind,
            }
        } else {
            self.finished = true;
            let mut status = OrderStatus::empty();
            std::mem::swap(&mut status, &mut self.status);
            StatusAction::Finish(Ok(with_consumed_proforma(status)))
        }
    }

    /// Start the reads.
    pub fn begin(&mut self) -> (a: StatusAction)
        requires
            old(self).wf(),
            old(self).spec_read() == 0,
            !old(self).spec_finished(),
        ensures
            final(self).wf(),
            final(self).spec_read() == 0,
            final(self).spec_namespace() == old(self).spec_namespace(),
            final(self).spec_order() == old(self).spec_order(),
            a matches StatusAction::Lookup { name, external_id, kind } && kind == read_order()[0] && name@
                == "lookup-"@ + spec_kind_name(issued_kind(kind)) && external_id@ == spec_kind_id(
                old(self).spec_namespace(),
                old(self).spec_order(),
                issued_kind(kind),
            ),
    {
        self.next()
    }

    /// The read of the current kind answered `looked_up` (or ended in a
    /// fault): fold it and go on. An answered code stops the reads at once.
    pub fn observed(&mut self, looked_up: Result<OwnershipOutcome, Fault>) -> (a: StatusAction)
        requires
            old(self).wf(),
        ensures
            final(self).wf(),
            final(self).spec_read() <= 4,
            final(self).spec_namespace() == old(self).spec_namespace(),
            final(self).spec_order() == old(self).spec_order(),
            old(self).spec_finished() ==> a is Finish,
            a matches StatusAction::Lookup { name, external_id, kind } ==> kind == read_order()[final(self).spec_read()] && name@ == "lookup-"@ + spec_kind_name(issued_kind(kind)) && external_id@
                == spec_kind_id(old(self).spec_namespace(), old(self).spec_order(), issued_kind(kind)),
            looked_up matches Err(f0) ==> ((!old(self).spec_finished() && old(self).spec_read() < 4) ==> (a matches StatusAction::Finish(
                Err(f),
            ) && f@ == f0@)),
            (!old(self).spec_finished() && old(self).spec_read() < 4 && looked_up is Ok) ==> match spec_observe(
                old(self).spec_status(),
                read_order()[old(self).spec_read()],
                &looked_up->Ok_0,
            ) {
                Ok(o) => final(self).spec_read() == old(self).spec_read() + 1 && (final(self).spec_read() < 4
                    ==> (final(self).spec_status() == o && a is Lookup)) && (final(self).spec_read() == 4 ==> (a matches StatusAction::Finish(
                    Ok(s),
                ) && s@ == spec_with_consumed(o))),
                Err(fv) => a matches StatusAction::Finish(Err(f)) && f@ == fv,
            },
    {
        if self.finished || self.index >= 4 {
            self.finished = true;
            return StatusAction::Finish(Err(Fault::unavailable(String::from_str(
                "the status read received an event out of order",
            ))));
        }
        match looked_up {
            Err(fault) => {
                self.finished = true;
                StatusAction::Finish(Err(fault))
            },
            Ok(outcome) => {
                let kind = kind_at(self.index);
                match record_observation(&mut self.status, kind, outcome) {
                    Err(fault) => {
                        self.finished = true;
                        StatusAction::Finish(Err(fault))
                    },
                    Ok(()) => {
                        self.index = self.index + 1;
                        self.next()
                    },
                }
            },
        }
    }
}

} // verus!
