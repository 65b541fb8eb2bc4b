//! The issuing handlers (`create_proforma`, `create_invoice`,
//! `create_prepayment`, `create_final`) as a state machine: the exclusivity
//! reads of the kinds a live document of refuses this create, a final
//! invoice's prepayment, the proforma link, the build with the resolved
//! references, the lookup step, and the create step, each decided from data.

use vstd::prelude::*;
use vstd::string::*;

use std::ops::ControlFlow;

use crate::create::{
    conflict_about_view, conflict_view, create_answer_view, create_outcome_unknown, create_unknown_text, decide_base,
    decide_exclusivity, decide_lookup, decide_prepayment_for_final, decide_proforma_by_number, decide_proforma_link,
    exclusive_with, found_view, links_proforma, not_a_proforma_text, ownership_fault, reversed_view, spec_exclusive_with,
    spec_links_proforma, spec_respond_to, ConflictReason, CreateResponse, Identity, Outcome, ProformaLink, Refs,
    ResponseView,
};
use crate::fault::{about, plain, spec_answered_fault, AnsweredCode, Fault, FaultView, RunEnd, TerminalCode};
use crate::gateway::{CreateOutcome, LookupOutcome, OwnershipOutcome, QueryOutcome};
use crate::identity::{kind_name, spec_kind_id, spec_kind_name, ExternalId, Namespace, OrderKey};
use crate::kinds::{issued_kind, DocumentKind, IssuedKind};

verus! {

/// Where an issuing execution stands.
#[derive(Clone, Copy, Debug, PartialEq, Eq, Structural)]
pub enum IssuanceStage {
    Start,
    /// Reading the `index`-th kind of the exclusivity table.
    Exclusivity,
    PrepaymentForFinal,
    ProformaLink,
    Building,
    LookingUp,
    Creating,
    Finished,
}

/// What the handler does next.
#[derive(Debug, PartialEq, Eq)]
pub enum IssuanceAction {
    /// Run the ownership read `name` of `external_id` for a `kind` document.
    Lookup { name: String, external_id: ExternalId, kind: IssuedKind },
    /// Run the verify read `name` of document `number`.
    Verify { name: String, number: String },
    /// Build the create with these references.
    Build { proforma: Option<String>, prepayment: Option<String> },
    /// Run the lookup step `name`, the hint ignoring `our_numbers`.
    LookupStep { name: String, our_numbers: Vec<String> },
    /// Run the create step `name`, reissuing over `reversed` when given.
    CreateStep { name: String, reversed: Option<String> },
    /// Answer the handler.
    Finish(Result<CreateResponse, Fault>),
}

/// What the handler does next, mathematically.
pub ghost enum ActionView {
    Lookup { name: Seq<char>, external_id: Seq<char>, kind: IssuedKind },
    Verify { name: Seq<char>, number: Seq<char> },
    Build { proforma: Option<Seq<char>>, prepayment: Option<Seq<char>> },
    LookupStep { name: Seq<char>, our_numbers: Seq<Seq<char>> },
    CreateStep { name: Seq<char>, reversed: Option<Seq<char>> },
    Finish(Result<ResponseView, FaultView>),
}

impl View for IssuanceAction {
    type V = ActionView;

    open spec fn view(&self) -> ActionView {
        match self {
            IssuanceAction::Lookup { name, external_id, kind } => ActionView::Lookup {
                name: name@,
                external_id: external_id@,
                kind: *kind,
            },
            IssuanceAction::Verify { name, number } => ActionView::Verify { name: name@, number: number@ },
            IssuanceAction::Build { proforma, prepayment } => ActionView::Build {
                proforma: proforma.deep_view(),
                prepayment: prepayment.deep_view(),
            },
            IssuanceAction::LookupStep { name, our_numbers } => ActionView::LookupStep {
                name: name@,
                our_numbers: our_numbers.deep_view(),
            },
            IssuanceAction::CreateStep { name, reversed } => ActionView::CreateStep {
                name: name@,
                reversed: reversed.deep_view(),
            },
            IssuanceAction::Finish(r) => ActionView::Finish(create_answer_view(r)),
        }
    }
}

/// The answer `r`, as an action.
pub open spec fn finish_view(r: Result<ResponseView, FaultView>) -> ActionView {
    ActionView::Finish(r)
}

/// The lookup step of a `kind` document.
pub open spec fn lookup_step_view(kind: IssuedKind, our_numbers: Seq<Seq<char>>) -> ActionView {
    ActionView::LookupStep { name: "lookup-"@ + spec_kind_name(kind), our_numbers }
}

/// The create step of a `kind` document.
pub open spec fn create_step_view(kind: IssuedKind, reversed: Option<Seq<char>>) -> ActionView {
    ActionView::CreateStep { name: "create-"@ + spec_kind_name(kind), reversed }
}

/// The message of an event that does not fit the stage.
pub open spec fn out_of_order_text() -> Seq<char> {
    "the issuing received an event out of order"@
}

/// What the handler hands back.
#[derive(Debug, PartialEq, Eq)]
pub enum IssuanceEvent {
    Begin,
    /// An ownership read's outcome, or the fault its run ended with.
    LookedUp(Result<OwnershipOutcome, Fault>),
    /// A verify read's outcome, or the fault its run ended with.
    Verified(Result<QueryOutcome, Fault>),
    /// The build's verdict.
    Built(Result<(), Fault>),
    /// The lookup step's outcome, or the fault its run ended with.
    Found(Result<LookupOutcome, Fault>),
    /// The create step's outcome, or how its run ended without one.
    Created(Result<CreateOutcome, RunEnd>),
}

/// One issuing execution.
#[derive(Debug, PartialEq, Eq)]
pub struct Issuance {
    namespace: Namespace,
    order: OrderKey,
    kind: DocumentKind,
    link: ProformaLink,
    reissue: bool,
    identity: Identity,
    table: Vec<(DocumentKind, ConflictReason)>,
    index: usize,
    refs: Refs,
    stage: IssuanceStage,
    /// Whether the lookup step let the create proceed.
    cleared: bool,
}

impl Issuance {
    /// The stage.
    pub closed spec fn spec_stage(&self) -> IssuanceStage {
        self.stage
    }

    /// Whether the lookup step let the create proceed.
    pub closed spec fn spec_cleared(&self) -> bool {
        self.cleared
    }

    /// How many kinds of the exclusivity table were read and passed.
    pub closed spec fn spec_passed(&self) -> int {
        self.index as int
    }

    /// The exclusivity table of the kind being issued.
    pub closed spec fn spec_table(&self) -> Seq<(DocumentKind, ConflictReason)> {
        self.table@
    }

    /// The document being issued.
    pub closed spec fn spec_identity(&self) -> Identity {
        self.identity
    }

    /// The order.
    pub closed spec fn spec_order(&self) -> Seq<char> {
        self.order@
    }

    /// The kind being issued.
    pub closed spec fn spec_kind(&self) -> DocumentKind {
        self.kind
    }

    /// The proforma link the caller asked for.
    pub closed spec fn spec_link(&self) -> ProformaLink {
        self.link
    }

    /// Whether the create reissues over a reversed document.
    pub closed spec fn spec_reissue(&self) -> bool {
        self.reissue
    }

    /// The references resolved so far.
    pub closed spec fn spec_refs(&self) -> Refs {
        self.refs
    }

    /// `f` about the document being issued.
    pub closed spec fn spec_about(&self, f: FaultView) -> FaultView {
        about(f, self.order@, Some(self.identity.kind), self.identity.external_id@)
    }

    /// The ownership read `name` of the order's `kind` document.
    pub closed spec fn spec_lookup(&self, name: Seq<char>, kind: IssuedKind) -> ActionView {
        ActionView::Lookup { name, external_id: spec_kind_id(self.namespace@, self.order@, kind), kind }
    }

    /// The number the caller named as the proforma, if any.
    pub closed spec fn spec_link_number(&self) -> Seq<char> {
        match self.link {
            ProformaLink::Number(n) => n@,
            _ => Seq::empty(),
        }
    }

    /// The proforma link on the kinds that convert a proforma (the verify of
    /// the named number, or the read of the order's proforma), else the
    /// build with the references resolved so far.
    pub closed spec fn spec_link_action(&self) -> ActionView {
        if spec_links_proforma(self.kind) {
            match self.link {
                ProformaLink::Number(n) => ActionView::Verify { name: "verify-proforma-"@ + n@, number: n@ },
                _ => self.spec_lookup("proforma-link"@, IssuedKind::Proforma),
            }
        } else {
            ActionView::Build { proforma: self.refs.proforma.deep_view(), prepayment: self.refs.prepayment.deep_view() }
        }
    }

    /// After the exclusivity reads: a final invoice's prepayment read, else
    /// the proforma link.
    pub closed spec fn spec_after_table(&self) -> ActionView {
        if self.kind == DocumentKind::Final {
            self.spec_lookup("prepayment-for-final"@, IssuedKind::Prepayment)
        } else {
            self.spec_link_action()
        }
    }

    /// The read of the `index`-th kind of the table, or what follows the
    /// table.
    pub closed spec fn spec_read_action(&self, index: int) -> ActionView {
        if index < self.table@.len() {
            self.spec_lookup(
                "exclusivity-"@ + spec_kind_name(issued_kind(self.table@[index].0)),
                issued_kind(self.table@[index].0),
            )
        } else {
            self.spec_after_table()
        }
    }

    /// What every stage keeps: the table is the kind's; past the exclusivity
    /// reads every kind of the table was read and passed; the create runs
    /// only once the lookup step let it.
    pub closed spec fn wf(&self) -> bool {
        &&& self.table@ == spec_exclusive_with(self.kind)
        &&& self.index <= self.table@.len()
        &&& (self.stage == IssuanceStage::PrepaymentForFinal || self.stage == IssuanceStage::ProformaLink
            || self.stage == IssuanceStage::Building || self.stage == IssuanceStage::LookingUp || self.stage
            == IssuanceStage::Creating) ==> self.index == self.table@.len()
        &&& self.stage == IssuanceStage::Creating ==> self.cleared
        &&& self.stage == IssuanceStage::Start ==> self.index == 0
        &&& self.identity.kind == crate::kinds::issued_kind(self.kind)
    }

    /// The issuing of the `kind` document of `order`, linking a proforma as
    /// `link` says and reissuing over a reversed one when `reissue`. The
    /// request was validated before.
    pub fn new(namespace: Namespace, order: OrderKey, kind: DocumentKind, link: ProformaLink, reissue: bool) -> (i: Issuance)
        ensures
            i.wf(),
            i.spec_stage() == IssuanceStage::Start,
            !i.spec_cleared(),
            i.spec_table() == spec_exclusive_with(kind),
            i.spec_passed() == 0,
            i.spec_order() == order@,
            i.spec_kind() == kind,
            i.spec_link() == link,
            i.spec_reissue() == reissue,
            i.spec_identity().kind == issued_kind(kind),
            i.spec_identity().external_id@ == spec_kind_id(namespace@, order@, issued_kind(kind)),
            i.spec_refs().proforma is None,
            i.spec_refs().prepayment is None,
            i.spec_refs().our_numbers@.len() == 0,
    {
        let identity = Identity::of_kind(&namespace, &order, kind);
        let table = exclusive_with(kind);
        Issuance {
            namespace,
            order,
            kind,
            link,
            reissue,
            identity,
            table,
            index: 0,
            refs: Refs::new(),
            stage: IssuanceStage::Start,
            cleared: false,
        }
    }

    /// The read of the next exclusivity kind, or the step after the table.
    fn next_exclusivity(&mut self) -> (a: IssuanceAction)
        requires
            old(self).wf(),
            old(self).stage == IssuanceStage::Exclusivity || old(self).stage == IssuanceStage::Start,
        ensures
            final(self).wf(),
            *final(self) == (Issuance { stage: final(self).stage, ..*old(self) }),
            a@ == old(self).spec_read_action(old(self).index as int),
            !(a is CreateStep),
            a is Build ==> final(self).index == final(self).table@.len(),
            final(self).stage != IssuanceStage::Creating,
    {
        if self.index < self.table.len() {
            let (other, _) = self.table[self.index];
            self.stage = IssuanceStage::Exclusivity;
            let external_id = ExternalId::for_kind(&self.namespace, &self.order, other);
            IssuanceAction::Lookup {
                name: String::from_str("exclusivity-").concat(kind_name(other.issued())),
                external_id,
                kind: other.issued(),
            }
        } else {
            self.after_exclusivity()
        }
    }

    /// After the exclusivity reads: a final invoice's prepayment, else the
    /// proforma link.
    fn after_exclusivity(&mut self) -> (a: IssuanceAction)
        requires
            old(self).wf(),
            old(self).index == old(self).table@.len(),
            old(self).stage != IssuanceStage::Creating,
        ensures
            final(self).wf(),
            *final(self) == (Issuance { stage: final(self).stage, ..*old(self) }),
            a@ == old(self).spec_after_table(),
            !(a is CreateStep),
            final(self).stage != IssuanceStage::Creating,
    {
        if self.kind == DocumentKind::Final {
            self.stage = IssuanceStage::PrepaymentForFinal;
            IssuanceAction::Lookup {
                name: String::from_str("prepayment-for-final"),
                external_id: ExternalId::for_kind(&self.namespace, &self.order, DocumentKind::Prepayment),
                kind: IssuedKind::Prepayment,
            }
        } else {
            self.proforma_link()
        }
    }

    /// The proforma link on the kinds that convert a proforma, else the
    /// build.
    fn proforma_link(&mut self) -> (a: IssuanceAction)
        requires
            old(self).wf(),
            old(self).index == old(self).table@.len(),
            old(self).stage != IssuanceStage::Creating,
        ensures
            final(self).wf(),
            *final(self) == (Issuance { stage: final(self).stage, ..*old(self) }),
            a@ == old(self).spec_link_action(),
            !(a is CreateStep),
            final(self).stage != IssuanceStage::Creating,
    {
        if links_proforma(self.kind) {
            self.stage = IssuanceStage::ProformaLink;
            match &self.link {
                ProformaLink::Number(number) => IssuanceAction::Verify {
                    name: String::from_str("verify-proforma-").concat(number.as_str()),
                    number: number.clone(),
                },
                _ => IssuanceAction::Lookup {
                    name: String::from_str("proforma-link"),
                    external_id: ExternalId::for_kind(&self.namespace, &self.order, DocumentKind::Proforma),
                    kind: IssuedKind::Proforma,
                },
            }
        } else {
            self.build()
        }
    }

    /// The build with the resolved references.
    fn build(&mut self) -> (a: IssuanceAction)
        requires
            old(self).wf(),
            old(self).index == old(self).table@.len(),
            old(self).stage != IssuanceStage::Creating,
        ensures
            final(self).wf(),
            *final(self) == (Issuance { stage: IssuanceStage::Building, ..*old(self) }),
            a@ == (ActionView::Build {
                proforma: old(self).refs.proforma.deep_view(),
                prepayment: old(self).refs.prepayment.deep_view(),
            }),
            a is Build,
    {
        self.stage = IssuanceStage::Building;
        let proforma = match &self.refs.proforma {
            Some(p) => Some(p.clone()),
            None => None,
        };
        let prepayment = match &self.refs.prepayment {
            Some(p) => Some(p.clone()),
            None => None,
        };
        IssuanceAction::Build { proforma, prepayment }
    }

    /// Finish with `r`.
    fn finish(&mut self, r: Result<CreateResponse, Fault>) -> (a: IssuanceAction)
        requires
            old(self).wf(),
        ensures
            final(self).wf(),
            *final(self) == (Issuance { stage: IssuanceStage::Finished, ..*old(self) }),
            a == IssuanceAction::Finish(r),
    {
        self.stage = IssuanceStage::Finished;
        IssuanceAction::Finish(r)
    }

    /// One step. Every kind of the exclusivity table is read and passed
    /// before anything else; the create step runs only once the lookup step
    /// let it; a refusal or a fault finishes the execution with nothing
    /// sent.
    #[verifier::rlimit(80)]
    #[verifier::spinoff_prover]
    pub fn step(&mut self, event: IssuanceEvent) -> (a: IssuanceAction)
        requires
            old(self).wf(),
        ensures
            final(self).wf(),
            final(self).spec_table() == old(self).spec_table(),
            a is CreateStep ==> final(self).spec_cleared() && final(self).spec_stage() == IssuanceStage::Creating
                && old(self).spec_stage() == IssuanceStage::LookingUp && final(self).spec_passed()
                == final(self).spec_table().len(),
            a is Build ==> final(self).spec_passed() == final(self).spec_table().len(),
            old(self).spec_stage() == IssuanceStage::Finished ==> a is Finish,
            final(self).spec_identity() == old(self).spec_identity(),
            final(self).spec_order() == old(self).spec_order(),
            final(self).spec_kind() == old(self).spec_kind(),
            final(self).spec_link() == old(self).spec_link(),
            final(self).spec_reissue() == old(self).spec_reissue(),
            (old(self).spec_stage() == IssuanceStage::Start && event is Begin) ==> (a@ == old(self).spec_read_action(0)
                && final(self).spec_refs() == old(self).spec_refs()),
            event matches IssuanceEvent::LookedUp(Err(f0)) ==> ((old(self).spec_stage() == IssuanceStage::Exclusivity
                || old(self).spec_stage() == IssuanceStage::PrepaymentForFinal || old(self).spec_stage()
                == IssuanceStage::ProformaLink) ==> a@ == finish_view(Err(f0@))),
            event matches IssuanceEvent::LookedUp(Ok(found)) ==> ((old(self).spec_stage() == IssuanceStage::Exclusivity
                && old(self).spec_passed() < old(self).spec_table().len()) ==> match found {
                OwnershipOutcome::Collision(doc) => a@ == finish_view(
                    Ok(
                        conflict_about_view(
                            &old(self).spec_identity(),
                            ConflictReason::ExternalIdCollision,
                            doc.number@,
                        ),
                    ),
                ),
                OwnershipOutcome::Live(doc) => a@ == finish_view(
                    Ok(
                        conflict_about_view(
                            &old(self).spec_identity(),
                            old(self).spec_table()[old(self).spec_passed()].1,
                            doc.number@,
                        ),
                    ),
                ),
                OwnershipOutcome::Absent | OwnershipOutcome::Reversed(_) => final(self).spec_passed() == old(
                    self).spec_passed() + 1 && a@ == old(self).spec_read_action(old(self).spec_passed() + 1),
                _ => ownership_fault(&found) matches Some(f) && a@ == finish_view(Err(old(self).spec_about(f))),
            }),
            event matches IssuanceEvent::LookedUp(Ok(found)) ==> (old(self).spec_stage()
                == IssuanceStage::PrepaymentForFinal ==> match found {
                OwnershipOutcome::Live(doc) => final(self).spec_refs().prepayment.deep_view() == Some(doc.number@)
                    && final(self).spec_refs().our_numbers.deep_view() == old(
                    self).spec_refs().our_numbers.deep_view().push(doc.number@) && final(self).spec_refs().proforma
                    == old(self).spec_refs().proforma && a@ == final(self).spec_link_action(),
                OwnershipOutcome::Absent => a@ == finish_view(
                    Ok(conflict_view(&old(self).spec_identity(), ConflictReason::PrepaymentMissing)),
                ),
                OwnershipOutcome::Collision(doc) => a@ == finish_view(
                    Ok(
                        conflict_about_view(
                            &old(self).spec_identity(),
                            ConflictReason::ExternalIdCollision,
                            doc.number@,
                        ),
                    ),
                ),
                OwnershipOutcome::Reversed(doc) => a@ == finish_view(
                    Ok(
                        conflict_about_view(
                            &old(self).spec_identity(),
                            ConflictReason::PrepaymentReversed,
                            doc.number@,
                        ),
                    ),
                ),
                _ => ownership_fault(&found) matches Some(f) && a@ == finish_view(Err(old(self).spec_about(f))),
            }),
            event matches IssuanceEvent::LookedUp(Ok(found)) ==> (old(self).spec_stage() == IssuanceStage::ProformaLink
                ==> match found {
                OwnershipOutcome::Live(doc) => if old(self).spec_link() is Unlinked {
                    a@ == finish_view(
                        Ok(
                            conflict_about_view(
                                &old(self).spec_identity(),
                                ConflictReason::ProformaLive,
                                doc.number@,
                            ),
                        ),
                    )
                } else {
                    a@ == (ActionView::Build {
                        proforma: Some(doc.number@),
                        prepayment: old(self).spec_refs().prepayment.deep_view(),
                    }) && final(self).spec_refs().our_numbers.deep_view() == old(
                        self).spec_refs().our_numbers.deep_view().push(doc.number@)
                },
                OwnershipOutcome::Collision(doc) => a@ == finish_view(
                    Ok(
                        conflict_about_view(
                            &old(self).spec_identity(),
                            ConflictReason::ExternalIdCollision,
                            doc.number@,
                        ),
                    ),
                ),
                OwnershipOutcome::Absent | OwnershipOutcome::Reversed(_) => a@ == (ActionView::Build {
                    proforma: old(self).spec_refs().proforma.deep_view(),
                    prepayment: old(self).spec_refs().prepayment.deep_view(),
                }),
                _ => ownership_fault(&found) matches Some(f) && a@ == finish_view(Err(old(self).spec_about(f))),
            }),
            event matches IssuanceEvent::Verified(Err(f0)) ==> (old(self).spec_stage() == IssuanceStage::ProformaLink
                ==> a@ == finish_view(Err(old(self).spec_about(f0@)))),
            event matches IssuanceEvent::Verified(Ok(outcome)) ==> (old(self).spec_stage()
                == IssuanceStage::ProformaLink ==> match outcome {
                QueryOutcome::Found(doc) => if !doc.spec_carries(old(self).spec_order()) {
                    a@ == finish_view(
                        Ok(
                            conflict_about_view(
                                &old(self).spec_identity(),
                                ConflictReason::NotManaged,
                                old(self).spec_link_number(),
                            ),
                        ),
                    )
                } else if doc.document_type@ != "D"@ {
                    a@ == finish_view(
                        Err(
                            plain(
                                TerminalCode::InvalidInput,
                                not_a_proforma_text(old(self).spec_link_number(), doc.document_type@),
                            ),
                        ),
                    )
                } else {
                    a@ == (ActionView::Build {
                        proforma: Some(old(self).spec_link_number()),
                        prepayment: old(self).spec_refs().prepayment.deep_view(),
                    }) && final(self).spec_refs().our_numbers.deep_view() == old(
                        self).spec_refs().our_numbers.deep_view().push(doc.number@)
                },
                QueryOutcome::NotFound => a@ == finish_view(
                    Ok(
                        conflict_about_view(
                            &old(self).spec_identity(),
                            ConflictReason::ProformaMissing,
                            old(self).spec_link_number(),
                        ),
                    ),
                ),
                QueryOutcome::Api(x) => a@ == finish_view(
                    Err(old(self).spec_about(spec_answered_fault(&AnsweredCode::Inconclusive(x)))),
                ),
                QueryOutcome::CredentialsRejected(x) => a@ == finish_view(
                    Err(old(self).spec_about(spec_answered_fault(&AnsweredCode::CredentialsRejected(x)))),
                ),
            }),
            event matches IssuanceEvent::Built(r) ==> (old(self).spec_stage() == IssuanceStage::Building ==> match r {
                Err(f0) => a@ == finish_view(Err(f0@)),
                Ok(()) => a@ == lookup_step_view(
                    old(self).spec_identity().kind,
                    old(self).spec_refs().our_numbers.deep_view(),
                ) && final(self).spec_stage() == IssuanceStage::LookingUp,
            }),
            event matches IssuanceEvent::Found(r) ==> (old(self).spec_stage() == IssuanceStage::LookingUp ==> match r {
                Err(f0) => a@ == finish_view(Err(old(self).spec_about(f0@))),
                Ok(LookupOutcome::Api(x)) => a@ == finish_view(
                    Err(old(self).spec_about(spec_answered_fault(&AnsweredCode::Inconclusive(x)))),
                ),
                Ok(LookupOutcome::CredentialsRejected(x)) => a@ == finish_view(
                    Err(old(self).spec_about(spec_answered_fault(&AnsweredCode::CredentialsRejected(x)))),
                ),
                Ok(LookupOutcome::Live(doc)) => a@ == finish_view(
                    Ok(
                        if old(self).spec_reissue() {
                            conflict_about_view(&old(self).spec_identity(), ConflictReason::Live, doc.number@)
                        } else {
                            found_view(&old(self).spec_identity(), Outcome::AlreadyIssued, &*doc)
                        },
                    ),
                ),
                Ok(LookupOutcome::Reversed { document, storno_number }) => if old(self).spec_reissue() {
                    a@ == create_step_view(old(self).spec_identity().kind, Some(document.number@))
                } else {
                    a@ == finish_view(
                        Ok(
                            reversed_view(
                                &old(self).spec_identity(),
                                document.number@,
                                storno_number.deep_view(),
                            ),
                        ),
                    )
                },
                Ok(LookupOutcome::Collision(doc)) => a@ == finish_view(
                    Ok(
                        conflict_about_view(
                            &old(self).spec_identity(),
                            ConflictReason::ExternalIdCollision,
                            doc.number@,
                        ),
                    ),
                ),
                Ok(LookupOutcome::Foreign(doc)) => a@ == finish_view(
                    Ok(conflict_about_view(&old(self).spec_identity(), ConflictReason::Foreign, doc.number@)),
                ),
                Ok(LookupOutcome::Absent) => a@ == create_step_view(old(self).spec_identity().kind, None),
            }),
            event matches IssuanceEvent::Created(r) ==> (old(self).spec_stage() == IssuanceStage::Creating ==> match r {
                Err(end) => a@ == finish_view(
                    Err(old(self).spec_about(plain(TerminalCode::OutcomeUnknown, create_unknown_text(&end)))),
                ),
                Ok(outcome) => a@ == finish_view(
                    match spec_respond_to(&old(self).spec_identity(), &outcome) {
                        Ok(v) => Ok(v),
                        Err(f) => Err(old(self).spec_about(f)),
                    },
                ),
            }),
    {
        match (self.stage, event) {
            (IssuanceStage::Start, IssuanceEvent::Begin) => self.next_exclusivity(),
            (IssuanceStage::Exclusivity, IssuanceEvent::LookedUp(Err(fault))) => self.finish(Err(fault)),
            (IssuanceStage::Exclusivity, IssuanceEvent::LookedUp(Ok(found))) => {
                if self.index >= self.table.len() {
                    return self.finish(Err(Fault::outcome_unknown(String::from_str(
                        "the issuing received an event out of order",
                    ))));
                }
                let (_, reason) = self.table[self.index];
                match decide_exclusivity(found, reason, &self.identity) {
                    Err(fault) => {
                        let f = self.identity.about(&self.order, fault);
                        self.finish(Err(f))
                    },
                    Ok(Some(response)) => self.finish(Ok(response)),
                    Ok(None) => {
                        self.index = self.index + 1;
                        self.next_exclusivity()
                    },
                }
            },
            (IssuanceStage::PrepaymentForFinal, IssuanceEvent::LookedUp(Err(fault))) => self.finish(Err(fault)),
            (IssuanceStage::PrepaymentForFinal, IssuanceEvent::LookedUp(Ok(found))) => {
                match decide_prepayment_for_final(found, &self.identity, &mut self.refs) {
                    Err(fault) => {
                        let f = self.identity.about(&self.order, fault);
                        self.finish(Err(f))
                    },
                    Ok(Some(response)) => self.finish(Ok(response)),
                    Ok(None) => self.proforma_link(),
                }
            },
            (IssuanceStage::ProformaLink, IssuanceEvent::LookedUp(Err(fault))) => self.finish(Err(fault)),
            (IssuanceStage::ProformaLink, IssuanceEvent::LookedUp(Ok(found))) => {
                match decide_proforma_link(found, &self.link, &self.identity, &mut self.refs) {
                    Err(fault) => {
                        let f = self.identity.about(&self.order, fault);
                        self.finish(Err(f))
                    },
                    Ok(Some(response)) => self.finish(Ok(response)),
                    Ok(None) => self.build(),
                }
            },
            (IssuanceStage::ProformaLink, IssuanceEvent::Verified(Err(fault))) => {
                let f = self.identity.about(&self.order, fault);
                self.finish(Err(f))
            },
            (IssuanceStage::ProformaLink, IssuanceEvent::Verified(Ok(outcome))) => {
                let number = match &self.link {
                    ProformaLink::Number(n) => n.clone(),
                    _ => String::new(),
                };
                match decide_proforma_by_number(outcome, number.as_str(), &self.order, &self.identity, &mut self.refs) {
                    Err(fault) => self.finish(Err(fault)),
                    Ok(Some(response)) => self.finish(Ok(response)),
                    Ok(None) => self.build(),
                }
            },
            (IssuanceStage::Building, IssuanceEvent::Built(Err(fault))) => self.finish(Err(fault)),
            (IssuanceStage::Building, IssuanceEvent::Built(Ok(()))) => {
                self.stage = IssuanceStage::LookingUp;
                let mut our_numbers: Vec<String> = Vec::new();
                let mut i: usize = 0;
                while i < self.refs.our_numbers.len()
                    invariant
                        i <= self.refs.our_numbers@.len(),
                        our_numbers@ == self.refs.our_numbers@.take(i as int),
                    decreases self.refs.our_numbers@.len() - i,
                {
                    our_numbers.push(self.refs.our_numbers[i].clone());
                    i = i + 1;
                    proof {
                        assert(our_numbers@ =~= self.refs.our_numbers@.take(i as int));
                    }
                }
                proof {
                    assert(our_numbers@ =~= self.refs.our_numbers@);
                }
                IssuanceAction::LookupStep {
                    name: String::from_str("lookup-").concat(kind_name(self.identity.kind)),
                    our_numbers,
                }
            },
            (IssuanceStage::LookingUp, IssuanceEvent::Found(Err(fault))) => {
                let f = self.identity.about(&self.order, fault);
                self.finish(Err(f))
            },
            (IssuanceStage::LookingUp, IssuanceEvent::Found(Ok(outcome))) => {
                match decide_lookup(outcome, self.reissue, &self.identity) {
                    Err(fault) => {
                        let f = self.identity.about(&self.order, fault);
                        self.finish(Err(f))
                    },
                    Ok(ControlFlow::Break(response)) => self.finish(Ok(response)),
                    Ok(ControlFlow::Continue(reversed)) => {
                        self.cleared = true;
                        self.stage = IssuanceStage::Creating;
                        IssuanceAction::CreateStep {
                            name: String::from_str("create-").concat(kind_name(self.identity.kind)),
                            reversed,
                        }
                    },
                }
            },
            (IssuanceStage::Creating, IssuanceEvent::Created(Err(error))) => {
                let f = create_outcome_unknown(&error, &self.order, &self.identity);
                self.finish(Err(f))
            },
            (IssuanceStage::Creating, IssuanceEvent::Created(Ok(outcome))) => {
                match self.identity.respond_to(outcome) {
                    Ok(response) => self.finish(Ok(response)),
                    Err(fault) => {
                        let f = self.identity.about(&self.order, fault);
                        self.finish(Err(f))
                    },
                }
            },
            _ => self.finish(Err(Fault::outcome_unknown(String::from_str(
                "the issuing received an event out of order",
            )))),
        }
    }
}

/// Where a `correct_invoice` execution stands.
#[derive(Clone, Copy, Debug, PartialEq, Eq, Structural)]
pub enum CorrectionStage {
    Start,
    VerifyingBase,
    Building,
    LookingUp,
    Creating,
    Finished,
}

/// One `correct_invoice` execution: the verify of the base, the decision
/// on it, the build, the lookup step and the create step.
#[derive(Debug, PartialEq, Eq)]
pub struct Correction {
    order: OrderKey,
    number: String,
    identity: Identity,
    stage: CorrectionStage,
    /// Whether the base was verified to be a live invoice of this order.
    base_ok: bool,
    /// Whether the lookup step let the create proceed.
    cleared: bool,
}

impl Correction {
    /// The stage.
    pub closed spec fn spec_stage(&self) -> CorrectionStage {
        self.stage
    }

    /// Whether the base was verified to be a live invoice of this order.
    pub closed spec fn spec_base_ok(&self) -> bool {
        self.base_ok
    }

    /// Whether the lookup step let the create proceed.
    pub closed spec fn spec_cleared(&self) -> bool {
        self.cleared
    }

    /// The corrective's identity.
    pub closed spec fn spec_identity(&self) -> Identity {
        self.identity
    }

    /// The order.
    pub closed spec fn spec_order(&self) -> Seq<char> {
        self.order@
    }

    /// The invoice being corrected.
    pub closed spec fn spec_number(&self) -> Seq<char> {
        self.number@
    }

    /// `f` about the corrective.
    pub closed spec fn spec_about(&self, f: FaultView) -> FaultView {
        about(f, self.order@, Some(self.identity.kind), self.identity.external_id@)
    }

    /// What every stage keeps: nothing is built before the base is verified,
    /// and the create runs only once the lookup step let it.
    pub closed spec fn wf(&self) -> bool {
        &&& (self.stage == CorrectionStage::Building || self.stage == CorrectionStage::LookingUp || self.stage
            == CorrectionStage::Creating) ==> self.base_ok
        &&& self.stage == CorrectionStage::Creating ==> self.cleared
        &&& self.identity.kind == IssuedKind::Corrective
    }

    /// The corrective `correction_id` of invoice `number` of `order`.
    pub fn new(namespace: &Namespace, order: OrderKey, number: String, correction_id: &str) -> (c: Correction)
        ensures
            c.wf(),
            c.spec_stage() == CorrectionStage::Start,
            c.spec_identity().kind == IssuedKind::Corrective,
            c.spec_identity().external_id@ == crate::identity::spec_corrective_id(namespace@, order@, correction_id@),
            c.spec_order() == order@,
            c.spec_number() == number@,
            !c.spec_base_ok(),
            !c.spec_cleared(),
    {
        let external_id = ExternalId::for_corrective(namespace, &order, correction_id);
        Correction {
            order,
            number,
            identity: Identity { kind: IssuedKind::Corrective, external_id },
            stage: CorrectionStage::Start,
            base_ok: false,
            cleared: false,
        }
    }

    /// Finish with `r`.
    fn finish(&mut self, r: Result<CreateResponse, Fault>) -> (a: IssuanceAction)
        requires
            old(self).wf(),
        ensures
            final(self).wf(),
            *final(self) == (Correction { stage: CorrectionStage::Finished, ..*old(self) }),
            a == IssuanceAction::Finish(r),
    {
        self.stage = CorrectionStage::Finished;
        IssuanceAction::Finish(r)
    }

    /// One step: the same actions and events as an issuing. Nothing is built
    /// or sent unless the base is a live invoice of this order; the create
    /// step runs only once the lookup step let it.
    #[verifier::rlimit(80)]
    #[verifier::spinoff_prover]
    pub fn step(&mut self, event: IssuanceEvent) -> (a: IssuanceAction)
        requires
            old(self).wf(),
        ensures
            final(self).wf(),
            a is Build ==> final(self).spec_base_ok(),
            a is CreateStep ==> final(self).spec_base_ok() && final(self).spec_cleared()
                && old(self).spec_stage() == CorrectionStage::LookingUp,
            old(self).spec_stage() == CorrectionStage::Finished ==> a is Finish,
            final(self).spec_identity() == old(self).spec_identity(),
            final(self).spec_order() == old(self).spec_order(),
            final(self).spec_number() == old(self).spec_number(),
            (old(self).spec_stage() == CorrectionStage::Start && event is Begin) ==> (a@ == (ActionView::Verify {
                name: "verify-base-"@ + old(self).spec_number(),
                number: old(self).spec_number(),
            }) && final(self).spec_stage() == CorrectionStage::VerifyingBase),
            event matches IssuanceEvent::Verified(r) ==> (old(self).spec_stage() == CorrectionStage::VerifyingBase
                ==> match r {
                Err(f0) => a@ == finish_view(Err(old(self).spec_about(f0@))),
                Ok(QueryOutcome::Found(found)) => if !found.spec_carries(old(self).spec_order()) {
                    a@ == finish_view(
                        Ok(
                            conflict_about_view(
                                &old(self).spec_identity(),
                                ConflictReason::NotManaged,
                                old(self).spec_number(),
                            ),
                        ),
                    )
                } else if !found.spec_live() {
                    a@ == finish_view(
                        Ok(
                            conflict_about_view(
                                &old(self).spec_identity(),
                                ConflictReason::BaseReversed,
                                old(self).spec_number(),
                            ),
                        ),
                    )
                } else {
                    a@ == (ActionView::Build { proforma: None, prepayment: None }) && final(self).spec_stage()
                        == CorrectionStage::Building
                },
                Ok(QueryOutcome::NotFound) => a@ == finish_view(
                    Err(
                        old(self).spec_about(
                            plain(
                                TerminalCode::NotFound,
                                "invoice "@ + old(self).spec_number() + " is not known to szamlazz.hu (code 7)"@,
                            ),
                        ),
                    ),
                ),
                Ok(QueryOutcome::Api(x)) => a@ == finish_view(
                    Err(old(self).spec_about(spec_answered_fault(&AnsweredCode::Inconclusive(x)))),
                ),
                Ok(QueryOutcome::CredentialsRejected(x)) => a@ == finish_view(
                    Err(old(self).spec_about(spec_answered_fault(&AnsweredCode::CredentialsRejected(x)))),
                ),
            }),
            event matches IssuanceEvent::Built(r) ==> (old(self).spec_stage() == CorrectionStage::Building ==> match r {
                Err(f0) => a@ == finish_view(Err(f0@)),
                Ok(()) => a@ == lookup_step_view(IssuedKind::Corrective, Seq::empty()) && final(self).spec_stage()
                    == CorrectionStage::LookingUp,
            }),
            event matches IssuanceEvent::Found(r) ==> (old(self).spec_stage() == CorrectionStage::LookingUp ==> match r {
                Err(f0) => a@ == finish_view(Err(old(self).spec_about(f0@))),
                Ok(LookupOutcome::Api(x)) => a@ == finish_view(
                    Err(old(self).spec_about(spec_answered_fault(&AnsweredCode::Inconclusive(x)))),
                ),
                Ok(LookupOutcome::CredentialsRejected(x)) => a@ == finish_view(
                    Err(old(self).spec_about(spec_answered_fault(&AnsweredCode::CredentialsRejected(x)))),
                ),
                Ok(LookupOutcome::Live(doc)) => a@ == finish_view(
                    Ok(found_view(&old(self).spec_identity(), Outcome::AlreadyIssued, &*doc)),
                ),
                Ok(LookupOutcome::Reversed { document, storno_number }) => a@ == finish_view(
                    Ok(reversed_view(&old(self).spec_identity(), document.number@, storno_number.deep_view())),
                ),
                Ok(LookupOutcome::Collision(doc)) => a@ == finish_view(
                    Ok(
                        conflict_about_view(
                            &old(self).spec_identity(),
                            ConflictReason::ExternalIdCollision,
                            doc.number@,
                        ),
                    ),
                ),
                Ok(LookupOutcome::Foreign(doc)) => a@ == finish_view(
                    Ok(conflict_about_view(&old(self).spec_identity(), ConflictReason::Foreign, doc.number@)),
                ),
                Ok(LookupOutcome::Absent) => a@ == create_step_view(IssuedKind::Corrective, None),
            }),
            event matches IssuanceEvent::Created(r) ==> (old(self).spec_stage() == CorrectionStage::Creating ==> match r {
                Err(end) => a@ == finish_view(
                    Err(old(self).spec_about(plain(TerminalCode::OutcomeUnknown, create_unknown_text(&end)))),
                ),
                Ok(outcome) => a@ == finish_view(
                    match spec_respond_to(&old(self).spec_identity(), &outcome) {
                        Ok(v) => Ok(v),
                        Err(f) => Err(old(self).spec_about(f)),
                    },
                ),
            }),
    {
        match (self.stage, event) {
            (CorrectionStage::Start, IssuanceEvent::Begin) => {
                self.stage = CorrectionStage::VerifyingBase;
                IssuanceAction::Verify {
                    name: String::from_str("verify-base-").concat(self.number.as_str()),
                    number: self.number.clone(),
                }
            },
            (CorrectionStage::VerifyingBase, IssuanceEvent::Verified(Err(fault))) => {
                let f = self.identity.about(&self.order, fault);
                self.finish(Err(f))
            },
            (CorrectionStage::VerifyingBase, IssuanceEvent::Verified(Ok(outcome))) => {
                match crate::fault::verified_document(outcome, self.number.as_str()) {
                    Err(fault) => {
                        let f = self.identity.about(&self.order, fault);
                        self.finish(Err(f))
                    },
                    Ok(found) => match decide_base(&found, &self.order, self.number.as_str(), &self.identity) {
                        Some(response) => self.finish(Ok(response)),
                        None => {
                            self.base_ok = true;
                            self.stage = CorrectionStage::Building;
                            IssuanceAction::Build { proforma: None, prepayment: None }
                        },
                    },
                }
            },
            (CorrectionStage::Building, IssuanceEvent::Built(Err(fault))) => self.finish(Err(fault)),
            (CorrectionStage::Building, IssuanceEvent::Built(Ok(()))) => {
                self.stage = CorrectionStage::LookingUp;
                let our_numbers: Vec<String> = Vec::new();
                proof {
                    assert(our_numbers.deep_view() =~= Seq::<Seq<char>>::empty());
                }
                IssuanceAction::LookupStep {
                    name: String::from_str("lookup-").concat(kind_name(IssuedKind::Corrective)),
                    our_numbers,
                }
            },
            (CorrectionStage::LookingUp, IssuanceEvent::Found(Err(fault))) => {
                let f = self.identity.about(&self.order, fault);
                self.finish(Err(f))
            },
            (CorrectionStage::LookingUp, IssuanceEvent::Found(Ok(outcome))) => {
                match decide_lookup(outcome, false, &self.identity) {
                    Err(fault) => {
                        let f = self.identity.about(&self.order, fault);
                        self.finish(Err(f))
                    },
                    Ok(ControlFlow::Break(response)) => self.finish(Ok(response)),
                    Ok(ControlFlow::Continue(reversed)) => {
                        self.cleared = true;
                        self.stage = CorrectionStage::Creating;
                        IssuanceAction::CreateStep {
                            name: String::from_str("create-").concat(kind_name(IssuedKind::Corrective)),
                            reversed,
                        }
                    },
                }
            },
            (CorrectionStage::Creating, IssuanceEvent::Created(Err(error))) => {
                let f = create_outcome_unknown(&error, &self.order, &self.identity);
                self.finish(Err(f))
            },
            (CorrectionStage::Creating, IssuanceEvent::Created(Ok(outcome))) => {
                match self.identity.respond_to(outcome) {
                    Ok(response) => self.finish(Ok(response)),
                    Err(fault) => {
                        let f = self.identity.about(&self.order, fault);
                        self.finish(Err(f))
                    },
                }
            },
            _ => self.finish(Err(Fault::outcome_unknown(String::from_str(
                "the correction received an event out of order",
            )))),
        }
    }
}

} // verus!
