//! What holds of the library across its functions: each law is stated over
//! the spec functions its functions' contracts use, and proved.

use vstd::prelude::*;

use crate::agent::{digits_at, is_digit, spec_taxpayer_prefix};
use crate::identity::{spec_kind_id, spec_kind_name, spec_storno_id};
use crate::kinds::IssuedKind;
use crate::prologue::{fetch_fault_text, resolver_text, FetchFailure, ResolverUnavailable};
use crate::recovery::{spec_valid_marker, FieldVerdicts, UnresolvedWrite};
use crate::szamla_agent::{StornoAction, StornoRun};
use crate::write::{OrderWrite, WriteAction};
use crate::agent::{projects, QueryResponse};
use crate::create::{spec_respond_to, ConflictReason, Identity, Outcome};
use crate::delete::spec_target_changed;
use crate::gateway::{CreateOutcome, FoundDocument, IssuedDocument, OwnershipOutcome, Rejection, SzamlazzAnswer};
use crate::kinds::DocumentKind;
use crate::recovery::{spec_completion_fits, AttestedCompletion, WriteOperation};
use crate::status::{set_slot, spec_fold, spec_observe, spec_with_consumed, OrderView, StateView, StatusView};

verus! {

/// Different kinds have different names.
proof fn lemma_kind_names_differ(k1: IssuedKind, k2: IssuedKind)
    requires
        k1 != k2,
    ensures
        spec_kind_name(k1) != spec_kind_name(k2),
{
    reveal_strlit("proforma");
    reveal_strlit("invoice");
    reveal_strlit("prepayment");
    reveal_strlit("final");
    reveal_strlit("corrective");
    let a = spec_kind_name(k1);
    let b = spec_kind_name(k2);
    if a == b {
        assert(a.len() == b.len());
        assert(a[0] == b[0]);
        assert(a[1] == b[1]);
        assert(a[2] == b[2]);
    }
}

/// Every kind of an order has its own external id: the ids of two
/// different kinds of the same order differ.
pub proof fn kind_ids_are_distinct(ns: Seq<char>, order: Seq<char>, k1: IssuedKind, k2: IssuedKind)
    requires
        k1 != k2,
    ensures
        spec_kind_id(ns, order, k1) != spec_kind_id(ns, order, k2),
{
    lemma_kind_names_differ(k1, k2);
    let prefix = ns + ":"@ + order + ":"@;
    let a = spec_kind_id(ns, order, k1);
    let b = spec_kind_id(ns, order, k2);
    assert(a == prefix + spec_kind_name(k1));
    assert(b == prefix + spec_kind_name(k2));
    if a == b {
        assert(a.subrange(prefix.len() as int, a.len() as int) =~= spec_kind_name(k1));
        assert(b.subrange(prefix.len() as int, b.len() as int) =~= spec_kind_name(k2));
    }
}

/// The stornos of two different invoices of an order have different
/// external ids.
pub proof fn storno_ids_are_distinct(ns: Seq<char>, order: Seq<char>, n1: Seq<char>, n2: Seq<char>)
    requires
        n1 != n2,
    ensures
        spec_storno_id(ns, order, n1) != spec_storno_id(ns, order, n2),
{
    let prefix = ns + ":"@ + order + ":storno:"@;
    let a = spec_storno_id(ns, order, n1);
    let b = spec_storno_id(ns, order, n2);
    assert(a == prefix + n1);
    assert(b == prefix + n2);
    if a == b {
        assert(a.subrange(prefix.len() as int, a.len() as int) =~= n1);
        assert(b.subrange(prefix.len() as int, b.len() as int) =~= n2);
    }
}

/// An unavailable resolver's error never echoes its cause: whatever the
/// resolver said, the caller reads the same text.
pub proof fn resolver_error_names_no_cause(c1: String, c2: String)
    ensures
        resolver_text(&ResolverUnavailable::Reported { cause: c1 }) == resolver_text(
            &ResolverUnavailable::Reported { cause: c2 },
        ),
        resolver_text(&ResolverUnavailable::Reported { cause: c1 }) == "the account resolver is unavailable"@,
{
}

/// A failed credential fetch's fault names neither the store's message nor
/// the credential reference: the message depends on the kind of failure
/// alone.
pub proof fn fetch_fault_names_no_cause(c1: String, c2: String, r1: String, r2: String)
    ensures
        fetch_fault_text(&FetchFailure::Unavailable { cause: c1 }) == fetch_fault_text(
            &FetchFailure::Unavailable { cause: c2 },
        ),
        fetch_fault_text(&FetchFailure::Gone { credential_ref: r1 }) == fetch_fault_text(
            &FetchFailure::Gone { credential_ref: r2 },
        ),
{
}

/// A full tax number and its eight-digit stem name the same taxpayer
/// prefix, so `query_taxpayer` reads both under the same step.
pub proof fn stem_and_full_form_agree(stem: Seq<char>, full: Seq<char>)
    requires
        stem.len() == 8,
        digits_at(stem, 0, 8),
        full.len() == 13,
        full.subrange(0, 8) == stem,
        full[8] == '-',
        is_digit(full[9]),
        full[10] == '-',
        digits_at(full, 11, 2),
    ensures
        spec_taxpayer_prefix(stem) == Some(stem),
        spec_taxpayer_prefix(full) == Some(stem),
{
    assert forall|i: int| 0 <= i < 8 implies is_digit(#[trigger] full[i]) by {
        assert(full[i] == full.subrange(0, 8)[i]);
    }
}

/// A marker is believed only by the object and the invocation it belongs
/// to: its order is the object's key and its token is its owner's
/// invocation, never empty.
pub proof fn believed_marker_belongs_to_its_object(
    m: &UnresolvedWrite,
    scope: Option<Seq<char>>,
    key: Seq<char>,
    v: &FieldVerdicts,
)
    requires
        spec_valid_marker(m, scope, key, v),
    ensures
        m.order@ == key,
        m.token@ == m.owner_invocation@,
        m.token@.len() > 0,
        m.scope.deep_view() == scope,
{
}

/// Once issued, a write stays issued along a run of steps.
proof fn lemma_issued_persists(states: Seq<OrderWrite>, actions: Seq<WriteAction>, from: int, to: int)
    requires
        states.len() == actions.len() + 1,
        forall|k: int| 0 <= k < actions.len() ==> (#[trigger] states[k].spec_issued() ==> states[k + 1].spec_issued()),
        0 <= from <= to <= actions.len(),
        states[from].spec_issued(),
    ensures
        states[to].spec_issued(),
    decreases to - from,
{
    if from < to {
        assert(states[from].spec_issued() ==> states[from + 1].spec_issued());
        lemma_issued_persists(states, actions, from + 1, to);
    }
}

/// A write is sent at most once per execution: along any run of steps of
/// one `OrderWrite` (each step's state and action as `OrderWrite::step`
/// ensures them), no two steps hand out the write's own run.
pub proof fn a_write_runs_at_most_once(states: Seq<OrderWrite>, actions: Seq<WriteAction>, i: int, j: int)
    requires
        states.len() == actions.len() + 1,
        forall|k: int|
            0 <= k < actions.len() ==> (#[trigger] actions[k] is RunWrite ==> !states[k].spec_issued()
                && states[k + 1].spec_issued()),
        forall|k: int| 0 <= k < actions.len() ==> (#[trigger] states[k].spec_issued() ==> states[k + 1].spec_issued()),
        0 <= i < j < actions.len(),
        actions[i] is RunWrite,
    ensures
        !(actions[j] is RunWrite),
{
    assert(actions[i] is RunWrite ==> !states[i].spec_issued() && states[i + 1].spec_issued());
    lemma_issued_persists(states, actions, i + 1, j);
    assert(actions[j] is RunWrite ==> !states[j].spec_issued() && states[j + 1].spec_issued());
}

/// Once sent, a storno stays sent along a run of steps.
proof fn lemma_sent_persists(states: Seq<StornoRun>, actions: Seq<StornoAction>, from: int, to: int)
    requires
        states.len() == actions.len() + 1,
        forall|k: int| 0 <= k < actions.len() ==> (#[trigger] states[k].spec_sent() ==> states[k + 1].spec_sent()),
        0 <= from <= to <= actions.len(),
        states[from].spec_sent(),
    ensures
        states[to].spec_sent(),
    decreases to - from,
{
    if from < to {
        assert(states[from].spec_sent() ==> states[from + 1].spec_sent());
        lemma_sent_persists(states, actions, from + 1, to);
    }
}

/// A storno is sent at most once per attempt: along any run of steps of one
/// `StornoRun` (as `StornoRun::step` ensures them), no two steps send.
pub proof fn a_storno_is_sent_at_most_once(states: Seq<StornoRun>, actions: Seq<StornoAction>, i: int, j: int)
    requires
        states.len() == actions.len() + 1,
        forall|k: int|
            0 <= k < actions.len() ==> (#[trigger] actions[k] is Send ==> !states[k].spec_sent()
                && states[k + 1].spec_sent()),
        forall|k: int| 0 <= k < actions.len() ==> (#[trigger] states[k].spec_sent() ==> states[k + 1].spec_sent()),
        0 <= i < j < actions.len(),
        actions[i] is Send,
    ensures
        !(actions[j] is Send),
{
    assert(actions[i] is Send ==> !states[i].spec_sent() && states[i + 1].spec_sent());
    lemma_sent_persists(states, actions, i + 1, j);
    assert(actions[j] is Send ==> !states[j].spec_sent() && states[j + 1].spec_sent());
}

/// The document of ours a read found, live or reversed.
pub open spec fn doc_of(read: &OwnershipOutcome) -> Option<FoundDocument> {
    match read {
        OwnershipOutcome::Live(doc) | OwnershipOutcome::Reversed(doc) => Some(**doc),
        _ => None,
    }
}

/// The `kind` slot of an order's status.
pub open spec fn slot_of(o: OrderView, kind: DocumentKind) -> Option<StatusView> {
    match kind {
        DocumentKind::Proforma => o.proforma,
        DocumentKind::Invoice => o.invoice,
        DocumentKind::Prepayment => o.prepayment,
        DocumentKind::Final => o.final_invoice,
    }
}

/// Setting a slot of an order's status sets exactly that slot: the `kind`
/// slot becomes `s`, every other slot keeps what it held.
pub proof fn setting_a_slot_sets_exactly_that_slot(o: OrderView, kind: DocumentKind, other: DocumentKind, s: Option<StatusView>)
    ensures
        slot_of(set_slot(o, kind, s), kind) == s,
        other != kind ==> slot_of(set_slot(o, kind, s), other) == slot_of(o, other),
{
}

/// A read that finds a document of ours, live or reversed, fills the slot of
/// its kind with that document: its number, its totals and credit entries,
/// `live` exactly when szamlazz.hu does not report it reversed; the other
/// slots are left as they were. A read that finds nothing, or another
/// document, changes no slot.
pub proof fn a_document_of_ours_fills_the_slot_of_its_kind(o: OrderView, kind: DocumentKind, other: DocumentKind, read: OwnershipOutcome)
    ensures
        doc_of(&read) matches Some(doc) ==> (spec_observe(
            o,
            kind,
            &read,
        ) matches Ok(p) && slot_of(p, kind) matches Some(st) && st.number == doc.number@ && st.gross == Some(
            doc.gross,
        ) && st.net == Some(doc.net) && st.credit_entries == doc.payments@ && (st.state is Live <==> doc.reversed
            != Some(true)) && (other != kind ==> slot_of(p, other) == slot_of(o, other))),
        (read is Absent || read is Collision) ==> spec_observe(o, kind, &read) == Ok::<OrderView, crate::fault::FaultView>(o),
{
}

/// A fold over reads none of which is of `kind` leaves the `kind` slot as it
/// was.
proof fn lemma_fold_leaves_other_slots(reads: Seq<(DocumentKind, OwnershipOutcome)>, o: OrderView, kind: DocumentKind)
    requires
        forall|j: int| 0 <= j < reads.len() ==> #[trigger] reads[j].0 != kind,
    ensures
        spec_fold(reads, o) matches Ok(p) ==> slot_of(p, kind) == slot_of(o, kind),
    decreases reads.len(),
{
    if reads.len() > 0 {
        assert(reads[0].0 != kind);
        match spec_observe(o, reads[0].0, &reads[0].1) {
            Ok(next) => {
                a_document_of_ours_fills_the_slot_of_its_kind(o, reads[0].0, kind, reads[0].1);
                assert forall|j: int| 0 <= j < reads.drop_first().len() implies #[trigger] reads.drop_first()[j].0
                    != kind by {
                    assert(reads.drop_first()[j] == reads[j + 1]);
                }
                lemma_fold_leaves_other_slots(reads.drop_first(), next, kind);
            },
            Err(_) => {},
        }
    }
}

/// In `get`'s fold, the last document of ours read for a kind fills that
/// kind's slot: when the reads succeed and no later read is of the same
/// kind, the slot holds that document's number and totals.
pub proof fn the_document_read_for_a_kind_stays_in_its_slot(reads: Seq<(DocumentKind, OwnershipOutcome)>, o: OrderView, i: int)
    requires
        0 <= i < reads.len(),
        reads[i].1 is Live || reads[i].1 is Reversed,
        forall|j: int| i < j < reads.len() ==> #[trigger] reads[j].0 != reads[i].0,
        spec_fold(reads, o) is Ok,
    ensures
        spec_fold(reads, o) matches Ok(p) && slot_of(p, reads[i].0) matches Some(st) && (match doc_of(&reads[i].1) {
            Some(doc) => st.number == doc.number@ && st.gross == Some(doc.gross) && st.net == Some(doc.net) && (
            st.state is Live <==> doc.reversed != Some(true)),
            None => false,
        }),
    decreases i,
{
    let kind = reads[i].0;
    match spec_observe(o, reads[0].0, &reads[0].1) {
        Ok(next) => {
            let rest = reads.drop_first();
            assert(spec_fold(reads, o) == spec_fold(rest, next));
            if i == 0 {
                a_document_of_ours_fills_the_slot_of_its_kind(o, kind, kind, reads[0].1);
                assert forall|j: int| 0 <= j < rest.len() implies #[trigger] rest[j].0 != kind by {
                    assert(rest[j] == reads[j + 1]);
                }
                lemma_fold_leaves_other_slots(rest, next, kind);
            } else {
                assert(rest[i - 1] == reads[i]);
                assert forall|j: int| i - 1 < j < rest.len() implies #[trigger] rest[j].0 != rest[i - 1].0 by {
                    assert(rest[j] == reads[j + 1]);
                }
                the_document_read_for_a_kind_stays_in_its_slot(rest, next, i - 1);
            }
        },
        Err(_) => {},
    }
}

/// `get`'s answer keeps every slot the reads filled: deriving a consumed
/// proforma touches only an empty proforma slot.
pub proof fn deriving_a_consumed_proforma_keeps_the_read_slots(o: OrderView)
    ensures
        spec_with_consumed(o).invoice == o.invoice,
        spec_with_consumed(o).prepayment == o.prepayment,
        spec_with_consumed(o).final_invoice == o.final_invoice,
        o.proforma is Some ==> spec_with_consumed(o).proforma == o.proforma,
{
}

/// A create step settled by a document an earlier execution issued, or
/// reconciled, answers with that document: its number and totals, under
/// the create's kind and external id, with the matching outcome.
pub proof fn a_found_or_reconciled_create_answers_with_its_document(id: Identity, found: FoundDocument)
    ensures
        spec_respond_to(&id, &CreateOutcome::Reconciled(Box::new(found))) matches Ok(v) && v.outcome
            == Outcome::Reconciled && v.invoice_number == Some(found.number@) && v.gross_total == Some(found.gross)
            && v.net_total == Some(found.net) && v.kind == id.kind && v.external_id == id.external_id@,
        spec_respond_to(&id, &CreateOutcome::Found(Box::new(found))) matches Ok(v) && v.outcome == Outcome::Issued
            && v.invoice_number == Some(found.number@) && v.gross_total == Some(found.gross) && v.net_total == Some(
            found.net,
        ) && v.kind == id.kind && v.external_id == id.external_id@,
{
}

/// A create step that issued a document answers `issued` with that
/// document's number and totals.
pub proof fn an_issued_create_answers_with_its_document(id: Identity, issued: IssuedDocument)
    ensures
        spec_respond_to(&id, &CreateOutcome::Issued(issued)) matches Ok(v) && v.outcome == Outcome::Issued
            && v.invoice_number == Some(issued.number@) && v.gross_total == issued.gross_total && v.net_total
            == issued.net_total && v.outstanding == issued.outstanding && v.kind == id.kind,
{
}

/// A create step whose document turned out reversed, live again, held by
/// another document, refused, or refused as a duplicate order number answers
/// as data naming the document or the refusal: never `issued`.
pub proof fn a_create_that_issued_nothing_names_why(
    id: Identity,
    found: FoundDocument,
    rejection: Rejection,
    answer: SzamlazzAnswer,
    existing: Option<String>,
)
    ensures
        spec_respond_to(&id, &CreateOutcome::Reversed(Box::new(found))) matches Ok(v) && v.outcome
            == Outcome::Reversed && v.invoice_number == Some(found.number@),
        spec_respond_to(&id, &CreateOutcome::LiveAgain(Box::new(found))) matches Ok(v) && v.outcome
            == Outcome::Conflict && v.conflict_reason == Some(ConflictReason::Live) && v.existing_number == Some(
            found.number@,
        ),
        spec_respond_to(&id, &CreateOutcome::Collision(Box::new(found))) matches Ok(v) && v.outcome
            == Outcome::Conflict && v.conflict_reason == Some(ConflictReason::ExternalIdCollision)
            && v.existing_number == Some(found.number@),
        spec_respond_to(&id, &CreateOutcome::Rejected(rejection)) matches Ok(v) && v.outcome == Outcome::Rejected
            && v.code == Some(rejection.code@) && v.message == Some(rejection.message@) && v.invoice_number is None,
        spec_respond_to(&id, &CreateOutcome::DuplicateOrderNumber { answer, existing_number: existing }) matches Ok(
            v,
        ) && v.outcome == Outcome::Conflict && v.conflict_reason == Some(ConflictReason::DuplicateOrderNumber)
            && v.code == Some(answer.code@) && v.existing_number == existing.deep_view(),
{
}

/// `query` reports the document as szamlazz.hu does: its number, its totals,
/// and `reversed` exactly when szamlazz.hu reports it reversed.
pub proof fn a_query_reports_the_documents_reversal(r: QueryResponse, found: FoundDocument)
    requires
        projects(&r, &found),
    ensures
        r.reversed == (found.reversed == Some(true)),
        r.invoice_number@ == found.number@,
        r.gross_total == found.gross,
        r.net_total == found.net,
        r.document_type@ == found.document_type@,
        r.order_number.deep_view() == found.order_number.deep_view(),
        r.test == found.test,
        r.credit_entries@ == found.payments@,
{
}

/// A deletion's target changes only when the lookup found a proforma of
/// ours under another number; nothing found, a collision or an answered
/// code never does.
pub proof fn only_another_proforma_of_ours_changes_the_target(found: OwnershipOutcome, expected: Seq<char>)
    ensures
        spec_target_changed(&found, expected) <==> (match doc_of(&found) {
            Some(doc) => doc.number@ != expected,
            None => false,
        }),
        !spec_target_changed(&OwnershipOutcome::Absent, expected),
{
}

/// An operator's attested completion fits the unresolved write when it
/// attests what the write could have done: any document issued by a create
/// without an expected document, and by a reissue any but the document it
/// replaces; a storno other than the reversed invoice; the deletion of
/// exactly its target. An attestation of another operation never fits.
pub proof fn an_attested_completion_fits_what_the_write_could_have_done(
    kind: IssuedKind,
    expected: Option<String>,
    corrected: Option<String>,
    target: String,
    n: String,
)
    ensures
        expected is None ==> spec_completion_fits(
            &WriteOperation::Create { kind, expected_number: expected, corrected_number: corrected },
            &AttestedCompletion::Issued { number: n },
        ),
        expected matches Some(e) ==> (spec_completion_fits(
            &WriteOperation::Create { kind, expected_number: expected, corrected_number: corrected },
            &AttestedCompletion::Issued { number: n },
        ) <==> e@ != n@),
        spec_completion_fits(
            &WriteOperation::Storno { number: target },
            &AttestedCompletion::Reversed { number: n },
        ) <==> target@ != n@,
        spec_completion_fits(&WriteOperation::Delete { number: target }, &AttestedCompletion::Deleted { number: n })
            <==> target@ == n@,
        !spec_completion_fits(
            &WriteOperation::Create { kind, expected_number: expected, corrected_number: corrected },
            &AttestedCompletion::Deleted { number: n },
        ),
        !spec_completion_fits(&WriteOperation::Delete { number: target }, &AttestedCompletion::Issued { number: n }),
{
}

} // verus!
