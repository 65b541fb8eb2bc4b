use restate_szamlazz::create::{exclusive_with, ConflictReason};
use restate_szamlazz::kinds::DocumentKind;

#[test]
fn exclusivity_table_names_the_other_kinds_and_their_reasons() {
    assert_eq!(
        exclusive_with(DocumentKind::Invoice),
        [
            (DocumentKind::Prepayment, ConflictReason::PrepaidChain),
            (DocumentKind::Final, ConflictReason::PrepaidChain),
        ]
    );
    assert_eq!(
        exclusive_with(DocumentKind::Prepayment),
        [
            (DocumentKind::Invoice, ConflictReason::PrepaidChain),
            (DocumentKind::Final, ConflictReason::PrepaidChain),
        ]
    );
    assert_eq!(
        exclusive_with(DocumentKind::Proforma),
        [
            (DocumentKind::Invoice, ConflictReason::OrderInvoiced),
            (DocumentKind::Prepayment, ConflictReason::OrderInvoiced),
            (DocumentKind::Final, ConflictReason::OrderInvoiced),
        ]
    );
    assert_eq!(exclusive_with(DocumentKind::Final), []);
}

use std::ops::ControlFlow;

use restate_szamlazz::amount::Amount;
use restate_szamlazz::create::{
    check_options, create_outcome_unknown, decide_base, decide_exclusivity, decide_lookup,
    decide_prepayment_for_final, decide_proforma_by_number, decide_proforma_link, links_proforma, CreateResponse,
    Identity, Outcome, ProformaLink, Refs,
};
use restate_szamlazz::create::Warning;
use restate_szamlazz::fault::{Fault, RunEnd};
use restate_szamlazz::gateway::{
    e_invoice_of_appearance, project_order_number, CreateOutcome, Date, FoundDocument, IssuedDocument, LookupOutcome,
    OwnershipOutcome, QueryOutcome, Rejection, SzamlazzAnswer,
};
use restate_szamlazz::identity::{ExternalId, Namespace, OrderKey};
use restate_szamlazz::kinds::IssuedKind;

fn doc(number: &str, tipus: &str) -> FoundDocument {
    FoundDocument {
        number: number.to_owned(),
        document_type: tipus.to_owned(),
        reversed: None,
        order_number: project_order_number(Some("ORD-1")),
        referenced_proforma: None,
        referenced_invoice: None,
        gross: Amount { mantissa: 1270, scale: 0 },
        net: Amount { mantissa: 1000, scale: 0 },
        test: true,
        e_invoice: e_invoice_of_appearance(if tipus == "D" { 0 } else { 1 }),
        supplier_id: Some(42),
        document_id: Some(1),
        payments: Vec::new(),
        adopted: false,
        fulfillment_date: Some(Date { year: 2026, month: 9, day: 1 }),
    }
}

fn of_order(mut d: FoundDocument, order: Option<&str>) -> FoundDocument {
    d.order_number = project_order_number(order);
    d
}

fn reversed(mut d: FoundDocument) -> FoundDocument {
    d.reversed = Some(true);
    d
}

fn boxed(d: FoundDocument) -> Box<FoundDocument> {
    Box::new(d)
}

fn namespace() -> Namespace {
    Namespace::new("acct")
}

fn ord_1() -> OrderKey {
    OrderKey::parse("ORD-1").expect("order")
}

fn invoice_identity() -> Identity {
    Identity::of_kind(&namespace(), &ord_1(), DocumentKind::Invoice)
}

fn amount(n: i128) -> Option<Amount> {
    Some(Amount { mantissa: n, scale: 0 })
}

fn settled(decision: Result<ControlFlow<CreateResponse, Option<String>>, Fault>) -> CreateResponse {
    match decision {
        Ok(ControlFlow::Break(response)) => response,
        other => panic!("settled without a create: {other:?}"),
    }
}

#[test]
fn options_proforma_applies_to_the_kinds_that_convert_a_proforma() {
    for link in [ProformaLink::Unlinked, ProformaLink::Number("D-1".to_owned())] {
        for kind in [DocumentKind::Invoice, DocumentKind::Prepayment] {
            assert!(links_proforma(kind));
            check_options(kind, &link).unwrap_or_else(|error| panic!("{kind:?} accepts options.proforma: {error:?}"));
        }
        for (kind, name) in [(DocumentKind::Proforma, "proforma"), (DocumentKind::Final, "final")] {
            assert!(!links_proforma(kind));
            let fault = check_options(kind, &link).err().unwrap_or_else(|| panic!("{kind:?} must refuse {link:?}"));
            assert_eq!(fault.status(), Some(400));
            assert_eq!(fault.code.as_str(), "invalid_input");
            assert!(
                fault.message.contains(&format!("not create_{name}"))
                    && fault.message.contains("create_invoice and create_prepayment"),
                "{kind:?}: {}",
                fault.message
            );
        }
    }
    for kind in [DocumentKind::Proforma, DocumentKind::Invoice, DocumentKind::Prepayment, DocumentKind::Final] {
        check_options(kind, &ProformaLink::Auto).unwrap_or_else(|error| panic!("{kind:?} accepts auto: {error:?}"));
    }
}

#[test]
fn a_live_document_under_the_id_is_already_issued_or_a_live_conflict_under_reissue() {
    let identity = invoice_identity();
    let response = settled(decide_lookup(LookupOutcome::Live(boxed(doc("SZ-1", "SZ"))), false, &identity));
    assert_eq!(response.outcome, Outcome::AlreadyIssued);
    assert_eq!(response.invoice_number.as_deref(), Some("SZ-1"));
    assert_eq!(response.net_total, amount(1000));
    assert_eq!(response.gross_total, amount(1270));
    assert_eq!(response.outstanding, amount(1270));
    assert_eq!(response.external_id, "acct:ORD-1:invoice");
    assert_eq!(response.kind, IssuedKind::Invoice);

    let response = settled(decide_lookup(LookupOutcome::Live(boxed(doc("SZ-1", "SZ"))), true, &identity));
    assert_eq!(response.outcome, Outcome::Conflict);
    assert_eq!(response.conflict_reason, Some(ConflictReason::Live));
    assert_eq!(response.existing_number.as_deref(), Some("SZ-1"));
    assert_eq!(response.invoice_number, None);
}

#[test]
fn a_reversed_document_under_the_id_is_reversed_or_proceeds_under_reissue() {
    let identity = invoice_identity();
    let response = settled(decide_lookup(
        LookupOutcome::Reversed { document: boxed(reversed(doc("SZ-1", "SZ"))), storno_number: Some("SS-1".to_owned()) },
        false,
        &identity,
    ));
    assert_eq!(response.outcome, Outcome::Reversed);
    assert_eq!(response.invoice_number.as_deref(), Some("SZ-1"));
    assert_eq!(response.storno_number.as_deref(), Some("SS-1"));

    let response = settled(decide_lookup(
        LookupOutcome::Reversed { document: boxed(reversed(doc("SZ-1", "SZ"))), storno_number: None },
        false,
        &identity,
    ));
    assert_eq!(response.outcome, Outcome::Reversed);
    assert_eq!(response.storno_number, None);

    assert_eq!(
        decide_lookup(
            LookupOutcome::Reversed { document: boxed(reversed(doc("SZ-1", "SZ"))), storno_number: Some("SS-1".to_owned()) },
            true,
            &identity,
        )
        .expect("data"),
        ControlFlow::Continue(Some("SZ-1".to_owned())),
    );
}

#[test]
fn absent_proceeds_while_a_collision_or_a_foreign_document_refuses() {
    let identity = invoice_identity();
    for reissue in [false, true] {
        assert_eq!(decide_lookup(LookupOutcome::Absent, reissue, &identity).expect("data"), ControlFlow::Continue(None));

        let response = settled(decide_lookup(
            LookupOutcome::Collision(boxed(of_order(doc("SZ-9", "SZ"), Some("ORD-2")))),
            reissue,
            &identity,
        ));
        assert_eq!(response.outcome, Outcome::Conflict, "reissue {reissue}");
        assert_eq!(response.conflict_reason, Some(ConflictReason::ExternalIdCollision));
        assert_eq!(response.existing_number.as_deref(), Some("SZ-9"));

        let response = settled(decide_lookup(LookupOutcome::Foreign(boxed(doc("SZ-77", "SZ"))), reissue, &identity));
        assert_eq!(response.outcome, Outcome::Conflict, "reissue {reissue}");
        assert_eq!(response.conflict_reason, Some(ConflictReason::Foreign));
        assert_eq!(response.existing_number.as_deref(), Some("SZ-77"));
    }
}

#[test]
fn an_answered_code_on_the_lookup_is_a_fault() {
    let identity = invoice_identity();
    let fault = decide_lookup(LookupOutcome::Api(SzamlazzAnswer::new("57", "Hibás XML.")), false, &identity)
        .expect_err("a fault");
    assert_eq!(fault.status(), Some(503));
    assert_eq!(fault.code.as_str(), "unavailable");
    assert_eq!(fault.szamlazz_code.as_deref(), Some("57"));
    assert!(fault.message.contains("nothing may be concluded"), "{}", fault.message);

    let fault = decide_lookup(
        LookupOutcome::CredentialsRejected(SzamlazzAnswer::new("135", "Aktív böngésző session.")),
        true,
        &identity,
    )
    .expect_err("a fault");
    assert_eq!(fault.status(), Some(503));
    assert_eq!(fault.code.as_str(), "credentials_rejected");
    assert_eq!(fault.szamlazz_code.as_deref(), Some("135"));
}

#[test]
fn exclusivity_refuses_a_live_other_kind_and_a_collision_and_passes_a_reversed_one() {
    let identity = invoice_identity();
    let response = decide_exclusivity(OwnershipOutcome::Live(boxed(doc("ES-1", "ES"))), ConflictReason::PrepaidChain, &identity)
        .expect("data")
        .expect("refused");
    assert_eq!(response.outcome, Outcome::Conflict);
    assert_eq!(response.conflict_reason, Some(ConflictReason::PrepaidChain));
    assert_eq!(response.existing_number.as_deref(), Some("ES-1"));
    assert_eq!(response.kind, IssuedKind::Invoice, "about the create, not the other kind");
    assert_eq!(response.external_id, "acct:ORD-1:invoice");

    let proforma_identity = Identity::of_kind(&namespace(), &ord_1(), DocumentKind::Proforma);
    let response = decide_exclusivity(
        OwnershipOutcome::Live(boxed(doc("SZ-1", "SZ"))),
        ConflictReason::OrderInvoiced,
        &proforma_identity,
    )
    .expect("data")
    .expect("refused");
    assert_eq!(response.conflict_reason, Some(ConflictReason::OrderInvoiced));
    assert_eq!(response.existing_number.as_deref(), Some("SZ-1"));

    let response = decide_exclusivity(
        OwnershipOutcome::Collision(boxed(of_order(doc("ES-9", "ES"), Some("ORD-2")))),
        ConflictReason::PrepaidChain,
        &identity,
    )
    .expect("data")
    .expect("refused");
    assert_eq!(response.conflict_reason, Some(ConflictReason::ExternalIdCollision));
    assert_eq!(response.existing_number.as_deref(), Some("ES-9"));

    assert_eq!(
        decide_exclusivity(OwnershipOutcome::Reversed(boxed(reversed(doc("ES-1", "ES")))), ConflictReason::PrepaidChain, &identity)
            .expect("data"),
        None,
    );
    assert_eq!(decide_exclusivity(OwnershipOutcome::Absent, ConflictReason::PrepaidChain, &identity).expect("data"), None);
}

#[test]
fn a_final_invoice_settles_a_live_prepayment_and_refuses_everything_else() {
    let identity = Identity::of_kind(&namespace(), &ord_1(), DocumentKind::Final);

    let mut refs = Refs::new();
    assert_eq!(
        decide_prepayment_for_final(OwnershipOutcome::Live(boxed(doc("ES-1", "ES"))), &identity, &mut refs).expect("data"),
        None
    );
    assert_eq!(refs.prepayment.as_deref(), Some("ES-1"));
    assert_eq!(refs.our_numbers, ["ES-1"]);
    assert_eq!(refs.proforma, None);

    let mut refs = Refs::new();
    let response = decide_prepayment_for_final(OwnershipOutcome::Absent, &identity, &mut refs)
        .expect("data")
        .expect("refused");
    assert_eq!(response.outcome, Outcome::Conflict);
    assert_eq!(response.conflict_reason, Some(ConflictReason::PrepaymentMissing));
    assert_eq!(response.existing_number, None);
    assert_eq!(response.kind, IssuedKind::Final);
    assert_eq!(response.external_id, "acct:ORD-1:final");

    let response = decide_prepayment_for_final(OwnershipOutcome::Reversed(boxed(reversed(doc("ES-1", "ES")))), &identity, &mut refs)
        .expect("data")
        .expect("refused");
    assert_eq!(response.conflict_reason, Some(ConflictReason::PrepaymentReversed));
    assert_eq!(response.existing_number.as_deref(), Some("ES-1"));

    let response = decide_prepayment_for_final(OwnershipOutcome::Collision(boxed(doc("SZ-9", "SZ"))), &identity, &mut refs)
        .expect("data")
        .expect("refused");
    assert_eq!(response.conflict_reason, Some(ConflictReason::ExternalIdCollision));
    assert_eq!(response.existing_number.as_deref(), Some("SZ-9"));

    assert_eq!(refs.prepayment, None, "nothing recorded on a refusal");
    assert!(refs.our_numbers.is_empty());
}

#[test]
fn an_answered_code_on_an_ownership_read_is_a_fault() {
    let identity = invoice_identity();
    let api = || OwnershipOutcome::Api(SzamlazzAnswer::new("57", "Hibás XML."));
    let rejected = || OwnershipOutcome::CredentialsRejected(SzamlazzAnswer::new("135", "Aktív böngésző session."));
    let decide = |label: &str, found: OwnershipOutcome| -> Fault {
        match label {
            "exclusivity" => decide_exclusivity(found, ConflictReason::PrepaidChain, &identity).expect_err("a fault"),
            "prepayment-for-final" => {
                let mut refs = Refs::new();
                let fault = decide_prepayment_for_final(found, &identity, &mut refs).expect_err("a fault");
                assert_eq!(refs.prepayment, None, "nothing recorded on a fault");
                fault
            },
            _ => {
                let mut refs = Refs::new();
                let fault = decide_proforma_link(found, &ProformaLink::Auto, &identity, &mut refs).expect_err("a fault");
                assert_eq!(refs.proforma, None, "nothing recorded on a fault");
                fault
            },
        }
    };
    for label in ["exclusivity", "prepayment-for-final", "proforma-link"] {
        let fault = decide(label, api());
        assert_eq!(fault.status(), Some(503), "{label}");
        assert_eq!(fault.code.as_str(), "unavailable", "{label}");
        assert_eq!(fault.szamlazz_code.as_deref(), Some("57"), "{label}");
        assert!(fault.message.contains("nothing may be concluded"), "{label}: {}", fault.message);

        let fault = decide(label, rejected());
        assert_eq!(fault.status(), Some(503), "{label}");
        assert_eq!(fault.code.as_str(), "credentials_rejected", "{label}");
        assert_eq!(fault.szamlazz_code.as_deref(), Some("135"), "{label}");
    }
}

#[test]
fn under_auto_a_live_proforma_is_linked_and_anything_else_links_nothing() {
    let identity = invoice_identity();
    let mut refs = Refs::new();
    assert_eq!(
        decide_proforma_link(OwnershipOutcome::Live(boxed(doc("D-1", "D"))), &ProformaLink::Auto, &identity, &mut refs)
            .expect("data"),
        None
    );
    assert_eq!(refs.proforma.as_deref(), Some("D-1"));
    assert_eq!(refs.our_numbers, ["D-1"]);
    assert_eq!(refs.prepayment, None);

    let mut refs = Refs::new();
    assert_eq!(
        decide_proforma_link(OwnershipOutcome::Reversed(boxed(reversed(doc("D-1", "D")))), &ProformaLink::Auto, &identity, &mut refs)
            .expect("data"),
        None
    );
    assert_eq!(decide_proforma_link(OwnershipOutcome::Absent, &ProformaLink::Auto, &identity, &mut refs).expect("data"), None);
    assert_eq!(refs.proforma, None, "nothing linked");
    assert!(refs.our_numbers.is_empty());

    let response = decide_proforma_link(
        OwnershipOutcome::Collision(boxed(of_order(doc("D-9", "D"), Some("ORD-2")))),
        &ProformaLink::Auto,
        &identity,
        &mut refs,
    )
    .expect("data")
    .expect("refused");
    assert_eq!(response.outcome, Outcome::Conflict);
    assert_eq!(response.conflict_reason, Some(ConflictReason::ExternalIdCollision));
    assert_eq!(response.existing_number.as_deref(), Some("D-9"));
    assert_eq!(refs.proforma, None, "nothing recorded on a refusal");
}

#[test]
fn under_none_a_live_proforma_is_a_conflict_and_anything_else_proceeds() {
    let identity = invoice_identity();
    let mut refs = Refs::new();
    let response =
        decide_proforma_link(OwnershipOutcome::Live(boxed(doc("D-1", "D"))), &ProformaLink::Unlinked, &identity, &mut refs)
            .expect("data")
            .expect("refused");
    assert_eq!(response.outcome, Outcome::Conflict);
    assert_eq!(response.conflict_reason, Some(ConflictReason::ProformaLive));
    assert_eq!(response.existing_number.as_deref(), Some("D-1"));
    assert_eq!(refs.proforma, None, "nothing recorded on a refusal");

    assert_eq!(
        decide_proforma_link(OwnershipOutcome::Reversed(boxed(reversed(doc("D-1", "D")))), &ProformaLink::Unlinked, &identity, &mut refs)
            .expect("data"),
        None
    );
    assert_eq!(
        decide_proforma_link(OwnershipOutcome::Absent, &ProformaLink::Unlinked, &identity, &mut refs).expect("data"),
        None
    );
    assert_eq!(refs.proforma, None);
    assert!(refs.our_numbers.is_empty());

    let response = decide_proforma_link(
        OwnershipOutcome::Collision(boxed(of_order(doc("D-9", "D"), Some("ORD-2")))),
        &ProformaLink::Unlinked,
        &identity,
        &mut refs,
    )
    .expect("data")
    .expect("refused");
    assert_eq!(response.conflict_reason, Some(ConflictReason::ExternalIdCollision));
    assert_eq!(response.existing_number.as_deref(), Some("D-9"));
}

#[test]
fn a_proforma_by_number_is_checked_like_every_document_found_by_number() {
    let identity = invoice_identity();
    let order = ord_1();

    let mut refs = Refs::new();
    assert_eq!(
        decide_proforma_by_number(QueryOutcome::Found(boxed(doc("D-1", "D"))), "D-1", &order, &identity, &mut refs)
            .expect("data"),
        None
    );
    assert_eq!(refs.proforma.as_deref(), Some("D-1"));
    assert_eq!(refs.our_numbers, ["D-1"]);

    let mut refs = Refs::new();
    let response = decide_proforma_by_number(QueryOutcome::NotFound, "D-MISSING", &order, &identity, &mut refs)
        .expect("data")
        .expect("refused");
    assert_eq!(response.outcome, Outcome::Conflict);
    assert_eq!(response.conflict_reason, Some(ConflictReason::ProformaMissing));
    assert_eq!(response.existing_number.as_deref(), Some("D-MISSING"));

    for (label, order_number) in [("another order's", Some("ORD-2")), ("order-less", None)] {
        let response = decide_proforma_by_number(
            QueryOutcome::Found(boxed(of_order(doc("D-2", "D"), order_number))),
            "D-2",
            &order,
            &identity,
            &mut refs,
        )
        .expect("data")
        .unwrap_or_else(|| panic!("{label}: refused"));
        assert_eq!(response.outcome, Outcome::Conflict, "{label}");
        assert_eq!(response.conflict_reason, Some(ConflictReason::NotManaged), "{label}");
        assert_eq!(response.existing_number.as_deref(), Some("D-2"), "{label}");
    }

    let fault = decide_proforma_by_number(QueryOutcome::Found(boxed(doc("SZ-42", "SZ"))), "SZ-42", &order, &identity, &mut refs)
        .expect_err("a fault");
    assert_eq!(fault.status(), Some(400));
    assert_eq!(fault.code.as_str(), "invalid_input");
    assert_eq!(fault.message, "SZ-42 is not a proforma (tipus SZ)");
    assert_eq!(fault.order, None, "about the caller's request, not a document");

    assert_eq!(refs.proforma, None, "nothing recorded on a refusal");
    assert!(refs.our_numbers.is_empty());
}

#[test]
fn an_answered_code_on_the_proforma_verify_is_a_fault_about_the_create() {
    let identity = invoice_identity();
    let mut refs = Refs::new();
    let fault = decide_proforma_by_number(
        QueryOutcome::Api(SzamlazzAnswer::new("57", "Hibás XML.")),
        "D-1",
        &ord_1(),
        &identity,
        &mut refs,
    )
    .expect_err("a fault");
    assert_eq!(fault.status(), Some(503));
    assert_eq!(fault.code.as_str(), "unavailable");
    assert_eq!(fault.szamlazz_code.as_deref(), Some("57"));
    assert_eq!(fault.order.as_deref(), Some("ORD-1"));
    assert_eq!(fault.kind, Some(IssuedKind::Invoice));
    assert_eq!(fault.external_id.as_deref(), Some("acct:ORD-1:invoice"));

    let fault = decide_proforma_by_number(
        QueryOutcome::CredentialsRejected(SzamlazzAnswer::new("3", "Sikertelen bejelentkezés.")),
        "D-1",
        &ord_1(),
        &identity,
        &mut refs,
    )
    .expect_err("a fault");
    assert_eq!(fault.status(), Some(503));
    assert_eq!(fault.code.as_str(), "credentials_rejected");
    assert_eq!(fault.szamlazz_code.as_deref(), Some("3"));
    assert_eq!(fault.external_id.as_deref(), Some("acct:ORD-1:invoice"));
}

#[test]
fn a_correctives_base_must_be_a_live_invoice_of_this_order() {
    let identity = Identity {
        kind: IssuedKind::Corrective,
        external_id: ExternalId::for_corrective(&namespace(), &ord_1(), "c-1"),
    };
    let order = ord_1();
    assert_eq!(decide_base(&doc("SZ-1", "SZ"), &order, "SZ-1", &identity), None);

    for (label, base) in [
        ("another order's", of_order(doc("SZ-1", "SZ"), Some("ORD-2"))),
        ("order-less", of_order(doc("SZ-1", "SZ"), None)),
        ("another order's, reversed", reversed(of_order(doc("SZ-1", "SZ"), Some("ORD-2")))),
    ] {
        let response = decide_base(&base, &order, "SZ-1", &identity).unwrap_or_else(|| panic!("{label}: refused"));
        assert_eq!(response.outcome, Outcome::Conflict, "{label}");
        assert_eq!(response.conflict_reason, Some(ConflictReason::NotManaged), "{label}");
        assert_eq!(response.existing_number.as_deref(), Some("SZ-1"), "{label}");
        assert_eq!(response.kind, IssuedKind::Corrective, "{label}");
        assert_eq!(response.external_id, "acct:ORD-1:corrective:c-1", "{label}");
    }

    let response = decide_base(&reversed(doc("SZ-1", "SZ")), &order, "SZ-1", &identity).expect("refused");
    assert_eq!(response.conflict_reason, Some(ConflictReason::BaseReversed));
    assert_eq!(response.existing_number.as_deref(), Some("SZ-1"));
}

#[test]
fn an_unsettled_create_step_is_outcome_unknown_repeating_the_last_failure() {
    let identity = invoice_identity();
    let exhausted = RunEnd {
        code: 500,
        message: "open code 55: signing; the re-query that would have settled it failed: HTTP 500".to_owned(),
        initialization: None,
    };
    let fault = create_outcome_unknown(&exhausted, &ord_1(), &identity);
    assert_eq!(fault.status(), Some(500));
    assert_eq!(fault.code.as_str(), "outcome_unknown");
    assert!(fault.message.contains("(500)"), "{}", fault.message);
    assert!(fault.message.contains("open code 55"), "{}", fault.message);
    assert!(fault.message.contains("HTTP 500"), "{}", fault.message);
    assert!(fault.message.contains("retry with a new Idempotency-Key"), "{}", fault.message);
    assert_eq!(fault.order.as_deref(), Some("ORD-1"));
    assert_eq!(fault.kind, Some(IssuedKind::Invoice));
    assert_eq!(fault.external_id.as_deref(), Some("acct:ORD-1:invoice"));
    assert_eq!(fault.szamlazz_code, None);

    let cancelled = RunEnd { code: 409, message: "cancelled".to_owned(), initialization: None };
    let fault = create_outcome_unknown(&cancelled, &ord_1(), &identity);
    assert_eq!(fault.status(), Some(500), "still outcome_unknown");
    assert!(fault.message.contains("(409)"), "{}", fault.message);
    assert!(fault.message.contains("cancelled"), "{}", fault.message);
}

#[test]
fn a_settled_create_step_maps_onto_the_response() {
    let identity = invoice_identity();
    let respond = |outcome: CreateOutcome| identity.respond_to(outcome);

    let response = respond(CreateOutcome::Found(boxed(doc("SZ-1", "SZ")))).expect("data");
    assert_eq!(response.outcome, Outcome::Issued);
    assert_eq!(response.invoice_number.as_deref(), Some("SZ-1"));
    assert_eq!(response.external_id, "acct:ORD-1:invoice");

    let response = respond(CreateOutcome::Reconciled(boxed(doc("SZ-1", "SZ")))).expect("data");
    assert_eq!(response.outcome, Outcome::Reconciled);

    let response = respond(CreateOutcome::Reversed(boxed(reversed(doc("SZ-1", "SZ"))))).expect("data");
    assert_eq!(response.outcome, Outcome::Reversed);
    assert_eq!(response.invoice_number.as_deref(), Some("SZ-1"));
    assert_eq!(response.storno_number, None);

    let response = respond(CreateOutcome::LiveAgain(boxed(doc("SZ-1", "SZ")))).expect("data");
    assert_eq!(response.outcome, Outcome::Conflict);
    assert_eq!(response.conflict_reason, Some(ConflictReason::Live));
    assert_eq!(response.existing_number.as_deref(), Some("SZ-1"));

    let response = respond(CreateOutcome::Collision(boxed(doc("SZ-1", "SZ")))).expect("data");
    assert_eq!(response.outcome, Outcome::Conflict);
    assert_eq!(response.conflict_reason, Some(ConflictReason::ExternalIdCollision));
    assert_eq!(response.existing_number.as_deref(), Some("SZ-1"));

    let response = respond(CreateOutcome::DuplicateOrderNumber {
        answer: SzamlazzAnswer::new("152", "dup"),
        existing_number: Some("SZ-77".to_owned()),
    })
    .expect("data");
    assert_eq!(response.conflict_reason, Some(ConflictReason::DuplicateOrderNumber));
    assert_eq!(response.existing_number.as_deref(), Some("SZ-77"));
    assert_eq!(response.code.as_deref(), Some("152"));

    let response = respond(CreateOutcome::Rejected(Rejection::from_answer(SzamlazzAnswer::new("259", "net")))).expect("data");
    assert_eq!(response.outcome, Outcome::Rejected);
    assert_eq!(response.code.as_deref(), Some("259"));

    let fault = respond(CreateOutcome::CredentialsRejected(SzamlazzAnswer::new("3", "login"))).expect_err("a fault");
    assert_eq!(fault.status(), Some(503));
    assert_eq!(fault.code.as_str(), "credentials_rejected");

    let fault = respond(CreateOutcome::Api(SzamlazzAnswer::new("57", "Hibás XML."))).expect_err("a fault");
    assert_eq!(fault.status(), Some(503));
    assert_eq!(fault.code.as_str(), "unavailable");
    assert_eq!(fault.szamlazz_code.as_deref(), Some("57"));
    assert!(fault.message.contains("code 57"), "{}", fault.message);
    assert!(fault.message.contains("retry with a new Idempotency-Key"), "{}", fault.message);

    let fault = respond(CreateOutcome::Unavailable { message: "maintenance".to_owned() }).expect_err("a fault");
    assert_eq!(fault.status(), Some(503));
    assert_eq!(fault.code.as_str(), "unavailable");
    assert!(fault.szamlazz_code.is_none());
    assert!(fault.message.contains("szlahu_down"), "{}", fault.message);
    assert!(fault.message.contains("maintenance"), "{}", fault.message);
    assert!(fault.message.contains("nothing was sent"), "{}", fault.message);
}

#[test]
fn an_issued_document_is_issued_with_the_notification_warning_when_56_said_so() {
    let identity = invoice_identity();
    let respond = |outcome: CreateOutcome| identity.respond_to(outcome);

    // The reply szamlazz.hu gives a successful create (szlahu_id 924307747).
    let issued = IssuedDocument {
        number: "SZ-2".to_owned(),
        net_total: amount(1000),
        gross_total: amount(1270),
        outstanding: amount(1270),
        customer_account_url: Some("https://www.szamlazz.hu/szamla/fiok/example".to_owned()),
        document_id: Some(924307747),
        notification_delivery_failed: false,
    };
    assert!(!issued.notification_delivery_failed);
    let response = respond(CreateOutcome::Issued(issued)).expect("data");
    assert_eq!(response.outcome, Outcome::Issued);
    assert_eq!(response.invoice_number.as_deref(), Some("SZ-2"));
    assert_eq!(response.net_total, amount(1000));
    assert_eq!(response.gross_total, amount(1270));
    assert_eq!(response.outstanding, amount(1270));
    assert_eq!(response.customer_account_url.as_deref(), Some("https://www.szamlazz.hu/szamla/fiok/example"));
    assert!(response.warnings.is_empty(), "{:?}", response.warnings);
    assert_eq!(response.external_id, "acct:ORD-1:invoice");

    // Code 56 with a number: issued, notification not delivered.
    let issued = IssuedDocument {
        number: "SZ-3".to_owned(),
        net_total: amount(1000),
        gross_total: amount(1270),
        outstanding: amount(1270),
        customer_account_url: None,
        document_id: None,
        notification_delivery_failed: true,
    };
    assert!(issued.notification_delivery_failed);
    let response = respond(CreateOutcome::Issued(issued)).expect("data");
    assert_eq!(response.outcome, Outcome::Issued, "issued, not rejected");
    assert_eq!(response.invoice_number.as_deref(), Some("SZ-3"));
    assert_eq!(response.gross_total, amount(1270));
    assert_eq!(response.warnings, [Warning::NotificationDeliveryFailed]);
    assert_eq!(response.code, None, "56 is not a rejection code here");
}
