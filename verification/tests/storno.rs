use std::ops::ControlFlow;

use restate_szamlazz::amount::Amount;
use restate_szamlazz::create::ConflictReason;
use restate_szamlazz::fault::{verified_document, Fault, RunEnd};
use restate_szamlazz::gateway::{
    e_invoice_of_appearance, project_order_number, Date, FoundDocument, QueryOutcome, StornoLookupOutcome,
    StornoOutcome as StepOutcome, SzamlazzAnswer,
};
use restate_szamlazz::identity::{ExternalId, OrderKey};
use restate_szamlazz::kinds::IssuedKind;
use restate_szamlazz::storno::{
    after_storno_lookup, reversed_response, storno_number_from_hint, storno_number_from_lookup,
    storno_outcome_unknown, storno_response, storno_verdict, unmanaged_storno_verdict, StornoIntent,
    StornoOutcome, StornoResponse, StornoVerdict,
};

const TELJ: Date = Date { year: 2026, month: 9, day: 1 };

/// A found document: a live test-account invoice-family document of ORD-1,
/// paper (appearance 1) unless a proforma (appearance 0).
fn doc(number: &str, tipus: &str) -> FoundDocument {
    FoundDocument {
        number: number.to_owned(),
        document_type: tipus.to_owned(),
        reversed: None,
        order_number: project_order_number(Some("ORD-1")),
        referenced_proforma: None,
        referenced_invoice: None,
        gross: Amount { mantissa: 12700, scale: 0 },
        net: Amount { mantissa: 10000, scale: 0 },
        test: true,
        e_invoice: e_invoice_of_appearance(if tipus == "D" { 0 } else { 1 }),
        supplier_id: Some(42),
        document_id: Some(1),
        payments: Vec::new(),
        adopted: false,
        fulfillment_date: Some(TELJ),
    }
}

fn ord_1() -> OrderKey {
    OrderKey::parse("ORD-1").expect("order")
}

fn with_order(mut d: FoundDocument, raw: Option<&str>) -> FoundDocument {
    d.order_number = project_order_number(raw);
    d
}

fn reversed(mut d: FoundDocument) -> FoundDocument {
    d.reversed = Some(true);
    d
}

#[test]
fn the_storno_verdict_refuses_before_it_reverses() {
    let order = ord_1();

    for tipus in ["SZ", "ES", "VS", "HS"] {
        assert_eq!(storno_verdict(&doc("X-1", tipus), &order, "X-1"), StornoVerdict::Proceed, "{tipus}");
    }

    for not_ours in [Some("ORD-2"), None, Some(""), Some("  ")] {
        let StornoVerdict::Answered(response) =
            storno_verdict(&reversed(with_order(doc("D-1", "D"), not_ours)), &order, "D-1")
        else {
            panic!("rendelesszam {not_ours:?} is answered");
        };
        assert_eq!(response.outcome, StornoOutcome::Conflict, "{not_ours:?}");
        assert_eq!(response.conflict_reason, Some(ConflictReason::NotManaged), "{not_ours:?}");
        assert_eq!(response.invoice_number, "D-1", "{not_ours:?}");
        assert_eq!(response.storno_number, None, "{not_ours:?}");
    }
    for raw in ["", "   ", "ORD-2"] {
        let StornoVerdict::Answered(response) =
            storno_verdict(&with_order(doc("SZ-1", "SZ"), Some(raw)), &order, "SZ-1")
        else {
            panic!("order_number {raw:?} is answered");
        };
        assert_eq!(response.conflict_reason, Some(ConflictReason::NotManaged), "order_number {raw:?}");
    }
    assert_eq!(
        storno_verdict(&with_order(doc("SZ-1", "SZ"), Some(" ORD-1 ")), &order, "SZ-1"),
        StornoVerdict::Proceed,
        "a padded order number carries the order"
    );

    for tipus in ["SZ", "D"] {
        assert_eq!(
            storno_verdict(&reversed(doc("X-1", tipus)), &order, "X-1"),
            StornoVerdict::AlreadyReversed,
            "{tipus}: reversed is answered before the kind is checked"
        );
    }

    for (number, tipus) in [("D-1", "D"), ("SL-1", "SL"), ("SS-1", "SS")] {
        let mut d = doc(number, tipus);
        if tipus == "SS" {
            d.referenced_invoice = Some("SZ-1".to_owned());
        }
        let StornoVerdict::Answered(response) = storno_verdict(&d, &order, number) else {
            panic!("{tipus} is answered");
        };
        assert_eq!(response.outcome, StornoOutcome::Rejected, "{tipus}");
        assert_eq!(response.code.as_deref(), Some(StornoResponse::NOT_STORNOABLE), "{tipus}");
        assert_eq!(response.invoice_number, number, "{tipus}");
        assert_eq!(response.conflict_reason, None, "{tipus}");
        assert!(
            response.message.as_deref().is_some_and(|message| message.contains("only invoices can be stornoed")),
            "{tipus}: {response:?}"
        );
    }
}

#[test]
fn storno_the_unmanaged_storno_verdict_redirects_managed_documents_and_proceeds_on_the_rest() {
    for managed in [Some("ORD-1"), Some("  ORD-1 ")] {
        let StornoVerdict::Answered(response) =
            unmanaged_storno_verdict(&reversed(with_order(doc("SZ-1", "SZ"), managed)), "SZ-1")
        else {
            panic!("rendelesszam {managed:?} is answered");
        };
        assert_eq!(response.outcome, StornoOutcome::ManagedByOrder, "{managed:?}");
        assert_eq!(response.order_key.as_deref(), Some("ORD-1"), "{managed:?}");
        assert_eq!(response.invoice_number, "SZ-1", "{managed:?}");
        assert_eq!(response.storno_number, None, "{managed:?}");
        assert_eq!(response.conflict_reason, None, "{managed:?}");
    }

    for (unmanaged, tipus) in [(None, "SZ"), (Some(""), "SZ"), (Some("  "), "SZ"), (None, "D")] {
        assert_eq!(
            unmanaged_storno_verdict(&with_order(doc("X-1", tipus), unmanaged), "X-1"),
            StornoVerdict::Proceed,
            "rendelesszam {unmanaged:?}, {tipus}"
        );
    }

    for raw in ["", "   "] {
        assert_eq!(
            unmanaged_storno_verdict(&with_order(doc("SZ-1", "SZ"), Some(raw)), "SZ-1"),
            StornoVerdict::Proceed,
            "order_number {raw:?}"
        );
    }
    let StornoVerdict::Answered(response) =
        unmanaged_storno_verdict(&with_order(doc("SZ-1", "SZ"), Some(" ORD-1 ")), "SZ-1")
    else {
        panic!("a padded order number is answered");
    };
    assert_eq!(response.order_key.as_deref(), Some("ORD-1"));

    assert_eq!(
        unmanaged_storno_verdict(&reversed(with_order(doc("SZ-1", "SZ"), None)), "SZ-1"),
        StornoVerdict::AlreadyReversed
    );
}

#[test]
fn storno_storno_answers_an_unknown_invoice_as_not_found() {
    let fault = verified_document(QueryOutcome::NotFound, "SZ-9").expect_err("a fault");
    assert_eq!(fault.status(), Some(404));
    assert_eq!(fault.code.as_str(), "not_found");
    assert!(fault.message.contains("SZ-9"), "{fault:?}");
    assert_eq!(fault.order, None, "a by-number fault");
}

#[test]
fn the_storno_intent_repeats_the_originals_fulfillment_date() {
    let storno_id = || ExternalId::new("acct:ORD-1:storno:SZ-1");
    let mut e_invoice = doc("SZ-1", "SZ");
    e_invoice.e_invoice = e_invoice_of_appearance(3);
    let intent = StornoIntent::from_verified(&e_invoice, false, "SZ-1", storno_id(), Some("wrong buyer".to_owned()))
        .expect("an intent");
    assert_eq!(intent.fulfillment_date, TELJ);
    assert_eq!(intent.number, "SZ-1");
    assert_eq!(intent.storno_id.as_str(), storno_id().as_str());
    assert_eq!(intent.comment.as_deref(), Some("wrong buyer"));
    assert!(intent.e_invoice, "lifted from the document");

    let mut undated = doc("SZ-1", "SZ");
    undated.fulfillment_date = None;
    let fault = StornoIntent::from_verified(&undated, false, "SZ-1", storno_id(), None).expect_err("a fault");
    assert_eq!(fault.status(), Some(503));
    assert_eq!(fault.code.as_str(), "unavailable");
    assert!(fault.message.contains("SZ-1"), "{}", fault.message);
    assert!(fault.message.contains("fulfillment date"), "{}", fault.message);
    assert!(fault.message.contains("nothing was sent"), "{}", fault.message);
    assert!(fault.message.contains("Idempotency-Key"), "{}", fault.message);
    assert_eq!(fault.order, None);

    let about = fault.about(&ord_1(), Some(IssuedKind::Invoice), &ExternalId::new("acct:ORD-1:storno:SZ-1"));
    assert_eq!(about.code.as_str(), "unavailable");
    assert_eq!(about.order.as_deref(), Some("ORD-1"));
    assert_eq!(about.kind, Some(IssuedKind::Invoice));
    assert_eq!(about.external_id.as_deref(), Some("acct:ORD-1:storno:SZ-1"));
}

#[test]
fn the_storno_intent_lifts_eszamla_from_the_original_not_the_default() {
    let intent = |eszamla: u8, default: bool| {
        let mut d = doc("SZ-1", "SZ");
        d.e_invoice = e_invoice_of_appearance(eszamla);
        StornoIntent::from_verified(&d, default, "SZ-1", ExternalId::new("acct:ORD-1:storno:SZ-1"), None)
            .expect("an intent")
            .e_invoice
    };
    assert!(!intent(1, true), "paper, whatever the account default");
    assert!(intent(0, true), "not an invoice: the account default");
    assert!(intent(3, false), "e-invoice, whatever the account default");
    assert!(intent(2, false), "e-invoice, whatever the account default");
    assert!(!intent(0, false), "not an invoice: the account default");
}

#[test]
fn the_storno_lookup_answers_an_existing_storno_and_faults_on_a_code() {
    assert_eq!(
        after_storno_lookup(StornoLookupOutcome::Absent, "SZ-1").expect("data"),
        ControlFlow::Continue(()),
    );

    let ControlFlow::Break(response) = after_storno_lookup(
        StornoLookupOutcome::AlreadyReversed { storno_number: "SS-1".to_owned() },
        "SZ-1",
    )
    .expect("data") else {
        panic!("a storno of ours under the id is the answer");
    };
    assert_eq!(response.outcome, StornoOutcome::Reversed);
    assert_eq!(response.invoice_number, "SZ-1");
    assert_eq!(response.storno_number.as_deref(), Some("SS-1"));
    assert_eq!(response.conflict_reason, None);

    let fault = after_storno_lookup(
        StornoLookupOutcome::CredentialsRejected(SzamlazzAnswer::new("3", "Sikertelen bejelentkezés.")),
        "SZ-1",
    )
    .expect_err("a fault");
    assert_eq!(fault.status(), Some(503));
    assert_eq!(fault.code.as_str(), "credentials_rejected");
    assert_eq!(fault.szamlazz_code.as_deref(), Some("3"));

    let fault = after_storno_lookup(
        StornoLookupOutcome::Api(SzamlazzAnswer::new("57", "Hibás számlaszám.")),
        "SZ-1",
    )
    .expect_err("a fault");
    assert_eq!(fault.status(), Some(503));
    assert_eq!(fault.code.as_str(), "unavailable");
    assert_eq!(fault.szamlazz_code.as_deref(), Some("57"));
    assert!(fault.message.contains("code 57"), "{}", fault.message);
    assert!(fault.message.contains("Hibás számlaszám."), "{}", fault.message);
    assert!(fault.message.contains("nothing may be concluded"), "{}", fault.message);
}

#[test]
fn a_settled_storno_step_maps_its_leading_query_answers_onto_faults() {
    let respond = |outcome: StepOutcome| storno_response(outcome, "SZ-1");

    let response =
        respond(StepOutcome::AlreadyReversed { storno_number: "SS-1".to_owned() }).expect("data");
    assert_eq!(response.storno_number.as_deref(), Some("SS-1"));

    let fault = respond(StepOutcome::Api(SzamlazzAnswer::new("57", "Hibás XML."))).expect_err("a fault");
    assert_eq!(fault.status(), Some(503));
    assert_eq!(fault.code.as_str(), "unavailable");
    assert_eq!(fault.szamlazz_code.as_deref(), Some("57"));
    assert!(fault.message.contains("code 57"), "{}", fault.message);

    let fault = respond(StepOutcome::Unavailable { message: "maintenance".to_owned() }).expect_err("a fault");
    assert_eq!(fault.status(), Some(503));
    assert_eq!(fault.code.as_str(), "unavailable");
    assert_eq!(fault.szamlazz_code, None);
    assert!(fault.message.contains("szlahu_down"), "{}", fault.message);
    assert!(fault.message.contains("nothing was sent"), "{}", fault.message);

    let fault = respond(StepOutcome::CredentialsRejected(SzamlazzAnswer::new("3", "login"))).expect_err("a fault");
    assert_eq!(fault.code.as_str(), "credentials_rejected");
}

#[test]
fn an_unsettled_storno_step_is_outcome_unknown_naming_the_next_step() {
    let last = RunEnd {
        code: 500,
        message: "transport failure: connection reset".to_owned(),
        initialization: None,
    };
    let fault = storno_outcome_unknown(&last, "call storno again");
    assert_eq!(fault.status(), Some(500));
    assert_eq!(fault.code.as_str(), "outcome_unknown");
    assert!(fault.message.contains("500"), "{}", fault.message);
    assert!(fault.message.contains("connection reset"), "{}", fault.message);
    assert!(fault.message.ends_with("call storno again"), "{}", fault.message);
}

#[test]
fn the_best_effort_reads_name_the_storno_only_from_its_own_document() {
    let rejected_body = |fault: Fault| {
        assert_eq!(fault.status(), Some(503));
        assert_eq!(fault.code.as_str(), "credentials_rejected");
        assert_eq!(fault.szamlazz_code.as_deref(), Some("3"));
    };
    let rejected = || SzamlazzAnswer::new("3", "Sikertelen bejelentkezés.");

    let mut storno = doc("SS-1", "SS");
    storno.referenced_invoice = Some("SZ-1".to_owned());
    assert_eq!(
        storno_number_from_hint(QueryOutcome::Found(Box::new(storno)), "SZ-1").expect("data"),
        Some("SS-1".to_owned())
    );
    let mut other = doc("SS-9", "SS");
    other.referenced_invoice = Some("SZ-9".to_owned());
    let not_its_storno = [
        QueryOutcome::Found(Box::new(doc("SZ-1", "SZ"))),
        QueryOutcome::Found(Box::new(other)),
        QueryOutcome::NotFound,
        QueryOutcome::Api(SzamlazzAnswer::new("57", "Hibás számlaszám.")),
    ];
    for outcome in not_its_storno {
        assert_eq!(storno_number_from_hint(outcome, "SZ-1").expect("data"), None);
    }
    rejected_body(storno_number_from_hint(QueryOutcome::CredentialsRejected(rejected()), "SZ-1").expect_err("a fault"));

    assert_eq!(
        storno_number_from_lookup(StornoLookupOutcome::AlreadyReversed { storno_number: "SS-1".to_owned() })
            .expect("data"),
        Some("SS-1".to_owned())
    );
    for unknown in [
        StornoLookupOutcome::Absent,
        StornoLookupOutcome::Api(SzamlazzAnswer::new("57", "Hibás számlaszám.")),
    ] {
        assert_eq!(storno_number_from_lookup(unknown).expect("data"), None);
    }
    rejected_body(storno_number_from_lookup(StornoLookupOutcome::CredentialsRejected(rejected())).expect_err("a fault"));
}

#[test]
fn the_reversed_answer_carries_the_storno_number_when_known() {
    let known = reversed_response("SZ-1", Some("SS-1".to_owned()));
    assert_eq!(known.outcome, StornoOutcome::Reversed);
    assert_eq!(known.invoice_number, "SZ-1");
    assert_eq!(known.storno_number.as_deref(), Some("SS-1"));

    let unknown = reversed_response("SZ-1", None);
    assert_eq!(unknown.outcome, StornoOutcome::Reversed);
    assert_eq!(unknown.invoice_number, "SZ-1");
    assert_eq!(unknown.storno_number, None);
    assert_eq!(unknown.conflict_reason, None);
    assert_eq!(unknown.code, None);
}
