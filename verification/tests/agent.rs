use restate_szamlazz::agent::{credentials_check, CredentialsCheck};
use restate_szamlazz::gateway::ProbeOutcome;

#[test]
fn the_probe_outcome_is_data() {
    assert_eq!(credentials_check(ProbeOutcome::Accepted), CredentialsCheck::Accepted);
    assert_eq!(
        credentials_check(ProbeOutcome::CredentialsRejected {
            code: "3".to_owned(),
            message: "Sikertelen bejelentkezés.".to_owned(),
        }),
        CredentialsCheck::Rejected {
            code: "3".to_owned(),
            message: "Sikertelen bejelentkezés.".to_owned(),
        }
    );
}

use restate_szamlazz::agent::{
    query_response, set_payments_response, set_payments_unknown, taxpayer_prefix, taxpayer_step, taxpayer_response,
};
use restate_szamlazz::amount::Amount;
use restate_szamlazz::fault::{read_exhausted, verified_document, RunEnd};
use restate_szamlazz::gateway::{
    e_invoice_of_appearance, project_order_number, request_code_text, Date, FoundDocument, QueryOutcome,
    SetPaymentsOutcome, SzamlazzAnswer, TaxpayerOutcome,
};
use restate_szamlazz::storno::{unmanaged_storno_verdict, StornoOutcome, StornoVerdict};

fn doc(number: &str, tipus: &str, order: Option<&str>) -> FoundDocument {
    FoundDocument {
        number: number.to_owned(),
        document_type: tipus.to_owned(),
        reversed: None,
        order_number: project_order_number(order),
        referenced_proforma: None,
        referenced_invoice: None,
        gross: Amount { mantissa: 12700, scale: 0 },
        net: Amount { mantissa: 10000, scale: 0 },
        test: true,
        e_invoice: e_invoice_of_appearance(1),
        supplier_id: Some(42),
        document_id: Some(1),
        payments: Vec::new(),
        adopted: false,
        fulfillment_date: Some(Date { year: 2026, month: 9, day: 1 }),
    }
}

#[test]
fn a_sixth_credit_entry_is_invalid_input() {
    let outcome = SetPaymentsOutcome::Rejected {
        code: request_code_text().to_owned(),
        message: "a credit-entry request can contain at most five entries".to_owned(),
    };
    let fault = set_payments_response(outcome, "SZ-1".to_owned(), false).expect_err("a fault");
    assert_eq!(fault.status(), Some(400));
    assert_eq!(fault.code.as_str(), "invalid_input");
    assert_eq!(fault.szamlazz_code, None);
    assert!(fault.message.contains("at most five entries"), "{}", fault.message);
}

#[test]
fn a_refused_credit_entry_is_a_szamlazz_error_carrying_the_code() {
    let outcome = SetPaymentsOutcome::Rejected {
        code: "259".to_owned(),
        message: "A számla nem található.".to_owned(),
    };
    let fault = set_payments_response(outcome, "SZ-1".to_owned(), false).expect_err("a fault");
    assert_eq!(fault.status(), Some(422));
    assert_eq!(fault.code.as_str(), "szamlazz_error");
    assert_eq!(fault.szamlazz_code.as_deref(), Some("259"));
    assert!(fault.message.contains("259"), "{}", fault.message);
    assert!(fault.message.contains("A számla nem található."), "{}", fault.message);
    assert!(fault.message.contains("SZ-1"), "names the invoice: {}", fault.message);
}

#[test]
fn query_answers_a_miss_as_not_found_and_passes_another_code_through() {
    let fault = query_response(QueryOutcome::NotFound).expect_err("a fault");
    assert_eq!(fault.status(), Some(404));
    assert_eq!(fault.code.as_str(), "not_found");
    assert_eq!(fault.szamlazz_code, None);

    let fault = query_response(QueryOutcome::Api(SzamlazzAnswer::new("57", "Hibás számlaszám."))).expect_err("a fault");
    assert_eq!(fault.status(), Some(422));
    assert_eq!(fault.code.as_str(), "szamlazz_error");
    assert_eq!(fault.szamlazz_code.as_deref(), Some("57"));
    assert!(fault.message.contains("Hibás számlaszám."), "{}", fault.message);

    let fault = query_response(QueryOutcome::CredentialsRejected(SzamlazzAnswer::new(
        "3",
        "Sikertelen bejelentkezés.",
    )))
    .expect_err("a fault");
    assert_eq!(fault.status(), Some(503));
    assert_eq!(fault.code.as_str(), "credentials_rejected");
    assert_eq!(fault.szamlazz_code.as_deref(), Some("3"));
}

#[test]
fn query_taxpayer_passes_a_nav_code_through() {
    let outcome = TaxpayerOutcome::Api {
        code: "NAV_ERROR".to_owned(),
        message: "A NAV szolgáltatás nem elérhető.".to_owned(),
    };
    let fault = taxpayer_response(outcome).expect_err("a fault");
    assert_eq!(fault.status(), Some(422));
    assert_eq!(fault.code.as_str(), "szamlazz_error");
    assert_eq!(fault.szamlazz_code.as_deref(), Some("NAV_ERROR"));
}

#[test]
fn agent_storno_answers_an_unknown_invoice_as_not_found() {
    let fault = verified_document(QueryOutcome::NotFound, "SZ-9").expect_err("a fault");
    assert_eq!(fault.status(), Some(404));
    assert_eq!(fault.code.as_str(), "not_found");
    assert!(fault.message.contains("SZ-9"), "{}", fault.message);
    assert_eq!(fault.order, None, "a by-number fault");
}

#[test]
fn agent_the_unmanaged_storno_verdict_redirects_managed_documents_and_proceeds_on_the_rest() {
    for managed in [Some("ORD-1"), Some("  ORD-1 ")] {
        let mut d = doc("SZ-1", "SZ", managed);
        d.reversed = Some(true);
        let StornoVerdict::Answered(response) = unmanaged_storno_verdict(&d, "SZ-1") else {
            panic!("rendelesszam {managed:?} is answered");
        };
        assert_eq!(response.outcome, StornoOutcome::ManagedByOrder, "{managed:?}");
        assert_eq!(response.order_key.as_deref(), Some("ORD-1"), "{managed:?}");
        assert_eq!(response.invoice_number, "SZ-1", "{managed:?}");
        assert_eq!(response.storno_number, None, "{managed:?}");
        assert_eq!(response.conflict_reason, None, "{managed:?}");
    }
    for (unmanaged, tipus) in [(None, "SZ"), (Some(""), "SZ"), (Some("  "), "SZ"), (None, "D")] {
        assert_eq!(
            unmanaged_storno_verdict(&doc("X-1", tipus, unmanaged), "X-1"),
            StornoVerdict::Proceed,
            "rendelesszam {unmanaged:?}, {tipus}"
        );
    }
    for raw in ["", "   "] {
        assert_eq!(unmanaged_storno_verdict(&doc("SZ-1", "SZ", Some(raw)), "SZ-1"), StornoVerdict::Proceed);
    }
    let StornoVerdict::Answered(response) = unmanaged_storno_verdict(&doc("SZ-1", "SZ", Some(" ORD-1 ")), "SZ-1")
    else {
        panic!("a padded order number is answered");
    };
    assert_eq!(response.order_key.as_deref(), Some("ORD-1"));
    let mut gone = doc("SZ-1", "SZ", None);
    gone.reversed = Some(true);
    assert_eq!(unmanaged_storno_verdict(&gone, "SZ-1"), StornoVerdict::AlreadyReversed);
}

#[test]
fn the_set_payments_fault_tells_an_additive_caller_to_query_first() {
    let additive = set_payments_unknown(true, "connection reset");
    assert_eq!(additive.status(), Some(500));
    assert!(additive.message.contains("connection reset"), "{}", additive.message);
    assert!(additive.message.contains("query the invoice before re-sending"), "{}", additive.message);
    assert!(!additive.message.contains("call set_payments again"), "{}", additive.message);

    let replacing = set_payments_unknown(false, "connection reset");
    assert_eq!(replacing.status(), Some(500));
    assert!(replacing.message.contains("call set_payments again"), "{}", replacing.message);
    assert!(!replacing.message.contains("query the invoice"), "{}", replacing.message);
}

#[test]
fn a_full_tax_number_and_its_stem_name_the_same_step() {
    let stem = taxpayer_prefix("12345678").expect("stem");
    let full = taxpayer_prefix("12345678-2-42").expect("full");
    assert_eq!(stem, full);
    assert_eq!(taxpayer_step(&stem), "taxpayer-12345678");
    assert_eq!(taxpayer_step(&full), "taxpayer-12345678");
}

#[test]
fn a_tax_number_in_neither_form_is_invalid_input() {
    for tax_number in [
        "",
        "1234567",
        "123456789",
        " 12345678",
        "12345678 ",
        "12345678-2",
        "12345678-2-4",
        "12345678-2-423",
        "12345678-24-2",
        "12345678_2_42",
        "1234567a",
        "12345678-a-42",
        "１２３４５６７８",
        "12 345 678",
    ] {
        let fault = taxpayer_prefix(tax_number).expect_err(tax_number);
        assert_eq!(fault.status(), Some(400), "{tax_number:?}");
        assert_eq!(fault.code.as_str(), "invalid_input", "{tax_number:?}");
        assert!(fault.message.contains(&format!("{tax_number:?}")), "{tax_number:?} is named: {}", fault.message);
        assert!(
            fault.message.contains("(12345678)") && fault.message.contains("(12345678-2-42)"),
            "{tax_number:?} names both accepted forms: {}",
            fault.message
        );
        assert_eq!(fault.order, None, "a by-number fault carries no order");
    }
}

#[test]
fn an_exhausted_taxpayer_read_is_unavailable_naming_the_step() {
    let prefix = taxpayer_prefix("12345678-2-42").expect("full");
    let last = RunEnd {
        code: 500,
        message: "szamlazz.hu is unavailable: maintenance".to_owned(),
        initialization: None,
    };
    let fault = read_exhausted(&taxpayer_step(&prefix), &last);
    assert_eq!(fault.status(), Some(503));
    assert_eq!(fault.code.as_str(), "unavailable");
    assert!(fault.message.contains("taxpayer-12345678"), "{}", fault.message);
    assert!(fault.message.contains("maintenance"), "names the last failure: {}", fault.message);
    assert!(!fault.message.contains("12345678-2-42"), "the step, not the input: {}", fault.message);
}
