use restate_szamlazz::fault::{
    accept_decoded_fault, best_effort, order_key, read_exhausted, terminal_status, AnsweredCode, Fault, FaultCode,
    FaultConversionError, RunEnd, TerminalCode,
};
use restate_szamlazz::gateway::SzamlazzAnswer;
use restate_szamlazz::identity::{ExternalId, OrderKey, ORDER_KEY_MAX_LEN};
use restate_szamlazz::kinds::IssuedKind;

fn end(code: u16, message: &str) -> RunEnd {
    RunEnd { code, message: message.to_owned(), initialization: None }
}

#[test]
fn faults_serialise_their_code_and_status() {
    let order = OrderKey::parse("ORD-1").expect("order");
    let fault = Fault::outcome_unknown("exhausted".to_owned()).about(
        &order,
        Some(IssuedKind::Invoice),
        &ExternalId::new("acct:ORD-1:invoice"),
    );
    assert_eq!(fault.status(), Some(500));
    assert_eq!(fault.code.as_str(), TerminalCode::OutcomeUnknown.as_str());
    assert_eq!(fault.order.as_deref(), Some("ORD-1"));
    assert_eq!(fault.kind, Some(IssuedKind::Invoice));
    assert_eq!(fault.external_id.as_deref(), Some("acct:ORD-1:invoice"));

    let cases = [
        (Fault::invalid_input("x".to_owned()), 400, "invalid_input"),
        (Fault::unavailable("x".to_owned()), 503, "unavailable"),
        (Fault::missing_fulfillment_date("SZ-1"), 503, "unavailable"),
        (AnsweredCode::CredentialsRejected(SzamlazzAnswer::new("3", "x")).into_fault(), 503, "credentials_rejected"),
        (Fault::unknown_account("x".to_owned()), 400, "unknown_account"),
        (Fault::not_found("x".to_owned()), 404, "not_found"),
        (Fault::szamlazz_error(&SzamlazzAnswer::new("152", "x")), 422, "szamlazz_error"),
    ];
    for (fault, status, code) in cases {
        assert_eq!(fault.status(), Some(status));
        assert_eq!(fault.code.as_str(), code);
        assert_eq!(fault.order, None);
    }
}

#[test]
fn a_szamlazz_code_travels_in_its_own_field() {
    let fault = Fault::szamlazz_error(&SzamlazzAnswer::new("152", "Már létezik ilyen rendelésszámú számla."));
    assert_eq!(fault.status(), Some(422));
    assert_eq!(fault.code.as_str(), "szamlazz_error");
    assert_eq!(fault.szamlazz_code.as_deref(), Some("152"));
    assert!(fault.message.contains("152"), "{}", fault.message);
    assert!(fault.message.contains("Már létezik ilyen rendelésszámú számla."), "{}", fault.message);

    for fault in [
        Fault::invalid_input("x".to_owned()),
        Fault::not_found("x".to_owned()),
        Fault::unavailable("x".to_owned()),
        Fault::szlahu_down_answer("x"),
        Fault::outcome_unknown("x".to_owned()),
        Fault::unknown_account("x".to_owned()),
        Fault::missing_fulfillment_date("SZ-1"),
    ] {
        assert_eq!(fault.szamlazz_code, None, "{fault:?}");
    }
}

#[test]
fn an_answered_code_maps_onto_its_fault_and_only_a_credential_code_pages() {
    let table = [
        (
            AnsweredCode::CredentialsRejected(SzamlazzAnswer::new("136", "Bejelentkezés letiltva")),
            503,
            TerminalCode::CredentialsRejected,
            "136",
            "the outcome is not known",
        ),
        (
            AnsweredCode::Inconclusive(SzamlazzAnswer::new("57", "Hibás XML.")),
            503,
            TerminalCode::Unavailable,
            "57",
            "nothing may be concluded",
        ),
        (
            AnsweredCode::PassedThrough(SzamlazzAnswer::new("OPERATION_FAILED", "A NAV szolgáltatás nem elérhető.")),
            422,
            TerminalCode::SzamlazzError,
            "OPERATION_FAILED",
            "szamlazz.hu error",
        ),
    ];
    for (code, status, terminal, szamlazz_code, phrase) in table {
        let label = format!("{code:?}");
        let fault = code.into_fault();
        assert_eq!(fault.status(), Some(status), "{label}");
        assert_eq!(fault.code, FaultCode::Known(terminal), "{label}");
        assert_eq!(fault.szamlazz_code.as_deref(), Some(szamlazz_code), "{label}");
        assert!(fault.message.contains(szamlazz_code), "{label}: {}", fault.message);
        assert!(fault.message.contains(phrase), "{label}: {}", fault.message);
        assert!(
            fault.message.contains("Idempotency-Key") || terminal == TerminalCode::SzamlazzError,
            "{label}: {}",
            fault.message
        );
        assert!(!fault.message.contains("attempt"), "{label}: {}", fault.message);
        assert!(!fault.message.contains("issued nothing"), "{label}: {}", fault.message);
        assert_eq!(fault.order, None, "{label}: nothing attached");
    }
}

#[test]
fn credentials_rejected_fault_carries_the_document_when_attached() {
    let order = OrderKey::parse("ORD-1").expect("order");
    let fault = AnsweredCode::CredentialsRejected(SzamlazzAnswer::new("136", "Bejelentkezés letiltva"))
        .into_fault()
        .about(&order, Some(IssuedKind::Invoice), &ExternalId::new("acct:ORD-1:invoice"));
    assert_eq!(fault.status(), Some(503));
    assert_eq!(fault.code.as_str(), "credentials_rejected");
    assert_eq!(fault.szamlazz_code.as_deref(), Some("136"));
    assert_eq!(fault.order.as_deref(), Some("ORD-1"));
    assert_eq!(fault.kind, Some(IssuedKind::Invoice));
    assert_eq!(fault.external_id.as_deref(), Some("acct:ORD-1:invoice"));
}

#[test]
fn an_exhausted_read_is_a_structured_unavailable() {
    let last = end(500, "transport failure: error decoding response body: empty response");
    let fault = read_exhausted("lookup-invoice", &last);
    assert_eq!(fault.status(), Some(503));
    assert_eq!(fault.code.as_str(), "unavailable");
    assert!(fault.message.contains("lookup-invoice"), "{}", fault.message);
    assert!(fault.message.contains("empty response"), "{}", fault.message);
    assert!(fault.message.contains("500"), "{}", fault.message);
    assert!(fault.message.contains("Idempotency-Key"), "{}", fault.message);
    assert_eq!(fault.order, None, "nothing attached yet");

    let order = OrderKey::parse("ORD-1").expect("order");
    let about = fault.about(&order, Some(IssuedKind::Invoice), &ExternalId::new("acct:ORD-1:invoice"));
    assert_eq!(about.order.as_deref(), Some("ORD-1"));
    assert_eq!(about.kind, Some(IssuedKind::Invoice));
    assert_eq!(about.external_id.as_deref(), Some("acct:ORD-1:invoice"));

    let fault = read_exhausted("lookup-proforma", &end(409, "cancelled"));
    assert_eq!(fault.status(), Some(503), "a cancellation is the same fault code");
    assert!(fault.message.contains("lookup-proforma"), "{}", fault.message);
    assert!(fault.message.contains("cancelled") && fault.message.contains("(409)"), "{}", fault.message);
    assert!(!fault.message.contains("retry"), "a cancelled request is not told to retry: {}", fault.message);
}

#[test]
fn a_best_effort_read_swallows_exhaustion_but_propagates_a_cancellation() {
    best_effort("hint-storno-SZ-1", end(500, "szamlazz.hu is unavailable: maintenance")).expect("exhaustion is swallowed");
    let error = best_effort("hint-storno-SZ-1", end(409, "cancelled")).expect_err("a cancellation propagates");
    assert_eq!(error.code, 409);
    assert_eq!(error.message, "cancelled");
}

#[test]
fn the_order_key_must_arrive_trimmed() {
    let key = order_key("ORD-1").expect("a trimmed key");
    assert_eq!(key.as_str(), "ORD-1");
    let key = order_key("rendelés-42").expect("non-ASCII text in NFC is fine");
    assert_eq!(key.as_str(), "rendelés-42");

    for raw in [" ORD-1", "ORD-1 ", "\tORD-1", "ORD-1\n", "\u{a0}ORD-1"] {
        assert_eq!(OrderKey::parse(raw).expect("the type trims").as_str(), "ORD-1", "{raw:?}");
        let fault = order_key(raw).expect_err("refused");
        assert_eq!(fault.status(), Some(400), "{raw:?}");
        assert_eq!(fault.code.as_str(), "invalid_input", "{raw:?}");
        assert!(fault.message.contains("must not have leading or trailing whitespace"), "{raw:?}: {}", fault.message);
        assert_eq!(fault.order, None, "{raw:?}: no order identity yet");
    }

    let too_long = "x".repeat(ORDER_KEY_MAX_LEN + 1);
    for (raw, rule) in [
        ("rendelés #42", "must not contain whitespace"),
        ("a\u{a0}b", "must not contain whitespace"),
        ("ORD:1", "must not contain ':'"),
        ("rendele\u{301}s-42", "must be in Unicode NFC"),
        (too_long.as_str(), "at most 40 are allowed"),
    ] {
        let fault = order_key(raw).expect_err(rule);
        assert_eq!(fault.status(), Some(400), "{raw:?}");
        assert_eq!(fault.code.as_str(), "invalid_input", "{raw:?}");
        assert!(fault.message.contains(rule), "{raw:?}: names the rule: {}", fault.message);
        assert_eq!(fault.order, None, "{raw:?}: no order identity yet");
    }
}

#[test]
fn every_known_code_keeps_its_status_and_token() {
    for code in TerminalCode::KNOWN {
        let fault = Fault::new(code, "known fault".to_owned()).with_szamlazz_code("999");
        let expected_status = fault.status().expect("known status");
        assert_eq!(terminal_status(&fault), Ok(expected_status));
        assert_eq!(FaultCode::from_token(code.as_str()), FaultCode::Known(code));
    }
}

#[test]
fn an_unknown_code_is_kept_verbatim_and_refused_a_status() {
    let code = FaultCode::from_token("future_fault/é");
    assert_eq!(code, FaultCode::Unknown("future_fault/é".to_owned()));
    let fault = Fault::with_code(code, "new worker decision".to_owned());
    assert_eq!(fault.status(), None);
    assert_eq!(fault.code.as_str(), "future_fault/é");
    assert_eq!(
        terminal_status(&fault),
        Err(FaultConversionError::UnknownStatus { code: "future_fault/é".to_owned() })
    );
    // A caller keeps such a fault as it was decoded, whatever status carried it.
    let kept = accept_decoded_fault(500, Some("invocation"), 500, "invocation", fault).expect("kept as is");
    assert_eq!(kept.code.as_str(), "future_fault/é");
}

#[test]
fn an_untrimmed_key_is_quoted_as_debug_writes_it() {
    let fault = order_key("\tORD-1").expect_err("refused");
    assert!(fault.message.starts_with("invalid order key \"\\tORD-1\": "), "{}", fault.message);
    let fault = order_key(" ORD-1").expect_err("refused");
    assert!(fault.message.starts_with("invalid order key \" ORD-1\": "), "{}", fault.message);
}
