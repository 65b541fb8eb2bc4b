use restate_szamlazz::amount::Amount;
use restate_szamlazz::gateway::{e_invoice_of_appearance, project_order_number, Date, FoundDocument};
use restate_szamlazz::identity::{ExternalId, OrderKey};
use restate_szamlazz::kinds::{document_type_of, is_invoice_family, is_live_kind, DocumentKind, IssuedKind};
use restate_szamlazz::szamla_agent::{
    classify_failure, classify_hint, credit_entries_refusal, delete_result, outcome, query_error, set_payments_result,
    storno_precheck, storno_result, AgentConfig, ClientFailure, CreateReply, CreditEntry, DeleteOutcome, Failure,
    IssueAction, IssueAttempt, IssueEvent, IssueOutcome, IssueRequest, QueryError, QueryOutcome, Selector,
    SetPaymentsOutcome, StornoAction, StornoAttempt, StornoEvent, StornoOutcome, StornoReply, SzamlaAgent,
};

fn doc(number: &str, tipus: &str) -> FoundDocument {
    FoundDocument {
        number: number.to_owned(),
        document_type: tipus.to_owned(),
        reversed: None,
        order_number: project_order_number(Some("ORD-1")),
        referenced_proforma: None,
        referenced_invoice: None,
        gross: Amount { mantissa: 1270, scale: 0 },
        net: Amount { mantissa: 1000, scale: 0 },
        test: true,
        e_invoice: e_invoice_of_appearance(1),
        supplier_id: Some(42),
        document_id: Some(1),
        payments: Vec::new(),
        adopted: false,
        fulfillment_date: Some(Date { year: 2026, month: 9, day: 1 }),
    }
}

fn request(kind: IssuedKind, check_hint: bool) -> IssueRequest {
    IssueRequest {
        external_id: ExternalId::new("acct:ORD-1:invoice"),
        kind,
        order: OrderKey::parse("ORD-1").expect("order"),
        check_hint,
        our_numbers: vec!["D-1".to_owned()],
        our_proforma: Some("D-1".to_owned()),
        expect_supplier_id: Some(42),
        expect_test: true,
    }
}

fn api(code: &str) -> ClientFailure {
    ClientFailure::Api { code: code.to_owned(), message: "m".to_owned() }
}

#[test]
fn the_document_types_of_the_kinds() {
    assert_eq!(document_type_of(IssuedKind::Proforma), "D");
    assert_eq!(document_type_of(IssuedKind::Invoice), "SZ");
    assert_eq!(document_type_of(IssuedKind::Prepayment), "ES");
    assert_eq!(document_type_of(IssuedKind::Final), "VS");
    assert_eq!(document_type_of(IssuedKind::Corrective), "HS");
    assert!(is_live_kind(DocumentKind::Final, "VS"));
    assert!(!is_live_kind(DocumentKind::Final, "SZ"));
    for tipus in ["SZ", "ES", "VS"] {
        assert!(is_invoice_family(tipus), "{tipus}");
    }
    for tipus in ["D", "SS", "HS", "SL", ""] {
        assert!(!is_invoice_family(tipus), "{tipus}");
    }
}

#[test]
fn a_failed_create_is_classified_by_its_code() {
    assert!(matches!(classify_failure(api("71")), Failure::Duplicate { code, .. } if code == "71"));
    assert!(matches!(classify_failure(api("152")), Failure::Duplicate { code, .. } if code == "152"));
    for code in ["1", "55", "56"] {
        assert!(matches!(classify_failure(api(code)), Failure::Unknown { code: Some(c), .. } if c == code));
    }
    assert!(matches!(classify_failure(api("259")), Failure::Rejected { code, .. } if code == "259"));
    assert!(matches!(
        classify_failure(ClientFailure::ServiceUnavailable { message: "down".to_owned(), text: "t".to_owned() }),
        Failure::Unknown { code: None, message } if message == "down"
    ));
    assert!(matches!(
        classify_failure(ClientFailure::Request { message: "bad".to_owned() }),
        Failure::Rejected { code, message } if code == "request" && message == "bad"
    ));
    assert!(matches!(
        classify_failure(ClientFailure::Transport { message: "reset".to_owned() }),
        Failure::Transport { message } if message == "reset"
    ));
}

#[test]
fn a_query_failure_is_not_found_only_on_code_7() {
    assert_eq!(query_error(api("7")), QueryError::NotFound);
    assert_eq!(query_error(api("57")), QueryError::Api { code: "57".to_owned(), message: "m".to_owned() });
    assert_eq!(
        outcome(Err(QueryError::Unavailable { message: "maintenance".to_owned() })),
        QueryOutcome::Transport("szamlazz.hu is unavailable: maintenance".to_owned())
    );
    assert_eq!(outcome(Err(QueryError::NotFound)), QueryOutcome::NotFound);
    assert_eq!(QueryError::NotFound.message(), "szamlazz.hu does not know the document (code 7)");
}

#[test]
fn the_hint_adopts_the_conversion_of_our_proforma_and_calls_anything_else_foreign() {
    let req = request(IssuedKind::Invoice, true);
    let mut conversion = doc("SZ-5", "SZ");
    conversion.referenced_proforma = Some("D-1".to_owned());
    let Some(IssueOutcome::Found(found)) = classify_hint(conversion, &req) else {
        panic!("the conversion of our proforma is ours");
    };
    assert!(found.adopted);
    assert_eq!(found.number, "SZ-5");

    let Some(IssueOutcome::Foreign(found)) = classify_hint(doc("SZ-6", "SZ"), &req) else {
        panic!("a live invoice the ledger does not know is foreign");
    };
    assert!(!found.adopted);

    assert_eq!(classify_hint(doc("D-1", "D"), &req), None, "not an invoice");
    let mut gone = doc("SZ-7", "SZ");
    gone.reversed = Some(true);
    assert_eq!(classify_hint(gone, &req), None, "reversed");
    assert_eq!(classify_hint(doc("D-1", "SZ"), &req), None, "a number of ours");

    let final_req = request(IssuedKind::Final, true);
    let mut final_conversion = doc("VS-1", "VS");
    final_conversion.referenced_proforma = Some("D-1".to_owned());
    let Some(IssueOutcome::Found(found)) = classify_hint(final_conversion, &final_req) else {
        panic!("a final invoice of the issued kind referencing our proforma is ours");
    };
    assert!(found.adopted);
    let mut other_kind = doc("ES-1", "ES");
    other_kind.referenced_proforma = Some("D-1".to_owned());
    assert!(matches!(classify_hint(other_kind, &req), Some(IssueOutcome::Foreign(_))), "not the issued kind");
}

#[test]
fn nothing_is_created_unless_the_external_id_is_free() {
    let mut attempt = IssueAttempt::new(request(IssuedKind::Invoice, false));
    assert!(matches!(attempt.step(IssueEvent::Begin), IssueAction::QueryExternalId));
    let IssueAction::Finish(IssueOutcome::Transport(text)) =
        attempt.step(IssueEvent::Queried(Err(QueryError::Transport { message: "reset".to_owned() })))
    else {
        panic!("a failed check never creates");
    };
    assert_eq!(text, "transport failure: reset");

    let mut attempt = IssueAttempt::new(request(IssuedKind::Invoice, false));
    attempt.step(IssueEvent::Begin);
    let IssueAction::Finish(IssueOutcome::Found(found)) = attempt.step(IssueEvent::Queried(Ok(doc("SZ-1", "SZ")))) else {
        panic!("ours is found");
    };
    assert_eq!(found.number, "SZ-1");

    let mut attempt = IssueAttempt::new(request(IssuedKind::Invoice, false));
    attempt.step(IssueEvent::Begin);
    let mut other = doc("SZ-1", "SZ");
    other.order_number = project_order_number(Some("ORD-2"));
    assert!(matches!(
        attempt.step(IssueEvent::Queried(Ok(other))),
        IssueAction::Finish(IssueOutcome::Collision(_))
    ));
}

#[test]
fn a_duplicate_order_number_is_requeried_before_it_is_reported() {
    let mut attempt = IssueAttempt::new(request(IssuedKind::Invoice, true));
    attempt.step(IssueEvent::Begin);
    assert!(matches!(attempt.step(IssueEvent::Queried(Err(QueryError::NotFound))), IssueAction::QueryOrderNumber));
    assert!(matches!(attempt.step(IssueEvent::Queried(Err(QueryError::NotFound))), IssueAction::Create));
    assert!(matches!(attempt.step(IssueEvent::Created(Err(api("152")))), IssueAction::QueryExternalId));
    let IssueAction::Finish(IssueOutcome::DuplicateOrderNumber { code, .. }) =
        attempt.step(IssueEvent::Queried(Err(QueryError::NotFound)))
    else {
        panic!("the duplicate after a re-query that found nothing");
    };
    assert_eq!(code, "152");
}

#[test]
fn a_numbered_create_is_issued_and_an_unnumbered_one_unknown() {
    let reply = |number: Option<&str>| CreateReply {
        invoice_number: number.map(str::to_owned),
        net_total: Some(Amount { mantissa: 1000, scale: 0 }),
        gross_total: Some(Amount { mantissa: 1270, scale: 0 }),
        outstanding: Some(Amount { mantissa: 1270, scale: 0 }),
        customer_account_url: None,
        document_id: Some(9),
        notification_delivery_failed: false,
    };
    let mut attempt = IssueAttempt::new(request(IssuedKind::Invoice, false));
    attempt.step(IssueEvent::Begin);
    attempt.step(IssueEvent::Queried(Err(QueryError::NotFound)));
    let IssueAction::Finish(IssueOutcome::Issued(issued)) = attempt.step(IssueEvent::Created(Ok(reply(Some("SZ-2"))))) else {
        panic!("issued");
    };
    assert_eq!(issued.number, "SZ-2");

    let mut attempt = IssueAttempt::new(request(IssuedKind::Invoice, false));
    attempt.step(IssueEvent::Begin);
    attempt.step(IssueEvent::Queried(Err(QueryError::NotFound)));
    assert!(matches!(
        attempt.step(IssueEvent::Created(Ok(reply(None)))),
        IssueAction::Finish(IssueOutcome::Unknown { code: None, .. })
    ));
}

#[test]
fn a_storno_already_under_its_id_is_not_sent_again() {
    let attempt = StornoAttempt {
        invoice_number: "SZ-1".to_owned(),
        external_id: ExternalId::new("acct:ORD-1:storno:SZ-1"),
        comment: None,
        e_invoice: false,
    };
    let mut storno = doc("SS-1", "SS");
    storno.referenced_invoice = Some("SZ-1".to_owned());
    assert_eq!(
        storno_precheck(Ok(storno), &attempt),
        Some(StornoOutcome::AlreadyReversed { storno_number: "SS-1".to_owned() })
    );
    assert_eq!(storno_precheck(Ok(doc("SZ-1", "SZ")), &attempt), None);
    assert_eq!(storno_precheck(Err(QueryError::NotFound), &attempt), None);
    assert_eq!(
        storno_precheck(Err(QueryError::Transport { message: "reset".to_owned() }), &attempt),
        Some(StornoOutcome::Transport("transport failure: reset".to_owned()))
    );

    let reply = |reverses: bool| StornoReply {
        invoice_number: "SS-2".to_owned(),
        gross_total: Some(Amount { mantissa: -1270, scale: 0 }),
        document_id: Some(3),
        reverses,
    };
    assert_eq!(
        storno_result(Ok(reply(true))),
        StornoOutcome::Reversed {
            storno_number: "SS-2".to_owned(),
            gross: Some(Amount { mantissa: -1270, scale: 0 }),
            document_id: Some(3)
        }
    );
    assert_eq!(storno_result(Ok(reply(false))), StornoOutcome::NotStornoable);
    assert_eq!(storno_result(Err(api("14"))), StornoOutcome::Rejected { code: "14".to_owned(), message: "m".to_owned() });
    assert_eq!(storno_result(Err(api("55"))), StornoOutcome::Unknown { code: Some("55".to_owned()), message: "m".to_owned() });
}

#[test]
fn a_proforma_gone_since_is_already_gone() {
    assert_eq!(delete_result(Ok(())), DeleteOutcome::Deleted);
    assert_eq!(delete_result(Err(api("335"))), DeleteOutcome::AlreadyGone);
    assert_eq!(delete_result(Err(api("57"))), DeleteOutcome::Rejected { code: "57".to_owned(), message: "m".to_owned() });
    assert_eq!(
        delete_result(Err(ClientFailure::Transport { message: "reset".to_owned() })),
        DeleteOutcome::Transport("reset".to_owned())
    );
}

#[test]
fn a_sixth_credit_entry_never_reaches_szamlazz() {
    assert_eq!(credit_entries_refusal(5), None);
    assert_eq!(
        credit_entries_refusal(6),
        Some(SetPaymentsOutcome::Rejected {
            code: "request".to_owned(),
            message: "a credit-entry request can contain at most five entries".to_owned()
        })
    );
    assert_eq!(
        set_payments_result(Err(ClientFailure::Request { message: "bad date".to_owned() })),
        SetPaymentsOutcome::Rejected { code: "request".to_owned(), message: "bad date".to_owned() }
    );
    assert_eq!(
        set_payments_result(Ok((Some(Amount { mantissa: 0, scale: 0 }), None))),
        SetPaymentsOutcome::Done { outstanding: Some(Amount { mantissa: 0, scale: 0 }), gross: None }
    );
}

fn agent() -> SzamlaAgent {
    SzamlaAgent::new(AgentConfig { aggregator: Some("partner".to_owned()), guardian: true })
}

fn entry(day: u8) -> CreditEntry {
    CreditEntry {
        date: Date { year: 2026, month: 9, day },
        method: "transfer".to_owned(),
        amount: Amount { mantissa: 100, scale: 0 },
        description: None,
    }
}

#[test]
fn the_agent_names_its_queries_and_carries_its_settings() {
    let a = agent();
    assert_eq!(a.config(), &AgentConfig { aggregator: Some("partner".to_owned()), guardian: true });
    assert_eq!(a.verify("E-1"), Selector::InvoiceNumber("E-1".to_owned()));
    assert_eq!(a.hint(&OrderKey::parse("ORD-1").expect("order")), Selector::OrderNumber("ORD-1".to_owned()));
    let attempt = a.issue(request(IssuedKind::Invoice, false));
    assert_eq!(attempt.request(), &request(IssuedKind::Invoice, false));
}

#[test]
fn a_storno_request_never_carries_an_issue_date() {
    let a = agent();
    let attempt = StornoAttempt {
        invoice_number: "E-1".to_owned(),
        external_id: ExternalId::new("acct:ORD-1:storno:E-1"),
        comment: Some("why".to_owned()),
        e_invoice: true,
    };
    let r = a.storno(&attempt);
    assert_eq!(r.invoice_number, "E-1");
    assert_eq!(r.external_id, "acct:ORD-1:storno:E-1");
    assert_eq!(r.comment, Some("why".to_owned()));
    assert!(r.e_invoice);
    assert_eq!(r.aggregator, Some("partner".to_owned()));
    assert!(r.guardian);
    assert_eq!(r.issue_date, None);
}

#[test]
fn the_agent_refuses_six_credit_entries_before_sending() {
    let a = agent();
    let five: Vec<CreditEntry> = (1..=5).map(entry).collect();
    let ok = a.set_payments("E-1", five, true).expect("five entries are sent");
    assert_eq!(ok.invoice_number, "E-1");
    assert!(ok.additive);
    assert_eq!(ok.entries.len(), 5);
    assert_eq!(ok.aggregator, Some("partner".to_owned()));
    let six: Vec<CreditEntry> = (1..=6).map(entry).collect();
    assert_eq!(
        a.set_payments("E-1", six, false),
        Err(SetPaymentsOutcome::Rejected {
            code: "request".to_owned(),
            message: "a credit-entry request can contain at most five entries".to_owned()
        })
    );
}

fn storno_attempt() -> StornoAttempt {
    StornoAttempt {
        invoice_number: "SZ-1".to_owned(),
        external_id: ExternalId::new("acct:ORD-1:storno:SZ-1"),
        comment: Some("why".to_owned()),
        e_invoice: false,
    }
}

#[test]
fn a_storno_attempt_queries_first_and_sends_once() {
    let a = agent();
    let mut run = a.storno_run(storno_attempt());
    let StornoAction::QueryExternalId { external_id } = run.step(StornoEvent::Begin) else {
        panic!("query first");
    };
    assert_eq!(external_id, "acct:ORD-1:storno:SZ-1");
    let StornoAction::Send(request) = run.step(StornoEvent::Queried(Err(QueryError::NotFound))) else {
        panic!("code 7 lets the storno be sent");
    };
    assert_eq!(request.invoice_number, "SZ-1");
    assert_eq!(request.external_id, "acct:ORD-1:storno:SZ-1");
    assert_eq!(request.issue_date, None);
    let reply = StornoReply {
        invoice_number: "SS-2".to_owned(),
        gross_total: None,
        document_id: Some(3),
        reverses: true,
    };
    assert_eq!(
        run.step(StornoEvent::Sent(Ok(reply))),
        StornoAction::Finish(StornoOutcome::Reversed { storno_number: "SS-2".to_owned(), gross: None, document_id: Some(3) })
    );
    assert!(matches!(run.step(StornoEvent::Queried(Err(QueryError::NotFound))), StornoAction::Finish(StornoOutcome::Transport(_))));
}

#[test]
fn a_storno_attempt_sends_nothing_after_an_existing_storno_or_a_failed_query() {
    let a = agent();
    let mut run = a.storno_run(storno_attempt());
    run.step(StornoEvent::Begin);
    let mut storno = doc("SS-1", "SS");
    storno.referenced_invoice = Some("SZ-1".to_owned());
    assert_eq!(
        run.step(StornoEvent::Queried(Ok(storno))),
        StornoAction::Finish(StornoOutcome::AlreadyReversed { storno_number: "SS-1".to_owned() })
    );

    let mut run = a.storno_run(storno_attempt());
    run.step(StornoEvent::Begin);
    assert_eq!(
        run.step(StornoEvent::Queried(Err(QueryError::Transport { message: "reset".to_owned() }))),
        StornoAction::Finish(StornoOutcome::Transport("transport failure: reset".to_owned()))
    );

    let mut run = a.storno_run(storno_attempt());
    assert!(matches!(
        run.step(StornoEvent::Queried(Err(QueryError::NotFound))),
        StornoAction::Finish(StornoOutcome::Transport(t)) if t == "the storno attempt received an event out of order"
    ));
}
