use restate_szamlazz::amount::Amount;
use restate_szamlazz::gateway::{
    e_invoice_of_appearance, project_order_number, Date, FoundDocument, OwnershipOutcome, SzamlazzAnswer,
};
use restate_szamlazz::identity::{Namespace, OrderKey};
use restate_szamlazz::kinds::DocumentKind;
use restate_szamlazz::status::{
    document_status, order_status, DocumentState, DocumentStatus, OrderStatus, StatusAction, StatusRead,
};

fn doc(number: &str, tipus: &str) -> FoundDocument {
    FoundDocument {
        number: number.to_owned(),
        document_type: tipus.to_owned(),
        reversed: None,
        order_number: project_order_number(Some("ORD-1")),
        referenced_proforma: None,
        referenced_invoice: None,
        gross: Amount { mantissa: 1270, scale: 0 },
        net: Amount { mantissa: 1000, scale: 0 },
        test: true,
        e_invoice: e_invoice_of_appearance(if tipus == "D" { 0 } else { 1 }),
        supplier_id: Some(42),
        document_id: Some(1),
        payments: Vec::new(),
        adopted: false,
        fulfillment_date: Some(Date { year: 2026, month: 9, day: 1 }),
    }
}

fn amount(n: i128) -> Amount {
    Amount { mantissa: n, scale: 0 }
}

fn referencing(mut d: FoundDocument, proforma: Option<&str>) -> Box<FoundDocument> {
    d.referenced_proforma = proforma.map(str::to_owned);
    Box::new(d)
}

#[test]
fn the_document_status_projects_what_szamlazz_reports() {
    let mut paid = doc("SZ-1", "SZ");
    paid.payments = vec![amount(500), amount(770)];
    paid.referenced_proforma = Some("D-1".to_owned());
    paid.e_invoice = e_invoice_of_appearance(1);
    let live = document_status(&paid);
    assert_eq!(live.number, "SZ-1");
    assert_eq!(live.state, DocumentState::Live);
    assert_eq!(live.gross, Some(amount(1270)));
    assert_eq!(live.net, Some(amount(1000)));
    assert_eq!(live.credit_entries, [amount(500), amount(770)]);
    assert_eq!(live.referenced_proforma.as_deref(), Some("D-1"));
    assert_eq!(live.e_invoice, Some(false), "eszamla 1 is paper");

    let mut gone = doc("SZ-1", "SZ");
    gone.reversed = Some(true);
    gone.e_invoice = e_invoice_of_appearance(3);
    let reversed_status = document_status(&gone);
    assert_eq!(reversed_status.state, DocumentState::Reversed { storno_number: None });
    assert!(reversed_status.credit_entries.is_empty());
    assert_eq!(reversed_status.referenced_proforma, None);
    assert_eq!(reversed_status.e_invoice, Some(true), "eszamla 3 is an e-invoice");

    let proforma = document_status(&doc("D-1", "D"));
    assert_eq!(proforma.number, "D-1");
    assert_eq!(proforma.state, DocumentState::Live);
    assert_eq!(proforma.e_invoice, None, "a proforma has no appearance");
}

#[test]
fn the_order_status_derives_a_consumed_proforma_from_its_consumer() {
    let proforma = || Box::new(doc("D-1", "D"));
    let invoice = |referenced: Option<&str>| referencing(doc("SZ-1", "SZ"), referenced);
    let prepayment = |referenced: Option<&str>| referencing(doc("ES-1", "ES"), referenced);
    let other = || {
        let mut d = doc("SZ-OTHER", "SZ");
        d.order_number = project_order_number(Some("ORD-2"));
        Box::new(d)
    };
    let fold = |proforma: OwnershipOutcome, invoice: OwnershipOutcome, prepayment: OwnershipOutcome| {
        order_status(vec![
            (DocumentKind::Proforma, proforma),
            (DocumentKind::Invoice, invoice),
            (DocumentKind::Prepayment, prepayment),
            (DocumentKind::Final, OwnershipOutcome::Absent),
        ])
        .expect("data")
    };
    let consumed_by = |by: &str| Some(DocumentStatus::new("D-1", DocumentState::Consumed { by: by.to_owned() }));

    let status = fold(OwnershipOutcome::Live(proforma()), OwnershipOutcome::Live(invoice(None)), OwnershipOutcome::Collision(other()));
    let found_proforma = status.proforma.as_ref().expect("the proforma slot");
    assert_eq!(found_proforma.number, "D-1");
    assert_eq!(found_proforma.state, DocumentState::Live);
    let found_invoice = status.invoice.as_ref().expect("the invoice slot");
    assert_eq!(found_invoice.number, "SZ-1");
    assert_eq!(found_invoice.state, DocumentState::Live);
    assert_eq!(found_invoice.gross, Some(amount(1270)));
    assert_eq!(status.prepayment, None, "a collision is an empty slot");
    assert_eq!(status.final_invoice, None);

    let status = fold(OwnershipOutcome::Absent, OwnershipOutcome::Live(invoice(Some("D-1"))), OwnershipOutcome::Absent);
    assert_eq!(status.proforma, consumed_by("SZ-1"));
    let status = fold(OwnershipOutcome::Absent, OwnershipOutcome::Absent, OwnershipOutcome::Live(prepayment(Some("D-1"))));
    assert_eq!(status.proforma, consumed_by("ES-1"));
    let status = fold(OwnershipOutcome::Absent, OwnershipOutcome::Live(invoice(Some("D-1"))), OwnershipOutcome::Live(prepayment(Some("D-1"))));
    assert_eq!(status.proforma, consumed_by("SZ-1"), "the invoice first");
    let status = fold(OwnershipOutcome::Absent, OwnershipOutcome::Live(invoice(None)), OwnershipOutcome::Live(prepayment(Some("D-1"))));
    assert_eq!(status.proforma, consumed_by("ES-1"), "the invoice references none: the prepayment's");

    let status = fold(OwnershipOutcome::Absent, OwnershipOutcome::Live(invoice(None)), OwnershipOutcome::Live(prepayment(None)));
    assert_eq!(status.proforma, None);
    let status = fold(OwnershipOutcome::Absent, OwnershipOutcome::Absent, OwnershipOutcome::Absent);
    assert_eq!(status, OrderStatus::empty());

    let status = fold(OwnershipOutcome::Live(proforma()), OwnershipOutcome::Live(invoice(Some("D-1"))), OwnershipOutcome::Absent);
    let found_proforma = status.proforma.as_ref().expect("the proforma slot");
    assert_eq!(found_proforma.number, "D-1");
    assert_eq!(found_proforma.state, DocumentState::Live, "not derived");

    let status = fold(OwnershipOutcome::Collision(other()), OwnershipOutcome::Live(invoice(Some("D-1"))), OwnershipOutcome::Absent);
    assert_eq!(status.proforma, consumed_by("SZ-1"));
}

#[test]
fn a_reversed_document_of_ours_fills_its_slot_as_reversed() {
    let mut gone = doc("SZ-1", "SZ");
    gone.reversed = Some(true);
    let status = order_status(vec![(DocumentKind::Invoice, OwnershipOutcome::Reversed(Box::new(gone)))]).expect("data");
    let found_invoice = status.invoice.as_ref().expect("the invoice slot");
    assert_eq!(found_invoice.number, "SZ-1");
    assert_eq!(found_invoice.state, DocumentState::Reversed { storno_number: None });
    assert_eq!(status.proforma, None);
}

#[test]
fn an_answered_code_on_a_get_read_is_a_fault() {
    let fault = order_status(vec![
        (DocumentKind::Proforma, OwnershipOutcome::Absent),
        (DocumentKind::Invoice, OwnershipOutcome::Api(SzamlazzAnswer::new("57", "Hibás XML."))),
    ])
    .expect_err("a fault");
    assert_eq!(fault.status(), Some(503));
    assert_eq!(fault.code.as_str(), "unavailable");
    assert_eq!(fault.szamlazz_code.as_deref(), Some("57"));

    let fault = order_status(vec![(
        DocumentKind::Proforma,
        OwnershipOutcome::CredentialsRejected(SzamlazzAnswer::new("3", "login")),
    )])
    .expect_err("a fault");
    assert_eq!(fault.status(), Some(503));
    assert_eq!(fault.code.as_str(), "credentials_rejected");
    assert_eq!(fault.szamlazz_code.as_deref(), Some("3"));
}

#[test]
fn get_reads_the_four_kinds_in_order_and_folds_them() {
    let mut read = StatusRead::new(Namespace::new("acct"), OrderKey::parse("ORD-1").expect("order"));
    let mut names = Vec::new();
    let mut action = read.begin();
    let answers = [
        OwnershipOutcome::Absent,
        OwnershipOutcome::Live(referencing(doc("SZ-1", "SZ"), Some("D-1"))),
        OwnershipOutcome::Absent,
        OwnershipOutcome::Absent,
    ];
    for answer in answers {
        let StatusAction::Lookup { name, external_id, .. } = action else {
            panic!("a read per kind");
        };
        names.push((name, external_id.as_str().to_owned()));
        action = read.observed(Ok(answer));
    }
    assert_eq!(
        names,
        [
            ("lookup-proforma".to_owned(), "acct:ORD-1:proforma".to_owned()),
            ("lookup-invoice".to_owned(), "acct:ORD-1:invoice".to_owned()),
            ("lookup-prepayment".to_owned(), "acct:ORD-1:prepayment".to_owned()),
            ("lookup-final".to_owned(), "acct:ORD-1:final".to_owned()),
        ]
    );
    let StatusAction::Finish(Ok(status)) = action else {
        panic!("the status after the fourth read");
    };
    assert_eq!(status.proforma, Some(DocumentStatus::new("D-1", DocumentState::Consumed { by: "SZ-1".to_owned() })));
}
