use std::ops::ControlFlow;

use restate_szamlazz::amount::Amount;
use restate_szamlazz::delete::{
    delete_guard, delete_response, DeleteProformaResponse, DeleteReason, Deletion, DeletionAction, DeletionEvent,
};
use restate_szamlazz::gateway::{
    e_invoice_of_appearance, project_order_number, Date, DeleteOutcome, FoundDocument, OwnershipOutcome, Rejection,
    SzamlazzAnswer, Unanswered,
};
use restate_szamlazz::identity::{Namespace, OrderKey};
use restate_szamlazz::write::WriteResult;

fn doc(number: &str, tipus: &str) -> FoundDocument {
    FoundDocument {
        number: number.to_owned(),
        document_type: tipus.to_owned(),
        reversed: None,
        order_number: project_order_number(Some("ORD-1")),
        referenced_proforma: None,
        referenced_invoice: None,
        gross: Amount { mantissa: 1270, scale: 0 },
        net: Amount { mantissa: 1000, scale: 0 },
        test: true,
        e_invoice: e_invoice_of_appearance(0),
        supplier_id: Some(42),
        document_id: Some(1),
        payments: Vec::new(),
        adopted: false,
        fulfillment_date: Some(Date { year: 2026, month: 9, day: 1 }),
    }
}

#[test]
fn the_delete_guard_refuses_a_paid_proforma_unless_forced() {
    let mut paid = doc("D-1", "D");
    paid.payments = vec![Amount { mantissa: 1270, scale: 0 }];
    let unpaid = || doc("D-1", "D");
    let reversed = || {
        let mut d = doc("D-1", "D");
        d.reversed = Some(true);
        d
    };
    let other = || {
        let mut d = doc("D-OTHER", "D");
        d.order_number = project_order_number(Some("ORD-2"));
        d
    };

    for force in [false, true] {
        assert_eq!(
            delete_guard(OwnershipOutcome::Absent, force).expect("data"),
            ControlFlow::Break(DeleteProformaResponse::absent()),
            "force {force}"
        );
        assert_eq!(
            delete_guard(OwnershipOutcome::Reversed(Box::new(reversed())), force).expect("data"),
            ControlFlow::Continue(Box::new(reversed())),
            "force {force}"
        );
        assert_eq!(
            delete_guard(OwnershipOutcome::Collision(Box::new(other())), force).expect("data"),
            ControlFlow::Break(DeleteProformaResponse::not_deleted(DeleteReason::ExternalIdCollision)),
            "force {force}"
        );
        assert_eq!(
            delete_guard(OwnershipOutcome::Live(Box::new(unpaid())), force).expect("data"),
            ControlFlow::Continue(Box::new(unpaid())),
            "force {force}"
        );
    }
    let mut paid_again = doc("D-1", "D");
    paid_again.payments = vec![Amount { mantissa: 1270, scale: 0 }];
    assert_eq!(
        delete_guard(OwnershipOutcome::Live(Box::new(paid_again)), false).expect("data"),
        ControlFlow::Break(DeleteProformaResponse::not_deleted(DeleteReason::ProformaPaid))
    );
    let mut paid_forced = doc("D-1", "D");
    paid_forced.payments = vec![Amount { mantissa: 1270, scale: 0 }];
    assert_eq!(
        delete_guard(OwnershipOutcome::Live(Box::new(paid_forced)), true).expect("data"),
        ControlFlow::Continue(Box::new(paid))
    );

    let fault = delete_guard(OwnershipOutcome::Api(SzamlazzAnswer::new("57", "Hibás XML.")), true).expect_err("a fault");
    assert_eq!(fault.status(), Some(503));
    assert_eq!(fault.code.as_str(), "unavailable");
    assert_eq!(fault.szamlazz_code.as_deref(), Some("57"));
    let fault =
        delete_guard(OwnershipOutcome::CredentialsRejected(SzamlazzAnswer::new("3", "login")), true).expect_err("a fault");
    assert_eq!(fault.status(), Some(503));
    assert_eq!(fault.code.as_str(), "credentials_rejected");
}

#[test]
fn the_delete_response_settles_every_answer() {
    assert_eq!(delete_response(DeleteOutcome::Deleted).expect("data"), DeleteProformaResponse::deleted());
    assert_eq!(delete_response(DeleteOutcome::AlreadyGone).expect("data"), DeleteProformaResponse::deleted());
    assert_eq!(
        delete_response(DeleteOutcome::Rejected(Rejection::from_answer(SzamlazzAnswer::new("57", "Hibás XML."))))
            .expect("data"),
        DeleteProformaResponse::not_deleted(DeleteReason::Szamlazz("57".to_owned()))
    );

    let fault = delete_response(DeleteOutcome::CredentialsRejected(SzamlazzAnswer::new("3", "Sikertelen bejelentkezés.")))
        .expect_err("a fault");
    assert_eq!(fault.status(), Some(503));
    assert_eq!(fault.code.as_str(), "credentials_rejected");
    assert_eq!(fault.szamlazz_code.as_deref(), Some("3"));

    let fault = delete_response(DeleteOutcome::Lost(Unanswered { message: "connection reset".to_owned() }))
        .expect_err("a fault");
    assert_eq!(fault.status(), Some(500));
    assert_eq!(fault.code.as_str(), "outcome_unknown");
    assert_eq!(fault.szamlazz_code, None);
    assert!(fault.message.contains("connection reset"), "{}", fault.message);
    assert!(fault.message.contains("retry with a new Idempotency-Key"), "{}", fault.message);
}

fn deletion(force: bool) -> Deletion {
    Deletion::new(&Namespace::new("acct"), OrderKey::parse("ORD-1").expect("order"), "D-1".to_owned(), force)
}

#[test]
fn a_paid_proforma_is_never_sent_for_deletion_without_force() {
    let mut d = deletion(false);
    let DeletionAction::Lookup { external_id } = d.step(DeletionEvent::Begin) else {
        panic!("the lookup comes first");
    };
    assert_eq!(external_id.as_str(), "acct:ORD-1:proforma");
    let mut paid = doc("D-1", "D");
    paid.payments = vec![Amount { mantissa: 1270, scale: 0 }];
    let DeletionAction::Finish(Ok(response)) = d.step(DeletionEvent::LookedUp(Ok(OwnershipOutcome::Live(Box::new(paid))))) else {
        panic!("answered without a write");
    };
    assert_eq!(response, DeleteProformaResponse::not_deleted(DeleteReason::ProformaPaid));
}

#[test]
fn a_changed_target_is_answered_without_a_write_and_the_expected_one_is_deleted() {
    let mut d = deletion(false);
    d.step(DeletionEvent::Begin);
    let DeletionAction::Finish(Ok(response)) =
        d.step(DeletionEvent::LookedUp(Ok(OwnershipOutcome::Live(Box::new(doc("D-2", "D"))))))
    else {
        panic!("answered without a write");
    };
    assert_eq!(response, DeleteProformaResponse::not_deleted(DeleteReason::TargetChanged));

    let mut d = deletion(false);
    d.step(DeletionEvent::Begin);
    let DeletionAction::Write { name, number, .. } =
        d.step(DeletionEvent::LookedUp(Ok(OwnershipOutcome::Live(Box::new(doc("D-1", "D"))))))
    else {
        panic!("the expected proforma is deleted");
    };
    assert_eq!(name, "delete-proforma-D-1");
    assert_eq!(number, "D-1");
    let DeletionAction::Finish(result) = d.step(DeletionEvent::Written(Ok(WriteResult::Delete(DeleteOutcome::Deleted)))) else {
        panic!("the answer");
    };
    assert_eq!(result.expect("data"), DeleteProformaResponse::deleted());
}
