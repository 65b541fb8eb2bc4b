use restate_szamlazz::identity::{ExternalId, Namespace, OrderKey};
use restate_szamlazz::kinds::DocumentKind;
use restate_szamlazz::prologue::{fetch_fault, FetchFailure};

#[test]
fn every_kind_of_an_order_has_its_own_external_id() {
    let ns = Namespace::new("acct");
    let order = OrderKey::parse("ORD-1").expect("order");
    let kinds = [DocumentKind::Proforma, DocumentKind::Invoice, DocumentKind::Prepayment, DocumentKind::Final];
    let ids: Vec<String> = kinds.iter().map(|k| ExternalId::for_kind(&ns, &order, *k).as_str().to_owned()).collect();
    assert_eq!(ids, ["acct:ORD-1:proforma", "acct:ORD-1:invoice", "acct:ORD-1:prepayment", "acct:ORD-1:final"]);
    assert_eq!(ExternalId::for_storno(&ns, &order, "SZ-1").as_str(), "acct:ORD-1:storno:SZ-1");
    assert_eq!(ExternalId::for_unmanaged_storno(&ns, "SZ-1").as_str(), "acct:by-number:SZ-1:storno");
    assert_eq!(ExternalId::for_probe(&ns).as_str(), "acct:probe");
}

#[test]
fn a_fetch_fault_reads_the_same_whatever_the_store_said() {
    let a = fetch_fault(&FetchFailure::Unavailable { cause: "secret-a".to_owned() });
    let b = fetch_fault(&FetchFailure::Unavailable { cause: "secret-b".to_owned() });
    assert_eq!(a.message, b.message);
    let a = fetch_fault(&FetchFailure::Gone { credential_ref: "ref-a".to_owned() });
    let b = fetch_fault(&FetchFailure::Gone { credential_ref: "ref-b".to_owned() });
    assert_eq!(a.message, b.message);
}
