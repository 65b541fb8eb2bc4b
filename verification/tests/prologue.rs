use restate_szamlazz::prologue::{resolution, ResolveError};

#[test]
fn an_unavailable_resolver_is_the_retryable_error_and_never_echoes_its_cause() {
    let error = match resolution(Err(ResolveError::Unavailable {
        cause: "connection refused to db.internal:5432 (secret-dsn)".to_owned(),
    })) {
        Err(error) => error,
        Ok(_) => panic!("retryable"),
    };
    let rendered = error.message();
    assert_eq!(rendered, "the account resolver is unavailable");
    assert!(!rendered.contains("secret-dsn"));
    // The cause stays reachable for logs.
    assert!(error.cause().is_some());
}

use restate_szamlazz::fault::RunEnd;
use restate_szamlazz::prologue::{
    account_of, fetch_fault, fetch_next, resolve_exhausted, Account, FetchFailure, FetchStep, Prologue,
    PrologueAction, PrologueEvent, Resolution, FETCH_ATTEMPTS,
};

fn account() -> Account {
    Account { id: "acct".to_owned(), credential_ref: "acct".to_owned(), endpoint: "https://www.szamlazz.hu/szamla/".to_owned() }
}

#[test]
fn a_resolved_account_is_the_resolution() {
    assert_eq!(resolution(Ok(account())).expect("data"), Resolution::Account(account()));
    assert_eq!(account_of(Resolution::Account(account())).expect("account"), account());
}

#[test]
fn unscoped_and_unknown_are_data_and_the_unknown_account_fault() {
    let unscoped = resolution(Err(ResolveError::Unscoped)).expect("data");
    assert_eq!(unscoped, Resolution::Unscoped);
    let fault = account_of(unscoped).expect_err("fault");
    assert_eq!(fault.status(), Some(400));
    assert_eq!(fault.code.as_str(), "unknown_account");
    assert!(fault.message.contains("unscoped"), "{}", fault.message);

    let unknown = resolution(Err(ResolveError::Unknown { scope: "acme-events".to_owned() })).expect("data");
    assert_eq!(unknown, Resolution::Unknown { scope: "acme-events".to_owned() });
    let fault = account_of(unknown).expect_err("fault");
    assert_eq!(fault.status(), Some(400));
    assert_eq!(fault.code.as_str(), "unknown_account");
    assert!(fault.message.contains("acme-events"), "{}", fault.message);
}

#[test]
fn an_exhausted_resolve_step_is_unavailable() {
    let fault = resolve_exhausted(&RunEnd {
        code: 500,
        message: "the account resolver is unavailable".to_owned(),
        initialization: None,
    });
    assert_eq!(fault.status(), Some(503));
    assert_eq!(fault.code.as_str(), "unavailable");
    assert!(fault.message.contains("retry with a new Idempotency-Key"), "{}", fault.message);
}

#[test]
fn a_failed_credential_fetch_is_unavailable_and_names_neither_the_account_nor_the_ref() {
    const REF: &str = "secrets/kv/accounts/acme/szamlazz";
    let fault = fetch_fault(&FetchFailure::Unavailable { cause: "vault token v.abc123 rejected".to_owned() });
    assert_eq!(fault.status(), Some(503));
    assert_eq!(fault.code.as_str(), "unavailable");
    assert!(fault.message.contains("credential store is unavailable"), "{}", fault.message);
    assert!(fault.message.contains("retry with a new Idempotency-Key"), "{}", fault.message);
    assert!(!fault.message.contains("abc123"), "{}", fault.message);
    assert!(!fault.message.contains("acct-8e1f"), "{}", fault.message);
    assert!(!fault.message.contains(REF), "{}", fault.message);

    let fault = fetch_fault(&FetchFailure::Gone { credential_ref: REF.to_owned() });
    assert_eq!(fault.status(), Some(503));
    assert_eq!(fault.code.as_str(), "unavailable");
    assert!(fault.message.contains("no credentials"), "{}", fault.message);
    assert!(!fault.message.contains("acct-8e1f"), "{}", fault.message);
    assert!(!fault.message.contains(REF), "{}", fault.message);
}

#[test]
fn a_silent_store_is_unavailable_naming_the_deadline() {
    let fault = fetch_fault(&FetchFailure::TimedOut);
    assert_eq!(fault.code.as_str(), "unavailable");
    assert!(fault.message.contains("did not answer within"), "{}", fault.message);
    assert!(fault.message.contains("10s"), "{}", fault.message);
}

#[test]
fn the_fetch_loop_gives_up_after_three_attempts_and_never_retries_a_gone_reference() {
    let unavailable = || FetchFailure::Unavailable { cause: "down".to_owned() };
    assert!(matches!(fetch_next(1, &unavailable()), FetchStep::Retry { attempt: 2 }));
    assert!(matches!(fetch_next(2, &FetchFailure::TimedOut), FetchStep::Retry { attempt: 3 }));
    assert!(matches!(fetch_next(FETCH_ATTEMPTS, &unavailable()), FetchStep::Fail(_)));
    assert!(matches!(
        fetch_next(1, &FetchFailure::Gone { credential_ref: "r".to_owned() }),
        FetchStep::Fail(_)
    ));
}

#[test]
fn the_prologue_pins_resolves_fetches_and_opens_in_order() {
    let mut prologue = Prologue::new();
    assert!(matches!(prologue.step(PrologueEvent::Begin), PrologueAction::Pin { name } if name == "namespace"));
    assert!(matches!(
        prologue.step(PrologueEvent::Pinned(Ok(restate_szamlazz::identity::Namespace::new("acct")))),
        PrologueAction::Resolve { name } if name == "account"
    ));
    assert!(matches!(
        prologue.step(PrologueEvent::Resolved(Ok(Resolution::Account(account())))),
        PrologueAction::Fetch { attempt: 1, pause: false }
    ));
    assert!(matches!(
        prologue.step(PrologueEvent::Fetched(Err(FetchFailure::Unavailable { cause: "down".to_owned() }))),
        PrologueAction::Fetch { attempt: 2, pause: true }
    ));
    let PrologueAction::Open { account: opened } = prologue.step(PrologueEvent::Fetched(Ok(()))) else {
        panic!("the gateway opens after the credentials");
    };
    assert_eq!(opened, account());
}

#[test]
fn an_unscoped_request_fails_the_prologue_before_any_fetch() {
    let mut prologue = Prologue::new();
    prologue.step(PrologueEvent::Begin);
    prologue.step(PrologueEvent::Pinned(Ok(restate_szamlazz::identity::Namespace::new("acct"))));
    let PrologueAction::Fail(fault) = prologue.step(PrologueEvent::Resolved(Ok(Resolution::Unscoped))) else {
        panic!("unscoped is the unknown_account fault");
    };
    assert_eq!(fault.code.as_str(), "unknown_account");
}

/// Drives a prologue to its first fetch of `account`.
fn fetching(account: Account) -> Prologue {
    let mut prologue = Prologue::new();
    prologue.step(PrologueEvent::Begin);
    prologue.step(PrologueEvent::Pinned(Ok(restate_szamlazz::identity::Namespace::new("acct"))));
    assert!(matches!(
        prologue.step(PrologueEvent::Resolved(Ok(Resolution::Account(account)))),
        PrologueAction::Fetch { attempt: 1, pause: false }
    ));
    prologue
}

#[test]
fn a_store_that_stays_unavailable_fails_the_prologue_after_three_fetches() {
    const SECRET_ACCOUNT: &str = "acct-8e1f";
    const SECRET_REF: &str = "secrets/kv/accounts/acme/szamlazz";
    const STORE_CAUSE: &str = "vault token s.XXXX expired";
    let mut prologue = fetching(Account {
        id: SECRET_ACCOUNT.to_owned(),
        credential_ref: SECRET_REF.to_owned(),
        endpoint: "https://www.szamlazz.hu/szamla/".to_owned(),
    });
    let unavailable = || PrologueEvent::Fetched(Err(FetchFailure::Unavailable { cause: STORE_CAUSE.to_owned() }));
    assert!(matches!(prologue.step(unavailable()), PrologueAction::Fetch { attempt: 2, pause: true }));
    assert!(matches!(prologue.step(unavailable()), PrologueAction::Fetch { attempt: 3, pause: true }));
    let PrologueAction::Fail(fault) = prologue.step(unavailable()) else {
        panic!("terminal after the third fetch");
    };
    assert_eq!(fault.code.as_str(), "unavailable");
    assert_eq!(fault.code.status(), Some(503));
    assert!(fault.message.contains("credential store is unavailable"), "{}", fault.message);
    assert!(fault.message.contains("retry with a new Idempotency-Key"), "{}", fault.message);
    assert!(!fault.message.contains(STORE_CAUSE));
    assert!(!fault.message.contains(SECRET_ACCOUNT));
    assert!(!fault.message.contains(SECRET_REF));
}

#[test]
fn a_gone_reference_fails_the_prologue_after_one_fetch() {
    const SECRET_REF: &str = "secrets/kv/accounts/acme/szamlazz";
    let mut prologue = fetching(account());
    let PrologueAction::Fail(fault) =
        prologue.step(PrologueEvent::Fetched(Err(FetchFailure::Gone { credential_ref: SECRET_REF.to_owned() })))
    else {
        panic!("gone is not retried");
    };
    assert_eq!(fault.code.as_str(), "unavailable");
    assert!(fault.message.contains("no credentials"), "{}", fault.message);
    assert!(!fault.message.contains(SECRET_REF));
}

#[test]
fn a_silent_store_fails_the_prologue_after_its_attempts_naming_the_deadline() {
    let mut prologue = fetching(account());
    assert!(matches!(
        prologue.step(PrologueEvent::Fetched(Err(FetchFailure::TimedOut))),
        PrologueAction::Fetch { attempt: 2, pause: true }
    ));
    assert!(matches!(
        prologue.step(PrologueEvent::Fetched(Err(FetchFailure::TimedOut))),
        PrologueAction::Fetch { attempt: 3, pause: true }
    ));
    let PrologueAction::Fail(fault) = prologue.step(PrologueEvent::Fetched(Err(FetchFailure::TimedOut))) else {
        panic!("terminal after the attempts");
    };
    assert_eq!(fault.code.as_str(), "unavailable");
    assert!(fault.message.contains("did not answer within"), "{}", fault.message);
    assert!(fault.message.contains("10s"), "{}", fault.message);
    assert!(fault.message.contains("retry with a new Idempotency-Key"), "{}", fault.message);
}

#[test]
fn a_store_that_recovers_within_its_attempts_opens_the_gateway() {
    let mut prologue = fetching(account());
    assert!(matches!(
        prologue.step(PrologueEvent::Fetched(Err(FetchFailure::Unavailable { cause: "down".to_owned() }))),
        PrologueAction::Fetch { attempt: 2, pause: true }
    ));
    assert!(matches!(
        prologue.step(PrologueEvent::Fetched(Err(FetchFailure::TimedOut))),
        PrologueAction::Fetch { attempt: 3, pause: true }
    ));
    let PrologueAction::Open { account: opened } = prologue.step(PrologueEvent::Fetched(Ok(()))) else {
        panic!("the third attempt's answer opens the gateway");
    };
    assert_eq!(opened, account());
}
