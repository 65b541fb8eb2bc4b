//! The decisions of the prologue every handler runs: what the account
//! resolver's answer settles, what an exhausted `account` step and a failed
//! credential fetch tell the caller, and when the fetch loop tries again.

use vstd::prelude::*;
use vstd::string::*;

use crate::fault::{plain, Fault, FaultCodeView, RunEnd, TerminalCode};
use crate::identity::Namespace;
use crate::text::{debug_quoted, decimal, decimal_text, plain_ascii};

verus! {

/// An account of the deployment: its id, the reference its credentials are
/// stored under, and the szamlazz.hu endpoint it talks to.
#[derive(Debug, PartialEq, Eq)]
pub struct Account {
    pub id: String,
    pub credential_ref: String,
    pub endpoint: String,
}

/// Why the account resolver named no account.
#[derive(Debug, PartialEq, Eq)]
pub enum ResolveError {
    /// The request carries no scope and no unscoped account is served.
    Unscoped,
    /// No account is reachable under `scope`.
    Unknown { scope: String },
    /// The resolver could not answer; `cause` is its own message.
    Unavailable { cause: String },
}

/// The journaled answer of the `account` step: the account, or the reason
/// the request names none.
#[derive(Debug, PartialEq, Eq)]
pub enum Resolution {
    Account(Account),
    Unscoped,
    Unknown { scope: String },
}

/// Which call into an embedder's trait objects the worker bounds.
#[derive(Clone, Copy, Debug, PartialEq, Eq, Structural)]
pub enum BoundedCall {
    Resolver,
    Store,
}

/// The subject of a timeout's text.
pub open spec fn spec_subject(call: BoundedCall) -> Seq<char> {
    match call {
        BoundedCall::Resolver => "the account resolver"@,
        BoundedCall::Store => "the credential store"@,
    }
}

impl BoundedCall {
    /// The subject of a timeout's text.
    pub fn subject(self) -> (s: &'static str)
        ensures
            s@ == spec_subject(self),
    {
        match self {
            BoundedCall::Resolver => "the account resolver",
            BoundedCall::Store => "the credential store",
        }
    }
}

/// The text of a bounded call that had not answered at the deadline.
pub open spec fn timed_out_text(call: BoundedCall) -> Seq<char> {
    spec_subject(call) + " did not answer within 10s"@
}

/// The text of a bounded call that had not answered at the deadline.
pub fn timed_out_message(call: BoundedCall) -> (s: String)
    ensures
        s@ == timed_out_text(call),
{
    String::from_str(call.subject()).concat(" did not answer within 10s")
}

/// The `account` step's one error: the resolver could not answer, by its own
/// report or by the deadline. Retryable.
#[derive(Debug, PartialEq, Eq)]
pub enum ResolverUnavailable {
    Reported { cause: String },
    TimedOut(BoundedCall),
}

/// What a caller reads of a resolver that could not answer: never its cause.
pub open spec fn resolver_text(e: &ResolverUnavailable) -> Seq<char> {
    match e {
        ResolverUnavailable::Reported { .. } => "the account resolver is unavailable"@,
        ResolverUnavailable::TimedOut(call) => timed_out_text(*call),
    }
}

impl ResolverUnavailable {
    /// The error's text, which names no cause.
    pub fn message(&self) -> (s: String)
        ensures
            s@ == resolver_text(self),
    {
        match self {
            ResolverUnavailable::Reported { .. } => String::from_str("the account resolver is unavailable"),
            ResolverUnavailable::TimedOut(call) => timed_out_message(*call),
        }
    }

    /// The resolver's own message, kept for the operator's log.
    pub fn cause(&self) -> (c: Option<&str>)
        ensures
            match self {
                ResolverUnavailable::Reported { cause } => c matches Some(t) && t@ == cause@,
                ResolverUnavailable::TimedOut(_) => c is None,
            },
    {
        match self {
            ResolverUnavailable::Reported { cause } => Some(cause.as_str()),
            ResolverUnavailable::TimedOut(_) => None,
        }
    }
}

/// The `account` step's closure result: every answer of the resolver is
/// data, its unavailability the retryable error.
pub fn resolution(result: Result<Account, ResolveError>) -> (r: Result<Resolution, ResolverUnavailable>)
    ensures
        match result {
            Ok(account) => r matches Ok(Resolution::Account(a)) && a == account,
            Err(ResolveError::Unscoped) => r matches Ok(Resolution::Unscoped),
            Err(ResolveError::Unknown { scope }) => r matches Ok(Resolution::Unknown { scope: s }) && s == scope,
            Err(ResolveError::Unavailable { cause }) => r matches Err(ResolverUnavailable::Reported { cause: c }) && c == cause,
        },
{
    match result {
        Ok(account) => Ok(Resolution::Account(account)),
        Err(ResolveError::Unscoped) => Ok(Resolution::Unscoped),
        Err(ResolveError::Unknown { scope }) => Ok(Resolution::Unknown { scope }),
        Err(ResolveError::Unavailable { cause }) => Err(ResolverUnavailable::Reported { cause }),
    }
}

/// The message of an unscoped request on a deployment that serves accounts
/// by scope.
pub open spec fn unscoped_text() -> Seq<char> {
    "no account is reachable unscoped: this deployment serves accounts by scope, send the request under the account's scope (/restate/scope/{scope}/call/…)"@
}

/// The account of a journaled resolution: unscoped and unknown are the
/// terminal fault `unknown_account`.
pub fn account_of(resolved: Resolution) -> (r: Result<Account, Fault>)
    ensures
        match resolved {
            Resolution::Account(a) => r matches Ok(acc) && acc == a,
            Resolution::Unscoped => r matches Err(f) && f@ == plain(TerminalCode::UnknownAccount, unscoped_text()),
            Resolution::Unknown { scope } => r matches Err(f) && f@.code == FaultCodeView::Known(TerminalCode::UnknownAccount)
                && (plain_ascii(scope@) ==> f@ == plain(
                    TerminalCode::UnknownAccount,
                    "no account is reachable under scope "@ + ("\""@ + scope@ + "\""@),
                )),
        },
{
    match resolved {
        Resolution::Account(account) => Ok(account),
        Resolution::Unscoped => Err(Fault::unknown_account(String::from_str(
            "no account is reachable unscoped: this deployment serves accounts by scope, send the request under the account's scope (/restate/scope/{scope}/call/…)",
        ))),
        Resolution::Unknown { scope } => {
            let quoted = debug_quoted(scope.as_str());
            Err(Fault::unknown_account(String::from_str("no account is reachable under scope ").concat(quoted.as_str())))
        },
    }
}

/// The message of an `account` step that ended without a resolution.
pub open spec fn resolve_exhausted_text(code: u16, message: Seq<char>) -> Seq<char> {
    "the account could not be resolved ("@ + decimal(code as nat) + "): "@ + message
        + "; retry with a new Idempotency-Key"@
}

/// The fault of an `account` step that ended without a resolution.
pub fn resolve_exhausted(error: &RunEnd) -> (f: Fault)
    ensures
        f@ == plain(TerminalCode::Unavailable, resolve_exhausted_text(error.code, error.message@)),
{
    let code = decimal_text(error.code as u64);
    Fault::unavailable(
        String::from_str("the account could not be resolved (").concat(code.as_str()).concat("): ").concat(
            error.message.as_str(),
        ).concat("; retry with a new Idempotency-Key"),
    )
}

/// Fetches of the credential store per handler execution, the first
/// included.
pub const FETCH_ATTEMPTS: u32 = 3;

/// How one fetch of the credential store ended short of credentials.
#[derive(Debug, PartialEq, Eq)]
pub enum FetchFailure {
    /// The store has no credentials under the reference.
    Gone { credential_ref: String },
    /// The store reported itself unavailable; `cause` is its own message.
    Unavailable { cause: String },
    /// The store had not answered at the deadline.
    TimedOut,
}

impl FetchFailure {
    /// Whether another attempt may answer differently.
    pub open spec fn spec_retryable(&self) -> bool {
        !(self is Gone)
    }

    /// Whether another attempt may answer differently: an unavailable or
    /// silent store may recover, an unknown reference is settled.
    pub fn is_retryable(&self) -> (b: bool)
        ensures
            b == self.spec_retryable(),
    {
        match self {
            FetchFailure::Gone { .. } => false,
            FetchFailure::Unavailable { .. } => true,
            FetchFailure::TimedOut => true,
        }
    }
}

/// The cause a failed fetch's fault names: never the store's message, the
/// account or the reference.
pub open spec fn fetch_cause(failure: &FetchFailure) -> Seq<char> {
    match failure {
        FetchFailure::Gone { .. } => "the credential store has no credentials under the account's reference"@,
        FetchFailure::Unavailable { .. } => "the credential store is unavailable"@,
        FetchFailure::TimedOut => timed_out_text(BoundedCall::Store),
    }
}

/// The message of a failed credential fetch.
pub open spec fn fetch_fault_text(failure: &FetchFailure) -> Seq<char> {
    "the account's credentials could not be fetched ("@ + fetch_cause(failure)
        + "); retry with a new Idempotency-Key"@
}

/// The terminal fault of a failed credential fetch.
pub fn fetch_fault(failure: &FetchFailure) -> (f: Fault)
    ensures
        f@ == plain(TerminalCode::Unavailable, fetch_fault_text(failure)),
{
    let cause = match failure {
        FetchFailure::Gone { .. } => String::from_str(
            "the credential store has no credentials under the account's reference",
        ),
        FetchFailure::Unavailable { .. } => String::from_str("the credential store is unavailable"),
        FetchFailure::TimedOut => timed_out_message(BoundedCall::Store),
    };
    Fault::unavailable(
        String::from_str("the account's credentials could not be fetched (").concat(cause.as_str()).concat(
            "); retry with a new Idempotency-Key",
        ),
    )
}

/// What the fetch loop does after an attempt fell short.
#[derive(Debug, PartialEq, Eq)]
pub enum FetchStep {
    /// Pause, then fetch again as attempt `attempt`.
    Retry { attempt: u32 },
    /// Give up with the terminal fault.
    Fail(Fault),
}

/// The attempt the fetch loop makes next after attempt `attempt` (counted
/// from one) ended in `failure`, if any: retry while the failure may clear
/// and attempts remain.
pub open spec fn spec_fetch_retry(attempt: u32, failure: &FetchFailure) -> Option<u32> {
    if failure.spec_retryable() && attempt < FETCH_ATTEMPTS {
        Some((attempt + 1) as u32)
    } else {
        None
    }
}

/// The fetch loop's decision after attempt `attempt` ended in `failure`:
/// the next attempt, or the terminal fault.
pub fn fetch_next(attempt: u32, failure: &FetchFailure) -> (s: FetchStep)
    ensures
        match s {
            FetchStep::Retry { attempt: next } => spec_fetch_retry(attempt, failure) == Some(next),
            FetchStep::Fail(f) => spec_fetch_retry(attempt, failure) is None && f@ == plain(
                TerminalCode::Unavailable,
                fetch_fault_text(failure),
            ),
        },
{
    if !failure.is_retryable() || attempt >= FETCH_ATTEMPTS {
        FetchStep::Fail(fetch_fault(failure))
    } else {
        FetchStep::Retry { attempt: attempt + 1 }
    }
}

/// The fetch loop is bounded: from any attempt within the bound the next one
/// is still within it, and a reference the store does not know is never
/// fetched again.
pub proof fn fetch_attempts_are_bounded(attempt: u32, failure: &FetchFailure)
    requires
        1 <= attempt <= FETCH_ATTEMPTS,
    ensures
        spec_fetch_retry(attempt, failure) matches Some(next) ==> attempt < next <= FETCH_ATTEMPTS,
        failure is Gone ==> spec_fetch_retry(attempt, failure) is None,
        attempt == FETCH_ATTEMPTS ==> spec_fetch_retry(attempt, failure) is None,
{
}

/// Where a handler's prologue stands.
#[derive(Clone, Copy, Debug, PartialEq, Eq, Structural)]
pub enum PrologueStage {
    Start,
    Pinning,
    Resolving,
    Fetching,
    Opening,
    Finished,
}

/// What the handler does next.
#[derive(Debug, PartialEq, Eq)]
pub enum PrologueAction {
    /// Journal the deployment's namespace under the step `namespace`.
    Pin { name: String },
    /// Resolve the request's scope under the step `account`.
    Resolve { name: String },
    /// Fetch the account's credentials, outside the journal; when `pause`,
    /// wait the pause between attempts first.
    Fetch { attempt: u32, pause: bool },
    /// Open the gateway for `account` with the fetched credentials.
    Open { account: Account },
    /// The prologue failed with the fault.
    Fail(Fault),
    /// The pin's run ended without a value: end with its own end.
    End(RunEnd),
}

/// What the handler hands back.
#[derive(Debug, PartialEq, Eq)]
pub enum PrologueEvent {
    Begin,
    /// The pinned namespace, or how the pin ended without one.
    Pinned(Result<Namespace, RunEnd>),
    /// The journaled resolution, or how the step ended without one.
    Resolved(Result<Resolution, RunEnd>),
    /// The fetch answered credentials, or fell short.
    Fetched(Result<(), FetchFailure>),
}

/// One handler's prologue: pin, resolve, fetch (bounded), open.
#[derive(Debug, PartialEq, Eq)]
pub struct Prologue {
    stage: PrologueStage,
    account: Option<Account>,
    attempt: u32,
    namespace: Option<Namespace>,
}

impl Prologue {
    /// The stage.
    pub closed spec fn spec_stage(&self) -> PrologueStage {
        self.stage
    }

    /// The fetch attempts made so far.
    pub closed spec fn spec_attempt(&self) -> u32 {
        self.attempt
    }

    /// The pinned namespace, once pinned.
    pub closed spec fn spec_namespace(&self) -> Option<Seq<char>> {
        match self.namespace {
            Some(n) => Some(n@),
            None => None,
        }
    }

    /// The resolved account, once resolved.
    pub closed spec fn spec_account(&self) -> Option<Account> {
        self.account
    }

    /// What every stage keeps: fetching and opening only for a resolved
    /// account, and never more than the bounded attempts.
    pub closed spec fn wf(&self) -> bool {
        &&& (self.stage == PrologueStage::Fetching || self.stage == PrologueStage::Opening) ==> self.account is Some
        &&& self.attempt <= FETCH_ATTEMPTS
        &&& self.stage == PrologueStage::Fetching ==> 1 <= self.attempt
    }

    /// A prologue not yet started.
    pub fn new() -> (p: Prologue)
        ensures
            p.wf(),
            p.spec_stage() == PrologueStage::Start,
            p.spec_attempt() == 0,
    {
        Prologue { stage: PrologueStage::Start, account: None, attempt: 0, namespace: None }
    }

    /// The pinned namespace, once pinned.
    pub fn namespace(&self) -> (n: Option<&Namespace>)
        ensures
            match n {
                Some(x) => self.spec_namespace() == Some(x@),
                None => self.spec_namespace() is None,
            },
    {
        match &self.namespace {
            Some(n) => Some(n),
            None => None,
        }
    }

    /// One step. The credentials are fetched at most `FETCH_ATTEMPTS` times,
    /// and a gateway is opened only for the account the journaled
    /// resolution names.
    pub fn step(&mut self, event: PrologueEvent) -> (a: PrologueAction)
        requires
            old(self).wf(),
        ensures
            final(self).wf(),
            a matches PrologueAction::Fetch { attempt, .. } ==> 1 <= attempt <= FETCH_ATTEMPTS && attempt
                == final(self).spec_attempt(),
            a is Open ==> old(self).spec_stage() == PrologueStage::Fetching && (event matches PrologueEvent::Fetched(Ok(_))),
            old(self).spec_stage() == PrologueStage::Finished ==> a is Fail,
            a is End ==> old(self).spec_stage() == PrologueStage::Pinning,
            (old(self).spec_stage() == PrologueStage::Start && event is Begin) ==> (a matches PrologueAction::Pin {
                name,
            } && name@ == "namespace"@ && final(self).spec_stage() == PrologueStage::Pinning),
            event matches PrologueEvent::Pinned(p) ==> (old(self).spec_stage() == PrologueStage::Pinning ==> match p {
                Ok(ns) => a matches PrologueAction::Resolve { name } && name@ == "account"@ && final(self).spec_stage() == PrologueStage::Resolving && final(self).spec_namespace() == Some(ns@),
                Err(end) => a == PrologueAction::End(end),
            }),
            event matches PrologueEvent::Resolved(r) ==> (old(self).spec_stage() == PrologueStage::Resolving
                ==> match r {
                Err(end) => a matches PrologueAction::Fail(f) && f@ == plain(
                    TerminalCode::Unavailable,
                    resolve_exhausted_text(end.code, end.message@),
                ),
                Ok(Resolution::Account(acc)) => a == PrologueAction::Fetch { attempt: 1, pause: false } && final(self).spec_account() == Some(acc) && final(self).spec_stage() == PrologueStage::Fetching,
                Ok(Resolution::Unscoped) => a matches PrologueAction::Fail(f) && f@ == plain(
                    TerminalCode::UnknownAccount,
                    unscoped_text(),
                ),
                Ok(Resolution::Unknown { scope }) => a matches PrologueAction::Fail(f) && f@.code
                    == FaultCodeView::Known(TerminalCode::UnknownAccount) && (plain_ascii(scope@) ==> f@ == plain(
                    TerminalCode::UnknownAccount,
                    "no account is reachable under scope "@ + ("\""@ + scope@ + "\""@),
                )),
            }),
            event matches PrologueEvent::Fetched(r) ==> (old(self).spec_stage() == PrologueStage::Fetching ==> match r {
                Ok(()) => a matches PrologueAction::Open { account } && (old(self).spec_account() matches Some(acc)
                    && account.id@ == acc.id@ && account.credential_ref@ == acc.credential_ref@
                    && account.endpoint@ == acc.endpoint@),
                Err(failure) => match spec_fetch_retry(old(self).spec_attempt(), &failure) {
                    Some(next) => a == PrologueAction::Fetch { attempt: next, pause: true },
                    None => a matches PrologueAction::Fail(f) && f@ == plain(
                        TerminalCode::Unavailable,
                        fetch_fault_text(&failure),
                    ),
                },
            }),
    {
        match (self.stage, event) {
            (PrologueStage::Start, PrologueEvent::Begin) => {
                self.stage = PrologueStage::Pinning;
                PrologueAction::Pin { name: String::from_str("namespace") }
            },
            (PrologueStage::Pinning, PrologueEvent::Pinned(Ok(namespace))) => {
                self.namespace = Some(namespace);
                self.stage = PrologueStage::Resolving;
                PrologueAction::Resolve { name: String::from_str("account") }
            },
            (PrologueStage::Pinning, PrologueEvent::Pinned(Err(end))) => {
                self.stage = PrologueStage::Finished;
                PrologueAction::End(end)
            },
            (PrologueStage::Resolving, PrologueEvent::Resolved(Err(end))) => {
                self.stage = PrologueStage::Finished;
                PrologueAction::Fail(resolve_exhausted(&end))
            },
            (PrologueStage::Resolving, PrologueEvent::Resolved(Ok(resolved))) => {
                match account_of(resolved) {
                    Err(fault) => {
                        self.stage = PrologueStage::Finished;
                        PrologueAction::Fail(fault)
                    },
                    Ok(account) => {
                        self.account = Some(account);
                        self.attempt = 1;
                        self.stage = PrologueStage::Fetching;
                        PrologueAction::Fetch { attempt: 1, pause: false }
                    },
                }
            },
            (PrologueStage::Fetching, PrologueEvent::Fetched(Ok(()))) => {
                self.stage = PrologueStage::Opening;
                match &self.account {
                    Some(account) => PrologueAction::Open {
                        account: Account {
                            id: account.id.clone(),
                            credential_ref: account.credential_ref.clone(),
                            endpoint: account.endpoint.clone(),
                        },
                    },
                    None => {
                        self.stage = PrologueStage::Finished;
                        PrologueAction::Fail(Fault::unavailable(String::from_str(
                            "the prologue received an event out of order",
                        )))
                    },
                }
            },
            (PrologueStage::Fetching, PrologueEvent::Fetched(Err(failure))) => {
                match fetch_next(self.attempt, &failure) {
                    FetchStep::Retry { attempt } => {
                        self.attempt = attempt;
                        PrologueAction::Fetch { attempt, pause: true }
                    },
                    FetchStep::Fail(fault) => {
                        self.stage = PrologueStage::Finished;
                        PrologueAction::Fail(fault)
                    },
                }
            },
            _ => {
                self.stage = PrologueStage::Finished;
                PrologueAction::Fail(Fault::unavailable(String::from_str(
                    "the prologue received an event out of order",
                )))
            },
        }
    }
}

} // verus!
