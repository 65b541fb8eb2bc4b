//! The two service endpoints as values, and the switch of the isolated
//! request-response experiment: with it on, the mutations it does not cover
//! are refused before anything reaches szamlazz.hu.

use vstd::prelude::*;
use vstd::string::*;

use crate::fault::{plain, Fault, TerminalCode};
use crate::recovery::{Unobserved, WriteObserver};

verus! {

/// The `Szamlazz.Order` endpoint: whether the request-response experiment is
/// on, and the interruption control installed for protocol tests.
pub struct Order<W: WriteObserver> {
    experimental_request_response: bool,
    write_observer: Option<W>,
}

/// The stateless `Szamlazz.Agent` endpoint.
#[derive(Debug, PartialEq, Eq)]
pub struct Agent {
    experimental_request_response: bool,
}

/// The refusal of a mutation the experiment does not cover.
pub open spec fn unsupported_text() -> Seq<char> {
    "mutation unsupported by the experimental RequestResponse endpoint"@
}

/// Whether a mutation may proceed: refused exactly when the experiment is on.
pub fn require_supported(experimental: bool) -> (r: Result<(), Fault>)
    ensures
        experimental <==> r is Err,
        r matches Err(f) ==> f@ == plain(TerminalCode::InvalidInput, unsupported_text()),
{
    if experimental {
        Err(Fault::invalid_input(String::from_str("mutation unsupported by the experimental RequestResponse endpoint")))
    } else {
        Ok(())
    }
}

impl Order<Unobserved> {
    /// The endpoint with the experiment off and no observer.
    pub fn new() -> (o: Order<Unobserved>)
        ensures
            !o.spec_experimental(),
            o.spec_observer() is None,
    {
        Order { experimental_request_response: false, write_observer: None }
    }
}

impl<W: WriteObserver> Order<W> {

    /// Whether the experiment is on.
    pub closed spec fn spec_experimental(&self) -> bool {
        self.experimental_request_response
    }

    /// The installed interruption observer, if any.
    pub closed spec fn spec_observer(&self) -> Option<W> {
        self.write_observer
    }

    /// Whether an interruption observer is installed.
    pub open spec fn spec_observed(&self) -> bool {
        self.spec_observer() is Some
    }

    /// Whether the experiment is on.
    pub fn is_experimental(&self) -> (b: bool)
        ensures
            b == self.spec_experimental(),
    {
        self.experimental_request_response
    }

    /// Enable the isolated request-response experiment.
    pub fn experimental_request_response(self) -> (o: Order<W>)
        ensures
            o.spec_experimental(),
            o.spec_observer() == self.spec_observer(),
    {
        Order { experimental_request_response: true, ..self }
    }

    /// Install test-only interruption control for this endpoint.
    pub fn with_write_observer<V: WriteObserver>(self, observer: V) -> (o: Order<V>)
        ensures
            o.spec_observer() == Some(observer),
            o.spec_experimental() == self.spec_experimental(),
    {
        Order { experimental_request_response: self.experimental_request_response, write_observer: Some(observer) }
    }

    /// The installed interruption control, if any.
    pub fn write_observer(&self) -> (w: Option<&W>)
        ensures
            match w {
                Some(x) => self.spec_observer() == Some(*x),
                None => self.spec_observer() is None,
            },
    {
        match &self.write_observer {
            Some(observer) => Some(observer),
            None => None,
        }
    }

    /// Whether an Order mutation may proceed on this endpoint.
    pub fn require_supported_mutation(&self) -> (r: Result<(), Fault>)
        ensures
            self.spec_experimental() <==> r is Err,
            r matches Err(f) ==> f@ == plain(TerminalCode::InvalidInput, unsupported_text()),
    {
        require_supported(self.experimental_request_response)
    }
}

impl Agent {
    /// The endpoint with the experiment off.
    pub fn new() -> (a: Agent)
        ensures
            !a.spec_experimental(),
    {
        Agent { experimental_request_response: false }
    }

    /// Whether the experiment is on.
    pub closed spec fn spec_experimental(&self) -> bool {
        self.experimental_request_response
    }

    /// Whether the experiment is on.
    pub fn is_experimental(&self) -> (b: bool)
        ensures
            b == self.spec_experimental(),
    {
        self.experimental_request_response
    }

    /// Enable reads and existing unmanaged storno for the experiment;
    /// credit-entry writes remain refused.
    pub fn experimental_request_response(self) -> (a: Agent)
        ensures
            a.spec_experimental(),
    {
        Agent { experimental_request_response: true }
    }

    /// Whether an Agent mutation may proceed on this endpoint.
    pub fn require_supported_mutation(&self) -> (r: Result<(), Fault>)
        ensures
            self.spec_experimental() <==> r is Err,
            r matches Err(f) ==> f@ == plain(TerminalCode::InvalidInput, unsupported_text()),
    {
        require_supported(self.experimental_request_response)
    }
}

} // verus!
