//! The types a durable step may journal, as a sealed marker: a type becomes
//! journalable by being listed here and in no other way, so the list is
//! exactly what a journal entry can hold.

use vstd::prelude::*;

use crate::gateway::{
    CreateOutcome, DeleteOutcome, LookupOutcome, OwnershipOutcome, ProbeOutcome, QueryOutcome, SetPaymentsOutcome,
    StornoLookupOutcome, StornoOutcome, TaxpayerOutcome,
};
use crate::identity::Namespace;
use crate::prologue::Resolution;

verus! {

/// The seal: implemented for the journaled types only.
pub trait Sealed {}

/// A type the services journal as the result of a durable step.
pub trait Journaled: Sealed {}

impl Sealed for Namespace {}
impl Journaled for Namespace {}
impl Sealed for Resolution {}
impl Journaled for Resolution {}
impl Sealed for QueryOutcome {}
impl Journaled for QueryOutcome {}
impl Sealed for OwnershipOutcome {}
impl Journaled for OwnershipOutcome {}
impl Sealed for LookupOutcome {}
impl Journaled for LookupOutcome {}
impl Sealed for CreateOutcome {}
impl Journaled for CreateOutcome {}
impl Sealed for StornoLookupOutcome {}
impl Journaled for StornoLookupOutcome {}
impl Sealed for StornoOutcome {}
impl Journaled for StornoOutcome {}
impl Sealed for DeleteOutcome {}
impl Journaled for DeleteOutcome {}
impl Sealed for SetPaymentsOutcome {}
impl Journaled for SetPaymentsOutcome {}
impl Sealed for ProbeOutcome {}
impl Journaled for ProbeOutcome {}
impl Sealed for TaxpayerOutcome {}
impl Journaled for TaxpayerOutcome {}

} // verus!
