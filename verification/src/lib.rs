//! The decisions of a durable szamlazz.hu invoicing worker, verified: what
//! every answer of szamlazz.hu means for an order's documents, which faults a
//! caller receives, and the step sequences the handlers walk.

pub mod text;
pub mod kinds;
pub mod identity;
pub mod amount;
pub mod gateway;
pub mod fault;
pub mod create;
pub mod storno;
pub mod delete;
pub mod status;
pub mod agent;
pub mod prologue;
pub mod recovery;
pub mod experimental;
pub mod write;
pub mod recover;
pub mod szamla_agent;
pub mod issue;
pub mod body;
pub mod journal;
pub mod laws;
