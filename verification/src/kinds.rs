//! The document kinds the worker issues and the `tipus` codes szamlazz.hu
//! reports for them.

use vstd::prelude::*;

use crate::text::text_eq;

verus! {

/// The four kinds of document an order holds one slot of.
#[derive(Clone, Copy, Debug, PartialEq, Eq, Structural)]
pub enum DocumentKind {
    /// `díjbekérő`, `tipus` `D`.
    Proforma,
    /// `számla`, `tipus` `SZ`.
    Invoice,
    /// `előlegszámla`, `tipus` `ES`.
    Prepayment,
    /// `végszámla`, `tipus` `VS`.
    Final,
}

/// Every kind the worker issues: the four slots and the corrective invoice.
#[derive(Clone, Copy, Debug, PartialEq, Eq, Structural)]
pub enum IssuedKind {
    Proforma,
    Invoice,
    Prepayment,
    Final,
    /// `helyesbítő számla`, `tipus` `HS`.
    Corrective,
}

/// The issued kind of a slot kind.
pub open spec fn issued_kind(kind: DocumentKind) -> IssuedKind {
    match kind {
        DocumentKind::Proforma => IssuedKind::Proforma,
        DocumentKind::Invoice => IssuedKind::Invoice,
        DocumentKind::Prepayment => IssuedKind::Prepayment,
        DocumentKind::Final => IssuedKind::Final,
    }
}

impl DocumentKind {
    /// The issued kind of this slot kind.
    pub fn issued(self) -> (kind: IssuedKind)
        ensures
            kind == issued_kind(self),
    {
        match self {
            DocumentKind::Proforma => IssuedKind::Proforma,
            DocumentKind::Invoice => IssuedKind::Invoice,
            DocumentKind::Prepayment => IssuedKind::Prepayment,
            DocumentKind::Final => IssuedKind::Final,
        }
    }
}

/// The `tipus` code the documents of `kind` carry.
pub open spec fn spec_document_type(kind: IssuedKind) -> Seq<char> {
    match kind {
        IssuedKind::Proforma => seq!['D'],
        IssuedKind::Invoice => seq!['S', 'Z'],
        IssuedKind::Prepayment => seq!['E', 'S'],
        IssuedKind::Final => seq!['V', 'S'],
        IssuedKind::Corrective => seq!['H', 'S'],
    }
}

/// The `tipus` code the documents of `kind` carry.
pub fn document_type_of(kind: IssuedKind) -> (tipus: &'static str)
    ensures
        tipus@ == spec_document_type(kind),
{
    proof {
        reveal_strlit("D");
        reveal_strlit("SZ");
        reveal_strlit("ES");
        reveal_strlit("VS");
        reveal_strlit("HS");
    }
    match kind {
        IssuedKind::Proforma => "D",
        IssuedKind::Invoice => "SZ",
        IssuedKind::Prepayment => "ES",
        IssuedKind::Final => "VS",
        IssuedKind::Corrective => "HS",
    }
}

/// Whether `tipus` is the document type a `kind` slot holds (`D`, `SZ`,
/// `ES`, `VS`).
pub fn is_live_kind(kind: DocumentKind, tipus: &str) -> (b: bool)
    ensures
        b == (tipus@ == spec_document_type(issued_kind(kind))),
{
    text_eq(tipus, document_type_of(kind.issued()))
}

/// Whether `tipus` is a legal invoice of the kinds the ledger slots hold.
pub open spec fn spec_invoice_family(tipus: Seq<char>) -> bool {
    tipus == seq!['S', 'Z'] || tipus == seq!['E', 'S'] || tipus == seq!['V', 'S']
}

/// Whether `tipus` is a legal invoice of the kinds the ledger slots hold:
/// `SZ`, `ES` or `VS`. Stornos, correctives, proformas and delivery notes are
/// not.
pub fn is_invoice_family(tipus: &str) -> (b: bool)
    ensures
        b == spec_invoice_family(tipus@),
{
    text_eq(tipus, document_type_of(IssuedKind::Invoice))
        || text_eq(tipus, document_type_of(IssuedKind::Prepayment))
        || text_eq(tipus, document_type_of(IssuedKind::Final))
}

/// The kind whose documents carry `tipus`, if any.
pub open spec fn spec_kind_of_document_type(tipus: Seq<char>) -> Option<IssuedKind> {
    if tipus == seq!['D'] {
        Some(IssuedKind::Proforma)
    } else if tipus == seq!['S', 'Z'] {
        Some(IssuedKind::Invoice)
    } else if tipus == seq!['E', 'S'] {
        Some(IssuedKind::Prepayment)
    } else if tipus == seq!['V', 'S'] {
        Some(IssuedKind::Final)
    } else if tipus == seq!['H', 'S'] {
        Some(IssuedKind::Corrective)
    } else {
        None
    }
}

/// The kind whose documents carry `tipus`, if any.
pub fn kind_of_document_type(tipus: &str) -> (k: Option<IssuedKind>)
    ensures
        k == spec_kind_of_document_type(tipus@),
        match k {
            Some(kind) => spec_document_type(kind) == tipus@,
            None => forall|kind: IssuedKind| spec_document_type(kind) != tipus@,
        },
{
    if crate::text::text_eq(tipus, document_type_of(IssuedKind::Proforma)) {
        Some(IssuedKind::Proforma)
    } else if crate::text::text_eq(tipus, document_type_of(IssuedKind::Invoice)) {
        Some(IssuedKind::Invoice)
    } else if crate::text::text_eq(tipus, document_type_of(IssuedKind::Prepayment)) {
        Some(IssuedKind::Prepayment)
    } else if crate::text::text_eq(tipus, document_type_of(IssuedKind::Final)) {
        Some(IssuedKind::Final)
    } else if crate::text::text_eq(tipus, document_type_of(IssuedKind::Corrective)) {
        Some(IssuedKind::Corrective)
    } else {
        proof {
            assert forall|kind: IssuedKind| spec_document_type(kind) != tipus@ by {
                match kind {
                    IssuedKind::Proforma => {},
                    IssuedKind::Invoice => {},
                    IssuedKind::Prepayment => {},
                    IssuedKind::Final => {},
                    IssuedKind::Corrective => {},
                }
            }
        }
        None
    }
}

} // verus!
