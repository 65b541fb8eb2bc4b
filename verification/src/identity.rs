//! The identities the worker derives everything from: the deployment's
//! namespace, the order key (the Virtual Object key, an order number) and
//! the external ids of the order's documents.

use vstd::prelude::*;
use vstd::string::*;

use crate::kinds::{DocumentKind, IssuedKind};
use crate::text::{char_is_space, has_space, is_space, trim, trimmed};

verus! {

/// The deployment's namespace: the first segment of every external id.
#[derive(Debug, PartialEq, Eq)]
pub struct Namespace {
    text: String,
}

impl View for Namespace {
    type V = Seq<char>;

    closed spec fn view(&self) -> Seq<char> {
        self.text@
    }
}

impl Namespace {
    /// The namespace `text`.
    pub fn new(text: &str) -> (ns: Namespace)
        ensures
            ns@ == text@,
    {
        Namespace { text: String::from_str(text) }
    }

    /// The namespace as text.
    pub fn as_str(&self) -> (s: &str)
        ensures
            s@ == self@,
    {
        self.text.as_str()
    }

    /// A copy of the namespace.
    pub fn duplicate(&self) -> (ns: Namespace)
        ensures
            ns@ == self@,
    {
        Namespace { text: self.text.clone() }
    }
}

/// The longest order key szamlazz.hu's order number takes, in bytes.
pub const ORDER_KEY_MAX_LEN: usize = 40;

/// Why a text is no order key.
#[derive(Clone, Copy, Debug, PartialEq, Eq, Structural)]
pub enum OrderKeyError {
    /// Nothing is left once trimmed.
    Empty,
    /// Whitespace inside the key.
    Whitespace,
    /// A `:`, the external-id separator.
    Colon,
    /// Not in Unicode NFC: two spellings of one order would be two keys.
    NotNfc,
    /// Longer than [`ORDER_KEY_MAX_LEN`] bytes.
    TooLong,
}

/// The rule `e` names.
pub open spec fn spec_rule(e: OrderKeyError) -> Seq<char> {
    match e {
        OrderKeyError::Empty => "the order key must not be empty"@,
        OrderKeyError::Whitespace => "the order key must not contain whitespace"@,
        OrderKeyError::Colon => "the order key must not contain ':'"@,
        OrderKeyError::NotNfc => "the order key must be in Unicode NFC"@,
        OrderKeyError::TooLong => "the order key is too long: at most 40 are allowed (bytes)"@,
    }
}

impl OrderKeyError {
    /// The rule the text breaks, as the fault message names it.
    pub fn rule(&self) -> (s: &'static str)
        ensures
            s@ == spec_rule(*self),
    {
        match self {
            OrderKeyError::Empty => "the order key must not be empty",
            OrderKeyError::Whitespace => "the order key must not contain whitespace",
            OrderKeyError::Colon => "the order key must not contain ':'",
            OrderKeyError::NotNfc => "the order key must be in Unicode NFC",
            OrderKeyError::TooLong => "the order key is too long: at most 40 are allowed (bytes)",
        }
    }
}

/// Whether `s` contains a `:`.
pub open spec fn has_colon(s: Seq<char>) -> bool {
    exists|i: int| 0 <= i < s.len() && #[trigger] s[i] == ':'
}

/// The name szamlazz.hu's normalisation check gives `text`: whether the
/// `unicode-normalization` crate's `is_nfc` accepts it.
pub uninterp spec fn unicode_is_nfc(text: Seq<char>) -> bool;

/// Whether every character of `s` is ASCII.
pub open spec fn all_ascii(s: Seq<char>) -> bool {
    forall|i: int| 0 <= i < s.len() ==> (#[trigger] s[i] as u32) < 0x80
}

/// `unicode_normalization::is_nfc`: whether `text` is in Unicode NFC.
/// Trusted: the contract claims that the answer is the named result of the
/// text, a pure function of it, and that ASCII text is NFC (its quick check
/// passes every ASCII character as an allowed starter).
#[verifier::external_body]
fn is_nfc(text: &str) -> (b: bool)
    ensures
        b == unicode_is_nfc(text@),
        all_ascii(text@) ==> b,
{
    unicode_normalization::is_nfc(text)
}

/// The number of bytes `c` takes in UTF-8.
pub open spec fn utf8_width(c: char) -> nat {
    if (c as u32) < 0x80 {
        1
    } else if (c as u32) < 0x800 {
        2
    } else if (c as u32) < 0x10000 {
        3
    } else {
        4
    }
}

/// The number of bytes `s` takes in UTF-8.
pub open spec fn utf8_len(s: Seq<char>) -> nat
    decreases s.len(),
{
    if s.len() == 0 {
        0
    } else {
        utf8_len(s.drop_last()) + utf8_width(s.last())
    }
}

/// Whether `s` takes more than `limit` bytes in UTF-8, counted up to the
/// first character past the limit.
fn utf8_longer_than(s: &str, limit: usize) -> (b: bool)
    requires
        limit < 1000,
    ensures
        b == (utf8_len(s@) > limit),
{
    let n = s.unicode_len();
    let mut i: usize = 0;
    let mut bytes: usize = 0;
    while i < n
        invariant
            n == s@.len(),
            i <= n,
            limit < 1000,
            bytes == utf8_len(s@.subrange(0, i as int)),
            bytes <= limit,
        decreases n - i,
    {
        let c = s.get_char(i);
        let w: usize = if (c as u32) < 0x80 {
            1
        } else if (c as u32) < 0x800 {
            2
        } else if (c as u32) < 0x10000 {
            3
        } else {
            4
        };
        proof {
            assert(s@.subrange(0, i + 1).drop_last() =~= s@.subrange(0, i as int));
        }
        bytes = bytes + w;
        i = i + 1;
        if bytes > limit {
            proof { lemma_utf8_len_prefix(s@, i as int); }
            return true;
        }
    }
    proof { assert(s@.subrange(0, n as int) =~= s@); }
    false
}

/// A longer text takes at least as many bytes as its prefix.
proof fn lemma_utf8_len_prefix(s: Seq<char>, i: int)
    requires
        0 <= i <= s.len(),
    ensures
        utf8_len(s) >= utf8_len(s.subrange(0, i)),
    decreases s.len() - i,
{
    if i < s.len() {
        lemma_utf8_len_prefix(s, i + 1);
        assert(s.subrange(0, i + 1).drop_last() =~= s.subrange(0, i));
    } else {
        assert(s.subrange(0, i) =~= s);
    }
}

/// What `OrderKey::parse` makes of `raw`: the trimmed text, or the first
/// rule it breaks.
pub open spec fn spec_order_key(raw: Seq<char>) -> Result<Seq<char>, OrderKeyError> {
    let t = trim(raw);
    if t.len() == 0 {
        Err(OrderKeyError::Empty)
    } else if has_space(t) {
        Err(OrderKeyError::Whitespace)
    } else if has_colon(t) {
        Err(OrderKeyError::Colon)
    } else if !unicode_is_nfc(t) {
        Err(OrderKeyError::NotNfc)
    } else if utf8_len(t) > ORDER_KEY_MAX_LEN {
        Err(OrderKeyError::TooLong)
    } else {
        Ok(t)
    }
}

/// An order number as the worker keys an order by it: trimmed, non-empty,
/// without whitespace or `:`, in NFC, at most 40 bytes.
#[derive(Debug, PartialEq, Eq)]
pub struct OrderKey {
    text: String,
}

impl View for OrderKey {
    type V = Seq<char>;

    closed spec fn view(&self) -> Seq<char> {
        self.text@
    }
}

/// Whether `s` holds no whitespace, checked character by character.
fn scan_space(s: &str) -> (b: bool)
    ensures
        b == has_space(s@),
{
    let n = s.unicode_len();
    let mut i: usize = 0;
    while i < n
        invariant
            n == s@.len(),
            i <= n,
            forall|j: int| 0 <= j < i ==> !is_space(#[trigger] s@[j]),
        decreases n - i,
    {
        if char_is_space(s.get_char(i)) {
            return true;
        }
        i = i + 1;
    }
    false
}

/// Whether `s` holds a `:`.
fn scan_colon(s: &str) -> (b: bool)
    ensures
        b == has_colon(s@),
{
    let n = s.unicode_len();
    let mut i: usize = 0;
    while i < n
        invariant
            n == s@.len(),
            i <= n,
            forall|j: int| 0 <= j < i ==> #[trigger] s@[j] != ':',
        decreases n - i,
    {
        if s.get_char(i) == ':' {
            return true;
        }
        i = i + 1;
    }
    false
}

impl OrderKey {
    /// Parses an order number, leniently: the text is trimmed first.
    pub fn parse(raw: &str) -> (r: Result<OrderKey, OrderKeyError>)
        ensures
            match r {
                Ok(key) => spec_order_key(raw@) == Ok::<Seq<char>, OrderKeyError>(key@),
                Err(e) => spec_order_key(raw@) == Err::<Seq<char>, OrderKeyError>(e),
            },
            r matches Err(OrderKeyError::NotNfc) ==> !all_ascii(trim(raw@)),
    {
        let t = trimmed(raw);
        let s = t.as_str();
        if s.unicode_len() == 0 {
            return Err(OrderKeyError::Empty);
        }
        if scan_space(s) {
            return Err(OrderKeyError::Whitespace);
        }
        if scan_colon(s) {
            return Err(OrderKeyError::Colon);
        }
        if !is_nfc(s) {
            return Err(OrderKeyError::NotNfc);
        }
        if utf8_longer_than(s, ORDER_KEY_MAX_LEN) {
            return Err(OrderKeyError::TooLong);
        }
        Ok(OrderKey { text: t })
    }

    /// The order number.
    pub fn as_str(&self) -> (s: &str)
        ensures
            s@ == self@,
    {
        self.text.as_str()
    }

    /// A copy of the key.
    pub fn duplicate(&self) -> (key: OrderKey)
        ensures
            key@ == self@,
    {
        OrderKey { text: self.text.clone() }
    }
}

/// The external-id segment of a kind.
pub open spec fn spec_kind_name(kind: IssuedKind) -> Seq<char> {
    match kind {
        IssuedKind::Proforma => "proforma"@,
        IssuedKind::Invoice => "invoice"@,
        IssuedKind::Prepayment => "prepayment"@,
        IssuedKind::Final => "final"@,
        IssuedKind::Corrective => "corrective"@,
    }
}

/// The name of `kind` as the contract writes it (`invoice`, `final`, …).
pub fn kind_name(kind: IssuedKind) -> (s: &'static str)
    ensures
        s@ == spec_kind_name(kind),
{
    match kind {
        IssuedKind::Proforma => "proforma",
        IssuedKind::Invoice => "invoice",
        IssuedKind::Prepayment => "prepayment",
        IssuedKind::Final => "final",
        IssuedKind::Corrective => "corrective",
    }
}

/// The external id of the `kind` document of `order`:
/// `{namespace}:{order}:{kind}`.
pub open spec fn spec_kind_id(ns: Seq<char>, order: Seq<char>, kind: IssuedKind) -> Seq<char> {
    ns + ":"@ + order + ":"@ + spec_kind_name(kind)
}

/// The external id of a corrective: `{namespace}:{order}:corrective:{id}`.
pub open spec fn spec_corrective_id(ns: Seq<char>, order: Seq<char>, id: Seq<char>) -> Seq<char> {
    ns + ":"@ + order + ":corrective:"@ + id
}

/// The external id of the storno of `number`, an invoice of `order`:
/// `{namespace}:{order}:storno:{number}`.
pub open spec fn spec_storno_id(ns: Seq<char>, order: Seq<char>, number: Seq<char>) -> Seq<char> {
    ns + ":"@ + order + ":storno:"@ + number
}

/// The external id of the storno of `number`, a document no order manages:
/// `{namespace}:by-number:{number}:storno`.
pub open spec fn spec_unmanaged_storno_id(ns: Seq<char>, number: Seq<char>) -> Seq<char> {
    ns + ":by-number:"@ + number + ":storno"@
}

/// The sentinel external id the credentials probe queries:
/// `{namespace}:probe`.
pub open spec fn spec_probe_id(ns: Seq<char>) -> Seq<char> {
    ns + ":probe"@
}

/// An external id (`szamlaKulsoAzon`): what the worker finds its documents by.
#[derive(Debug, PartialEq, Eq)]
pub struct ExternalId {
    text: String,
}

impl View for ExternalId {
    type V = Seq<char>;

    closed spec fn view(&self) -> Seq<char> {
        self.text@
    }
}

impl ExternalId {
    /// The external id `text`, as given.
    pub fn new(text: &str) -> (id: ExternalId)
        ensures
            id@ == text@,
    {
        ExternalId { text: String::from_str(text) }
    }

    /// The id as text.
    pub fn as_str(&self) -> (s: &str)
        ensures
            s@ == self@,
    {
        self.text.as_str()
    }

    /// A copy of the id.
    pub fn duplicate(&self) -> (id: ExternalId)
        ensures
            id@ == self@,
    {
        ExternalId { text: self.text.clone() }
    }

    /// The external id of the `kind` document of `order`.
    pub fn for_kind(ns: &Namespace, order: &OrderKey, kind: DocumentKind) -> (id: ExternalId)
        ensures
            id@ == spec_kind_id(ns@, order@, crate::kinds::issued_kind(kind)),
    {
        let text = String::from_str(ns.as_str()).concat(":").concat(order.as_str()).concat(
            ":",
        ).concat(kind_name(kind.issued()));
        ExternalId { text }
    }

    /// The external id of the corrective `correction` of `order`.
    pub fn for_corrective(ns: &Namespace, order: &OrderKey, correction: &str) -> (id: ExternalId)
        ensures
            id@ == spec_corrective_id(ns@, order@, correction@),
    {
        let text = String::from_str(ns.as_str()).concat(":").concat(order.as_str()).concat(
            ":corrective:",
        ).concat(correction);
        ExternalId { text }
    }

    /// The external id of the storno of `number`, an invoice of `order`.
    pub fn for_storno(ns: &Namespace, order: &OrderKey, number: &str) -> (id: ExternalId)
        ensures
            id@ == spec_storno_id(ns@, order@, number@),
    {
        let text = String::from_str(ns.as_str()).concat(":").concat(order.as_str()).concat(
            ":storno:",
        ).concat(number);
        ExternalId { text }
    }

    /// The external id of the storno of `number`, a document no order
    /// manages.
    pub fn for_unmanaged_storno(ns: &Namespace, number: &str) -> (id: ExternalId)
        ensures
            id@ == spec_unmanaged_storno_id(ns@, number@),
    {
        let text = String::from_str(ns.as_str()).concat(":by-number:").concat(number).concat(
            ":storno",
        );
        ExternalId { text }
    }

    /// The sentinel id the credentials probe queries.
    pub fn for_probe(ns: &Namespace) -> (id: ExternalId)
        ensures
            id@ == spec_probe_id(ns@),
    {
        ExternalId { text: String::from_str(ns.as_str()).concat(":probe") }
    }
}

} // verus!
