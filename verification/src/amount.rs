//! Money amounts, held as `rust_decimal` holds them: a mantissa and a scale.
//! The arithmetic is `rust_decimal`'s, called through two trusted wrappers.

use vstd::prelude::*;

use rust_decimal::Decimal;

verus! {

/// An amount: `mantissa × 10^-scale`, the parts of a `rust_decimal::Decimal`.
#[derive(Clone, Copy, Debug, PartialEq, Eq, Structural)]
pub struct Amount {
    pub mantissa: i128,
    pub scale: u32,
}

impl Amount {
    /// The amount `mantissa × 10^-scale`.
    pub fn new(mantissa: i128, scale: u32) -> (a: Amount)
        ensures
            a.mantissa == mantissa,
            a.scale == scale,
    {
        Amount { mantissa, scale }
    }
}

/// The parts of what `Decimal::checked_add` answers for the two amounts
/// given by their parts (`None` also when a part is out of `Decimal`'s
/// range).
pub uninterp spec fn decimal_checked_add(am: int, ascale: int, bm: int, bscale: int) -> Option<(int, int)>;

/// The parts of what `Decimal::checked_sub` answers for the two amounts
/// given by their parts (`None` also when a part is out of `Decimal`'s
/// range).
pub uninterp spec fn decimal_checked_sub(am: int, ascale: int, bm: int, bscale: int) -> Option<(int, int)>;

/// The parts of an optional amount.
pub open spec fn parts(a: Option<Amount>) -> Option<(int, int)> {
    match a {
        Some(a) => Some((a.mantissa as int, a.scale as int)),
        None => None,
    }
}

/// `Decimal::checked_add` of `a` and `b`: both are built with
/// `Decimal::try_from_i128_with_scale` (an out-of-range part is `None`) and
/// the sum is read back with `mantissa` and `scale`. Trusted: the result is
/// claimed to be the named answer of the four parts, nothing more.
#[verifier::external_body]
fn checked_add(a: Amount, b: Amount) -> (r: Option<Amount>)
    ensures
        parts(r) == decimal_checked_add(a.mantissa as int, a.scale as int, b.mantissa as int, b.scale as int),
{
    let (Ok(x), Ok(y)) = (
        Decimal::try_from_i128_with_scale(a.mantissa, a.scale),
        Decimal::try_from_i128_with_scale(b.mantissa, b.scale),
    ) else {
        return None;
    };
    x.checked_add(y).map(|d| Amount { mantissa: d.mantissa(), scale: d.scale() })
}

/// `Decimal::checked_sub` of `a` and `b`, built and read back as
/// [`checked_add`] does. Trusted likewise.
#[verifier::external_body]
fn checked_sub(a: Amount, b: Amount) -> (r: Option<Amount>)
    ensures
        parts(r) == decimal_checked_sub(a.mantissa as int, a.scale as int, b.mantissa as int, b.scale as int),
{
    let (Ok(x), Ok(y)) = (
        Decimal::try_from_i128_with_scale(a.mantissa, a.scale),
        Decimal::try_from_i128_with_scale(b.mantissa, b.scale),
    ) else {
        return None;
    };
    x.checked_sub(y).map(|d| Amount { mantissa: d.mantissa(), scale: d.scale() })
}

/// The sum of `payments` from the left, as the named additions give it;
/// `None` once one overflows.
pub open spec fn spec_sum(payments: Seq<Amount>) -> Option<(int, int)>
    decreases payments.len(),
{
    if payments.len() == 0 {
        Some((0, 0))
    } else {
        match spec_sum(payments.drop_last()) {
            Some((m, s)) => decimal_checked_add(m, s, payments.last().mantissa as int, payments.last().scale as int),
            None => None,
        }
    }
}

/// What is still owed on a document of `gross` with `payments` registered:
/// `gross − Σ payments`; `None` when there is no gross total or the
/// arithmetic overflows.
pub open spec fn spec_outstanding(gross: Option<Amount>, payments: Seq<Amount>) -> Option<(int, int)> {
    match gross {
        None => None,
        Some(g) => match spec_sum(payments) {
            Some((m, s)) => decimal_checked_sub(g.mantissa as int, g.scale as int, m, s),
            None => None,
        },
    }
}

/// The outstanding amount of a document of `gross` with `payments`
/// registered.
pub fn outstanding(gross: Option<Amount>, payments: &Vec<Amount>) -> (r: Option<Amount>)
    ensures
        parts(r) == spec_outstanding(gross, payments@),
{
    let g = match gross {
        None => return None,
        Some(g) => g,
    };
    let mut total = Amount { mantissa: 0, scale: 0 };
    let mut i: usize = 0;
    while i < payments.len()
        invariant
            i <= payments@.len(),
            spec_sum(payments@.subrange(0, i as int)) == Some((total.mantissa as int, total.scale as int)),
        decreases payments@.len() - i,
    {
        proof {
            assert(payments@.subrange(0, i + 1).drop_last() =~= payments@.subrange(0, i as int));
        }
        match checked_add(total, payments[i]) {
            Some(sum) => total = sum,
            None => {
                proof {
                    lemma_sum_overflow_stays(payments@, i as int + 1);
                }
                return None;
            },
        }
        i = i + 1;
    }
    proof {
        assert(payments@.subrange(0, i as int) =~= payments@);
    }
    checked_sub(g, total)
}

/// Once the running sum overflows, the whole sum is `None`.
proof fn lemma_sum_overflow_stays(s: Seq<Amount>, i: int)
    requires
        0 <= i <= s.len(),
        spec_sum(s.subrange(0, i)) is None,
    ensures
        spec_sum(s) is None,
    decreases s.len() - i,
{
    if i < s.len() {
        assert(s.subrange(0, i + 1).drop_last() =~= s.subrange(0, i));
        lemma_sum_overflow_stays(s, i + 1);
    } else {
        assert(s.subrange(0, i) =~= s);
    }
}

} // verus!
