//! Fund distribution: integer-exact splitting of a custody balance into the
//! promoter's and the operator's shares at settlement time.

use vstd::prelude::*;

verus! {

/// Basis points of a fulfilled deal paid to the promoter (the KOL).
pub const KOL_SHARE_PERCENTAGE: u64 = 9000;

/// Basis points of a fulfilled deal paid to the marketplace owner.
pub const OWNER_SHARE_PERCENTAGE: u64 = 1000;

/// One whole, in basis points: shares are fractions of this.
pub const DIVIDER: u64 = 10_000;

/// The promoter's share of `total`, rounded down.
pub open spec fn spec_kol_amount(total: u64) -> int {
    total * KOL_SHARE_PERCENTAGE / (DIVIDER as int)
}

/// The owner's share of `total`, rounded down.
pub open spec fn spec_owner_amount(total: u64) -> int {
    total * OWNER_SHARE_PERCENTAGE / (DIVIDER as int)
}

/// Splitting never mints value: the two shares sum to at most the total, and
/// what truncation leaves unclaimed in custody is less than one whole
/// `DIVIDER` unit of dust.
pub proof fn lemma_shares_bounded(total: u64)
    ensures
        0 <= spec_kol_amount(total),
        0 <= spec_owner_amount(total),
        spec_kol_amount(total) + spec_owner_amount(total) <= total,
        total - (spec_kol_amount(total) + spec_owner_amount(total)) < DIVIDER,
{
    let t = total as int;
    let d = DIVIDER as int;
    let a = t * (KOL_SHARE_PERCENTAGE as int);
    let b = t * (OWNER_SHARE_PERCENTAGE as int);
    assert(a + b == t * d && 0 <= a && 0 <= b) by (nonlinear_arith)
        requires
            a == t * (KOL_SHARE_PERCENTAGE as int),
            b == t * (OWNER_SHARE_PERCENTAGE as int),
            d == DIVIDER as int,
            0 <= t,
    ;
    vstd::arithmetic::div_mod::lemma_fundamental_div_mod(a, d);
    vstd::arithmetic::div_mod::lemma_fundamental_div_mod(b, d);
    vstd::arithmetic::div_mod::lemma_mod_division_less_than_divisor(a, d);
    vstd::arithmetic::div_mod::lemma_mod_division_less_than_divisor(b, d);
    vstd::arithmetic::div_mod::lemma_div_pos_is_pos(a, d);
    vstd::arithmetic::div_mod::lemma_div_pos_is_pos(b, d);
    let q = a / d + b / d;
    assert(d * (t - q) == a % d + b % d) by (nonlinear_arith)
        requires
            a + b == t * d,
            a == d * (a / d) + a % d,
            b == d * (b / d) + b % d,
            q == a / d + b / d,
    ;
    assert(0 <= t - q && t - q <= 1) by (nonlinear_arith)
        requires
            d * (t - q) == a % d + b % d,
            0 <= a % d < d,
            0 <= b % d < d,
            d == DIVIDER,
    ;
}

/// Splits `total` into the promoter's and the owner's share, each rounded
/// down; the remainder stays where the total was held.
pub fn calculate_shares(total: u64) -> (shares: (u64, u64))
    requires
        total * KOL_SHARE_PERCENTAGE <= u64::MAX,
    ensures
        shares.0 == spec_kol_amount(total),
        shares.1 == spec_owner_amount(total),
        shares.0 + shares.1 <= total,
        total - (shares.0 + shares.1) < DIVIDER,
{
    proof {
        lemma_shares_bounded(total);
        assert(total * OWNER_SHARE_PERCENTAGE <= total * KOL_SHARE_PERCENTAGE)
            by (nonlinear_arith);
    }
    let kol_amount = total * KOL_SHARE_PERCENTAGE / DIVIDER;
    let owner_amount = total * OWNER_SHARE_PERCENTAGE / DIVIDER;
    (kol_amount, owner_amount)
}

} // verus!
