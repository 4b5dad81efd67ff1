use vstd::prelude::*;

verus! {

/// Basis points that make up the whole of a reward pool.
pub const BASIS_POINTS_WHOLE: u16 = 10000;

/// How a sale price is turned into a reward pool.
#[derive(Clone, Copy, Debug, PartialEq, Eq, Structural)]
pub enum PayoutOperation {
    Divide,
    Multiply,
}

/// The payout configuration of a reward center.
#[derive(Clone, Copy, Debug, PartialEq, Eq, Structural)]
pub struct RewardRules {
    pub mathematical_operand: PayoutOperation,
    pub payout_numeral: u64,
    pub seller_reward_payout_basis_points: u16,
}

/// The reward amounts computed for one sale.
#[derive(Clone, Copy, Debug, PartialEq, Eq, Structural)]
pub struct RewardPayout {
    pub buyer_amount: u64,
    pub seller_amount: u64,
}

/// Rules that may be stored in a reward center: the seller's share is at most the
/// whole pool and the numeral is never zero.
pub open spec fn valid_rules(rules: RewardRules) -> bool {
    &&& rules.seller_reward_payout_basis_points <= BASIS_POINTS_WHOLE
    &&& rules.payout_numeral != 0
}

/// The reward pool of a sale: the price divided by the numeral, or the price times the
/// numeral, saturated at the largest `u64`.
pub open spec fn reward_pool(price: u64, rules: RewardRules) -> int {
    match rules.mathematical_operand {
        PayoutOperation::Divide => price as int / rules.payout_numeral as int,
        PayoutOperation::Multiply => if price as int * rules.payout_numeral as int > u64::MAX as int {
            u64::MAX as int
        } else {
            price as int * rules.payout_numeral as int
        },
    }
}

/// The seller's part of a pool: `pool * bps / 10_000`, rounded down.
pub open spec fn seller_share(pool: int, basis_points: u16) -> int {
    pool * basis_points as int / BASIS_POINTS_WHOLE as int
}

/// The payout of a sale at `price` under `rules`: the seller gets its share of the
/// pool and the buyer the rest.
pub open spec fn reward_of(price: u64, rules: RewardRules) -> RewardPayout {
    let pool = reward_pool(price, rules);
    let seller = seller_share(pool, rules.seller_reward_payout_basis_points);
    RewardPayout { buyer_amount: (pool - seller) as u64, seller_amount: seller as u64 }
}

/// Checks that `rules` may be stored in a reward center.
pub fn validate_rules(rules: &RewardRules) -> (r: bool)
    ensures
        r == valid_rules(*rules),
{
    rules.seller_reward_payout_basis_points <= BASIS_POINTS_WHOLE && rules.payout_numeral != 0
}

/// The rules a reward center gets when no configuration is given: a fifth of the
/// price, a tenth of which goes to the seller.
pub fn default_reward_rules() -> (r: RewardRules)
    ensures
        r == (RewardRules {
            mathematical_operand: PayoutOperation::Divide,
            payout_numeral: 5,
            seller_reward_payout_basis_points: 1000,
        }),
        valid_rules(r),
{
    RewardRules {
        mathematical_operand: PayoutOperation::Divide,
        payout_numeral: 5,
        seller_reward_payout_basis_points: 1000,
    }
}

/// Computes the reward pool of a sale.
pub fn compute_pool(price: u64, rules: &RewardRules) -> (pool: u64)
    requires
        valid_rules(*rules),
    ensures
        pool == reward_pool(price, *rules),
{
    match rules.mathematical_operand {
        PayoutOperation::Divide => price / rules.payout_numeral,
        PayoutOperation::Multiply => match price.checked_mul(rules.payout_numeral) {
            Some(p) => p,
            None => u64::MAX,
        },
    }
}

/// Computes the buyer's and the seller's rewards for a sale at `price`.
/// The pool saturates instead of overflowing; the seller's share is exact.
pub fn compute_reward(price: u64, rules: &RewardRules) -> (r: RewardPayout)
    requires
        valid_rules(*rules),
    ensures
        r == reward_of(price, *rules),
        r.seller_amount == seller_share(reward_pool(price, *rules), rules.seller_reward_payout_basis_points),
        r.buyer_amount + r.seller_amount == reward_pool(price, *rules),
        r.buyer_amount + r.seller_amount <= u64::MAX,
{
    let pool = compute_pool(price, rules);
    let bps = rules.seller_reward_payout_basis_points;
    proof {
        lemma_share_within_pool(pool as int, bps);
    }
    let wide: u128 = (pool as u128) * (bps as u128);
    let seller: u64 = (wide / (BASIS_POINTS_WHOLE as u128)) as u64;
    RewardPayout { buyer_amount: pool - seller, seller_amount: seller }
}

/// The seller's share of a pool never exceeds the pool.
pub proof fn lemma_share_within_pool(pool: int, basis_points: u16)
    requires
        0 <= pool,
        basis_points <= BASIS_POINTS_WHOLE,
    ensures
        0 <= seller_share(pool, basis_points) <= pool,
{
    assert(0 <= pool * basis_points as int / 10000 <= pool) by (nonlinear_arith)
        requires
            0 <= pool,
            0 <= basis_points <= 10000,
    ;
}

/// `10^exp`, saturated at the largest `u64`.
pub open spec fn saturating_pow10(exp: nat) -> int
    decreases exp,
{
    if exp == 0 {
        1
    } else {
        let p = 10 * saturating_pow10((exp - 1) as nat);
        if p > u64::MAX as int { u64::MAX as int } else { p }
    }
}

/// The raw token amount for `amount` whole tokens of a mint with `decimals` decimals:
/// `amount * 10^decimals`, each step saturating at the largest `u64`.
pub open spec fn amount_with_decimals(amount: u64, decimals: u8) -> int {
    let scale = saturating_pow10(decimals as nat);
    if amount as int * scale > u64::MAX as int { u64::MAX as int } else { amount as int * scale }
}

/// Scales a whole-token amount to raw units of a mint with `decimals` decimals.
pub fn withdrawal_amount_with_decimals(amount: u64, decimals: u8) -> (r: u64)
    ensures
        r == amount_with_decimals(amount, decimals),
{
    let mut scale: u64 = 1;
    let mut i: u8 = 0;
    while i < decimals
        invariant
            i <= decimals,
            scale == saturating_pow10(i as nat),
        decreases decimals - i,
    {
        scale = match scale.checked_mul(10) {
            Some(s) => s,
            None => u64::MAX,
        };
        i = i + 1;
    }
    match amount.checked_mul(scale) {
        Some(v) => v,
        None => u64::MAX,
    }
}

} // verus!
