//! Properties of the multi-token farm that hold across its operations.
use super::helpers::{min_units, seq_sum, units_fit};
use super::spec::{ActionView, P3View};
use super::vault::VaultView;
use crate::p3_lib::helpers::safe_mul_spec;
use crate::p4_farm_nft::spec::{index_of, lemma_index_of};
use vstd::prelude::*;

verus! {

/// Staking `amount` of a stake token adds exactly `amount` to the user's
/// stake of that token and to the farm's total of that token; the other
/// stakes stay as they were.
pub proof fn law_stake_adds_amount(c: P3View, user: Seq<char>, token: Seq<char>, amount: u128, now: u64)
    requires
        c.consistent(),
        c.stake_spec(user, token, amount, now) is Ok,
    ensures
        ({
            let n = c.stake_spec(user, token, amount, now)->Ok_0.0;
            let i = index_of(c.stake_tokens, token)->Some_0;
            &&& 0 <= i < c.stake_tokens.len()
            &&& c.stake_tokens[i] == token
            &&& n.vaults.contains_key(user)
            &&& n.vaults[user].staked == c.vaults[user].staked.update(i, (c.vaults[user].staked[i] + amount) as u128)
            &&& n.total_stake == c.total_stake.update(i, (c.total_stake[i] + amount) as u128)
        }),
{
    lemma_index_of(c.stake_tokens, token);
}

/// Unstaking part of the stake takes exactly `amount` off the user's stake of
/// that token and off the farm's total of that token (the fee goes out of
/// what is sent back); unstaking everything closes the account.
pub proof fn law_unstake_removes_amount(c: P3View, user: Seq<char>, token: Seq<char>, attached: u128, amount: u128, now: u64)
    requires
        c.consistent(),
        c.unstake_spec(user, token, attached, amount, now) is Ok,
    ensures
        ({
            let (n, left, _) = c.unstake_spec(user, token, attached, amount, now)->Ok_0;
            let i = index_of(c.stake_tokens, token)->Some_0;
            let v = c.vaults[user];
            &&& 0 <= i < c.stake_tokens.len()
            &&& amount == seq_sum(v.staked) ==> !n.vaults.contains_key(user) && left == 0
            &&& amount != seq_sum(v.staked) ==> {
                &&& n.vaults.contains_key(user)
                &&& left == v.staked[i] - amount
                &&& n.vaults[user].staked == v.staked.update(i, left)
                &&& n.total_stake == c.total_stake.update(i, (c.total_stake[i] - amount) as u128)
            }
        }),
{
    lemma_index_of(c.stake_tokens, token);
}

/// Unstaking returns the staked tokens minus a fee of `fee_rate` basis
/// points: the fee is `amount * fee_rate / 10_000` rounded down (its
/// 10_000-fold is within one 10_000 below `amount * fee_rate`), the fee and
/// the amount sent add up to `amount`, and the token's stake total goes down
/// by the whole amount. A zero amount sends nothing.
pub proof fn law_unstake_fee_in_basis_points(c: P3View, user: Seq<char>, i: int, amount: u128)
    requires
        c.transfer_staked_spec(user, i, amount) is Some,
    ensures
        ({
            let (n, acts) = c.transfer_staked_spec(user, i, amount)->Some_0;
            &&& amount == 0 ==> n == c && acts.len() == 0
            &&& amount > 0 ==> {
                &&& acts.len() == 1
                &&& n.total_stake == c.total_stake.update(i, (c.total_stake[i] - amount) as u128)
                &&& match acts[0] {
                    ActionView::TransferStaked { amount: sent, fee, .. } =>
                        sent + fee == amount && fee * 10_000 <= amount * c.fee_rate < (fee + 1) * 10_000,
                    ActionView::TransferNear { amount: sent, .. } =>
                        sent <= amount && (amount - sent) * 10_000 <= amount * c.fee_rate < (amount - sent + 1) * 10_000,
                    _ => false,
                }
            }
        }),
{
}

/// Unstaking a positive amount the farm holds succeeds when the fee rate is at
/// most 100% (10_000 basis points) and the product fits.
pub proof fn law_unstake_fee_succeeds(c: P3View, user: Seq<char>, i: int, amount: u128)
    requires
        amount * c.fee_rate <= u128::MAX,
        c.fee_rate <= 10_000,
        0 <= i < c.total_stake.len(),
        c.total_stake[i] >= amount,
    ensures
        c.transfer_staked_spec(user, i, amount) is Some,
{
    assert(amount * c.fee_rate <= amount * 10_000) by (nonlinear_arith)
        requires c.fee_rate <= 10_000, amount >= 0;
}

/// `min_units` over the first `n` tokens is the least of their units.
pub proof fn lemma_min_units_is_least(staked: Seq<u128>, rates: Seq<u128>, n: int)
    requires
        0 <= n <= rates.len(),
        units_fit(staked, rates),
    ensures
        forall|j: int| 0 <= j < n ==> min_units(staked, rates, n) <= #[trigger] safe_mul_spec(staked[j], rates[j]),
        n > 0 ==> exists|j: int| 0 <= j < n && min_units(staked, rates, n) == #[trigger] safe_mul_spec(staked[j], rates[j]),
    decreases n,
{
    if n > 0 {
        lemma_min_units_is_least(staked, rates, n - 1);
        let s = safe_mul_spec(staked[n - 1], rates[n - 1]);
        assert(s <= u128::MAX);
        if n - 1 > 0 {
            let j = choose|j: int| 0 <= j < n - 1 && min_units(staked, rates, n - 1) == #[trigger] safe_mul_spec(staked[j], rates[j]);
            assert(0 <= j < n && min_units(staked, rates, n) == safe_mul_spec(staked[j], rates[j])
                || min_units(staked, rates, n) == s);
        }
    }
}

/// A vault's staking units: the least of its stake tokens' units (stake times
/// the token's rate), raised by `cheddar_nft_boost` basis points when it holds
/// a Cheddy NFT: the raise is `s * boost / 10_000` rounded down.
pub proof fn law_units_boost_in_basis_points(c: P3View, v: VaultView)
    requires
        c.units_of(v) is Some,
        c.stake_rates.len() <= v.staked.len(),
    ensures
        ({
            let u = c.units_of(v)->Some_0;
            let s = min_units(v.staked, c.stake_rates, c.stake_rates.len() as int);
            &&& forall|j: int| 0 <= j < c.stake_rates.len() ==> s <= #[trigger] safe_mul_spec(v.staked[j], c.stake_rates[j])
            &&& c.stake_rates.len() > 0 ==> exists|j: int| 0 <= j < c.stake_rates.len() && s == #[trigger] safe_mul_spec(v.staked[j], c.stake_rates[j])
            &&& v.cheddy.len() == 0 ==> u == s
            &&& v.cheddy.len() > 0 ==> s <= u && (u - s) * 10_000 <= s * c.cheddar_nft_boost < (u - s + 1) * 10_000
        }),
{
    lemma_min_units_is_least(v.staked, c.stake_rates, c.stake_rates.len() as int);
    let s = min_units(v.staked, c.stake_rates, c.stake_rates.len() as int);
    if v.cheddy.len() > 0 {
        assert(s * c.cheddar_nft_boost >= 0) by (nonlinear_arith)
            requires s >= 0;
    }
}

} // verus!
