//! Properties of the NFT farm that hold across its operations.
use super::helpers::{expected_cheddar_stake_spec, min_stake_fits, min_stake_spec, nft_units, split_contract_token, units_fit};
use super::spec::{index_of, lemma_index_of, ActionView, P4View};
use super::vault::{lemma_tokens_upto_update, total_tokens, vault_ping_spec, VaultView};
use vstd::prelude::*;

verus! {

/// Staking one more NFT is only accepted when the Cheddar the user locked
/// covers one Cheddar rate per NFT staked afterwards; the stake adds exactly
/// that NFT and leaves the locked Cheddar as it was.
pub proof fn law_nft_stake_needs_cheddar(c: P4View, user: Seq<char>, nft_contract: Seq<char>, token: Seq<char>, now: u64)
    requires
        c.consistent(),
        c.nft_stake_spec(user, nft_contract, token, now) is Ok,
    ensures
        ({
            let n = c.nft_stake_spec(user, nft_contract, token, now)->Ok_0;
            &&& n.vaults.contains_key(user)
            &&& total_tokens(n.vaults[user].staked) == total_tokens(c.vaults[user].staked) + 1
            &&& n.vaults[user].cheddar_staked == c.vaults[user].cheddar_staked
            &&& n.vaults[user].cheddar_staked >= total_tokens(n.vaults[user].staked) * c.cheddar_rate
            &&& n.total_cheddar_stake == c.total_cheddar_stake
        }),
{
    lemma_index_of(c.stake_nft_tokens, nft_contract);
    let i = index_of(c.stake_nft_tokens, nft_contract)->Some_0;
    let v = c.vaults[user];
    assert(c.vault_fits(v));
    let pv = c.ping_all(v, c.round_at(now))->Some_0.1;
    let staked = pv.staked.update(i, pv.staked[i].push(token));
    lemma_tokens_upto_update(pv.staked, i, pv.staked[i].push(token), pv.staked.len() as int);
    assert(total_tokens(staked) == total_tokens(v.staked) + 1);
    assert(expected_cheddar_stake_spec(total_tokens(v.staked), c.cheddar_rate) == (total_tokens(v.staked) + 1) * c.cheddar_rate);
}

/// Pinging a vault a second time with the same accumulator and round changes
/// nothing: the farmed units of a round are counted once.
pub proof fn law_vault_ping_idempotent(v: VaultView, acc: u128, round: u64)
    requires
        vault_ping_spec(v, acc, round) is Some,
    ensures
        vault_ping_spec(vault_ping_spec(v, acc, round)->Some_0, acc, round) == vault_ping_spec(v, acc, round),
{
}

/// Within one round the status of an account does not change with time: the
/// farm is harvested once per round.
pub proof fn law_status_same_round(c: P4View, a: Seq<char>, t1: u64, t2: u64)
    requires
        c.round_at(t1) == c.round_at(t2),
    ensures
        c.status_vault(a, t1) == c.status_vault(a, t2),
        c.status_timestamp(t1) == c.status_timestamp(t2),
{
}

/// Unstaking one NFT while others stay staked sends back that NFT and one
/// Cheddar rate of the locked Cheddar: the user's locked Cheddar and the
/// farm's total both fall by the rate, the collection total by one, and the
/// NFT leaves the user's stake. Unstaking the last NFT closes the account.
pub proof fn law_unstake_returns_nft_and_cheddar(c: P4View, user: Seq<char>, nft_contract: Seq<char>, token: Seq<char>, attached: u128, now: u64)
    requires
        c.consistent(),
        c.unstake_spec(user, nft_contract, token, attached, now) is Ok,
    ensures
        ({
            let (n, left, acts) = c.unstake_spec(user, nft_contract, token, attached, now)->Ok_0;
            let i = index_of(c.stake_nft_tokens, nft_contract)->Some_0;
            let v = c.vaults[user];
            &&& 0 <= i < c.stake_nft_tokens.len()
            &&& total_tokens(v.staked) == 1 ==> !n.vaults.contains_key(user)
            &&& total_tokens(v.staked) != 1 ==> {
                &&& n.vaults.contains_key(user)
                &&& n.vaults[user].cheddar_staked + c.cheddar_rate == v.cheddar_staked
                &&& n.total_cheddar_stake + c.cheddar_rate == c.total_cheddar_stake
                &&& n.total_stake[i] + 1 == c.total_stake[i]
                &&& total_tokens(n.vaults[user].staked) + 1 == total_tokens(v.staked)
                &&& left == n.vaults[user].staked[i]
                &&& acts == seq![
                    ActionView::TransferStakedNft { user, nft_contract_id: nft_contract, nft_ctr_idx: i as usize, token_id: token },
                    ActionView::TransferStakedCheddar { user, cheddar: c.cheddar, amount: c.cheddar_rate },
                ]
            }
        }),
{
    lemma_index_of(c.stake_nft_tokens, nft_contract);
    let i = index_of(c.stake_nft_tokens, nft_contract)->Some_0;
    let v = c.vaults[user];
    assert(c.vault_fits(v));
    if total_tokens(v.staked) != 1 {
        lemma_index_of(v.staked[i], token);
        let t = index_of(v.staked[i], token)->Some_0;
        let pv = c.ping_all(v, c.round_at(now))->Some_0.1;
        let s = pv.staked[i].remove(t);
        lemma_tokens_upto_update(pv.staked, i, s, pv.staked.len() as int);
    }
}

/// The units of `count` NFTs at `rate` are `count * rate`.
pub proof fn lemma_nft_units_exact(count: int, rate: u128)
    requires
        count >= 0,
    ensures
        nft_units(count, rate) == count * rate,
{
    let e = crate::p3_lib::constants::E24 as int;
    assert(count * e * rate == (count * rate) * e) by (nonlinear_arith);
    vstd::arithmetic::div_mod::lemma_div_multiples_vanish(count * rate, e);
    assert((count * rate) * e == e * (count * rate)) by (nonlinear_arith);
}

/// `min_stake_spec` over the first `n` collections is the least of their
/// units, `count * rate`.
pub proof fn lemma_min_stake_is_least(staked: Seq<Seq<Seq<char>>>, rates: Seq<u128>, n: int)
    requires
        0 <= n <= rates.len(),
        rates.len() <= staked.len(),
        min_stake_fits(staked, rates),
    ensures
        forall|j: int| 0 <= j < n ==> min_stake_spec(staked, rates, n) <= #[trigger] staked[j].len() * rates[j],
        n > 0 ==> exists|j: int| 0 <= j < n && min_stake_spec(staked, rates, n) == #[trigger] staked[j].len() * rates[j],
        0 <= min_stake_spec(staked, rates, n) <= u128::MAX,
    decreases n,
{
    if n > 0 {
        lemma_min_stake_is_least(staked, rates, n - 1);
        lemma_nft_units_exact(staked[n - 1].len() as int, rates[n - 1]);
        assert(units_fit(staked[n - 1].len() as int, rates[n - 1]));
        let m = min_stake_spec(staked, rates, n);
        let sn = nft_units(staked[n - 1].len() as int, rates[n - 1]);
        assert(0 <= sn <= u128::MAX);
        assert(sn == staked[n - 1].len() * rates[n - 1]);
        assert(min_stake_spec(staked, rates, 0) == u128::MAX);
        assert(m == if sn < min_stake_spec(staked, rates, n - 1) { sn } else { min_stake_spec(staked, rates, n - 1) });
        if m == staked[n - 1].len() * rates[n - 1] {
            assert(0 <= n - 1 < n && m == staked[n - 1].len() * rates[n - 1]);
        } else {
            assert(n - 1 > 0);
            let j = choose|j: int| 0 <= j < n - 1 && min_stake_spec(staked, rates, n - 1) == #[trigger] staked[j].len() * rates[j];
            assert(0 <= j < n && m == staked[j].len() * rates[j]);
        }
    }
}

/// A vault's staking units: the least of its collections' units (staked NFTs
/// times the collection's rate), raised when it holds a boost NFT by the boost
/// of that NFT's contract in basis points (`cheddy_boost` for the Cheddy
/// contract, `nft_boost` otherwise): the raise is `s * boost / 10_000`
/// rounded down.
pub proof fn law_units_boost_in_basis_points(c: P4View, v: VaultView)
    requires
        c.units_of(v) is Some,
        c.stake_rates.len() <= v.staked.len(),
    ensures
        ({
            let u = c.units_of(v)->Some_0;
            let s = min_stake_spec(v.staked, c.stake_rates, c.stake_rates.len() as int);
            &&& forall|j: int| 0 <= j < c.stake_rates.len() ==> s <= #[trigger] v.staked[j].len() * c.stake_rates[j]
            &&& c.stake_rates.len() > 0 ==> exists|j: int| 0 <= j < c.stake_rates.len() && s == #[trigger] v.staked[j].len() * c.stake_rates[j]
            &&& v.boost_nft.len() == 0 ==> u == s
            &&& v.boost_nft.len() > 0 ==> (split_contract_token(v.boost_nft) matches Some((ct, _)) && {
                let rate = if ct == c.cheddy { c.cheddy_boost } else { c.nft_boost };
                s <= u && (u - s) * 10_000 <= s * rate < (u - s + 1) * 10_000
            })
        }),
{
    lemma_min_stake_is_least(v.staked, c.stake_rates, c.stake_rates.len() as int);
    let s = min_stake_spec(v.staked, c.stake_rates, c.stake_rates.len() as int);
    if v.boost_nft.len() > 0 {
        let (ct, _t) = split_contract_token(v.boost_nft)->Some_0;
        let rate = c.boost_rate(ct);
        assert(rate == if ct == c.cheddy { c.cheddy_boost } else { c.nft_boost });
        let y = s * rate;
        assert(y >= 0) by (nonlinear_arith) requires s >= 0, y == s * rate, rate >= 0;
        vstd::arithmetic::div_mod::lemma_fundamental_div_mod(y, 10_000);
        vstd::arithmetic::div_mod::lemma_mod_bound(y, 10_000);
        assert(crate::p3_lib::constants::BASIS_P as int == 10_000);
        let u = c.units_of(v)->Some_0;
        assert(u == s + y / 10_000);
    }
}

} // verus!
