//! The farm never hands out more Cheddar than it emits: what the vaults have
//! farmed, what was harvested and what is being minted stay within
//! `rate * rounds`. The laws below state which calls keep that bound.
use super::vault::{ping_spec, Vault};
use super::{Action, ContractView};
use crate::farming::farmed_between;
use crate::map_sum::{lemma_sum_all_insert, lemma_sum_all_remove, lemma_sum_on_empty, lemma_sum_on_le, lemma_sum_on_lin, sum_all};
use crate::p3_lib::constants::ACC_OVERFLOW;
use vstd::prelude::*;

verus! {

/// The farmed Cheddar of a vault.
pub open spec fn farmed_of() -> spec_fn(Vault) -> int {
    |v: Vault| v.farmed as int
}

/// The staked tokens of a vault.
pub open spec fn staked_of() -> spec_fn(Vault) -> int {
    |v: Vault| v.staked as int
}

/// What a vault is owed when the accumulator reads `acc`, scaled by
/// `ACC_OVERFLOW`: its farmed Cheddar plus what its stake earned since its
/// last ping.
pub open spec fn owed_at(acc: int) -> spec_fn(Vault) -> int {
    |v: Vault| ACC_OVERFLOW * v.farmed + v.staked * (acc - v.reward_acc)
}

/// Cheddar that `actions` ask to mint.
pub open spec fn minted(actions: Seq<Action>) -> int
    decreases actions.len(),
{
    if actions.len() == 0 {
        0
    } else {
        minted(actions.drop_last()) + match actions.last() {
            Action::MintCheddar { amount, .. } => amount as int,
            _ => 0,
        }
    }
}

impl ContractView {
    /// The farm's books add up, with `pending` Cheddar being minted: the total
    /// stake is the sum of the stakes, no vault is ahead of the accumulator,
    /// and what the vaults are owed, plus what was harvested and is being
    /// minted, is within the emission of the rounds the accumulator has seen.
    pub open spec fn fair(self, pending: int) -> bool {
        &&& self.vaults.dom().finite()
        &&& forall|k: Seq<char>| #[trigger] self.vaults.contains_key(k) ==> self.vaults[k].reward_acc <= self.reward_acc
        &&& self.reward_acc_round == 0 ==> forall|k: Seq<char>| #[trigger] self.vaults.contains_key(k) ==> self.vaults[k].reward_acc == self.reward_acc
        &&& self.total_stake == sum_all(self.vaults, staked_of())
        &&& pending >= 0
        &&& sum_all(self.vaults, owed_at(self.reward_acc as int)) + ACC_OVERFLOW * (self.total_harvested + pending)
            <= self.rate * self.reward_acc_round * ACC_OVERFLOW
    }
}

/// A farm that has not started is fair: nothing staked, farmed or harvested.
pub proof fn law_new_farm_is_fair(c: ContractView)
    requires
        c.vaults == Map::<Seq<char>, Vault>::empty(),
        c.total_stake == 0,
        c.total_harvested == 0,
        c.reward_acc_round == 0,
    ensures
        c.fair(0),
{
    assert(c.vaults.dom() =~= Set::empty());
    lemma_sum_on_empty(c.vaults, staked_of());
    lemma_sum_on_empty(c.vaults, owed_at(c.reward_acc as int));
}

/// The fixed supply: in a fair farm, the Cheddar farmed by all vaults, plus
/// the harvested and the pending Cheddar, is at most `rate` times the number
/// of rounds up to `now` (time does not go back before the last update).
pub proof fn law_farmed_within_emission(c: ContractView, pending: int, now: u64)
    requires
        c.fair(pending),
        c.reward_acc_round <= c.round_at(now),
    ensures
        sum_all(c.vaults, farmed_of()) + c.total_harvested + pending <= c.rate * c.round_at(now),
{
    let acc = c.reward_acc as int;
    let zero = |v: Vault| 0int;
    let scaled = |v: Vault| ACC_OVERFLOW * v.farmed;
    lemma_sum_on_lin(c.vaults, c.vaults.dom(), scaled, farmed_of(), zero, ACC_OVERFLOW as int);
    lemma_sum_on_lin(c.vaults, c.vaults.dom(), zero, zero, zero, 1);
    assert forall|k: Seq<char>| c.vaults.dom().contains(k) implies scaled(c.vaults[k]) <= owed_at(acc)(c.vaults[k]) by {
        let v = c.vaults[k];
        assert(v.staked * (acc - v.reward_acc) >= 0) by (nonlinear_arith)
            requires v.reward_acc <= acc, v.staked >= 0;
    }
    lemma_sum_on_le(c.vaults, c.vaults, c.vaults.dom(), scaled, owed_at(acc));
    let f = sum_all(c.vaults, farmed_of());
    assert(c.rate * c.reward_acc_round * ACC_OVERFLOW <= c.rate * c.round_at(now) * ACC_OVERFLOW) by (nonlinear_arith)
        requires c.reward_acc_round <= c.round_at(now), c.rate >= 0;
    assert(ACC_OVERFLOW * (f + c.total_harvested + pending) <= ACC_OVERFLOW * (c.rate * c.round_at(now))) by (nonlinear_arith)
        requires
            ACC_OVERFLOW * f + ACC_OVERFLOW * (c.total_harvested + pending) <= c.rate * c.round_at(now) * ACC_OVERFLOW;
}

/// The farmed Cheddar `status` reports for a vault when the accumulator is
/// at `acc` in `round` (0 where `status` fails).
pub open spec fn reported_at(acc: u128, round: u64) -> spec_fn(Vault) -> int {
    |v: Vault| match ping_spec(v, acc, round) {
        Some((_, f)) => f as int,
        None => 0,
    }
}

/// The fixed supply, as `status` shows it: in a fair farm, the farmed Cheddar
/// `status` reports at `now` for all accounts, plus the harvested and the
/// pending Cheddar, is at most `rate` times the number of rounds up to `now`.
pub proof fn law_status_within_emission(c: ContractView, pending: int, now: u64)
    requires
        c.fair(pending),
        c.reward_acc_round <= c.round_at(now),
        c.acc_at(c.round_at(now)) is Some,
    ensures
        sum_all(c.vaults, reported_at(c.acc_at(c.round_at(now))->0, c.round_at(now))) + c.total_harvested + pending
            <= c.rate * c.round_at(now),
{
    let round = c.round_at(now);
    let a = c.acc_at(round)->0;
    lemma_synced_fair(c, pending, round);
    let c2 = c.synced(round)->0;
    assert(c2.reward_acc == a);
    let ai = a as int;
    let rep = reported_at(a, round);
    let scaled = |v: Vault| ACC_OVERFLOW * rep(v);
    let zero = |v: Vault| 0int;
    assert forall|k: Seq<char>| c2.vaults.dom().contains(k) implies scaled(c2.vaults[k]) <= owed_at(ai)(c2.vaults[k]) by {
        let v = c2.vaults[k];
        assert(v.reward_acc <= a);
        assert(v.staked * (ai - v.reward_acc) >= 0) by (nonlinear_arith)
            requires v.reward_acc <= ai, v.staked >= 0;
        if round != 0 && v.reward_acc != a {
            if let Some(f) = farmed_between(v.staked, v.reward_acc, a) {
                let y = v.staked * (ai - v.reward_acc);
                assert(f == y / (ACC_OVERFLOW as int));
                vstd::arithmetic::div_mod::lemma_fundamental_div_mod(y, ACC_OVERFLOW as int);
                vstd::arithmetic::div_mod::lemma_mod_bound(y, ACC_OVERFLOW as int);
            }
        }
    }
    lemma_sum_on_le(c2.vaults, c2.vaults, c2.vaults.dom(), scaled, owed_at(ai));
    lemma_sum_on_lin(c2.vaults, c2.vaults.dom(), scaled, rep, zero, ACC_OVERFLOW as int);
    lemma_sum_on_lin(c2.vaults, c2.vaults.dom(), zero, zero, zero, 1);
    let f = sum_all(c.vaults, rep);
    assert(c2.vaults == c.vaults);
    assert(c.rate * c2.reward_acc_round * ACC_OVERFLOW <= c.rate * round * ACC_OVERFLOW) by (nonlinear_arith)
        requires c2.reward_acc_round <= round, c.rate >= 0;
    assert(ACC_OVERFLOW * (f + c.total_harvested + pending) <= ACC_OVERFLOW * (c.rate * round)) by (nonlinear_arith)
        requires
            ACC_OVERFLOW * f + ACC_OVERFLOW * (c.total_harvested + pending) <= c.rate * round * ACC_OVERFLOW;
}

/// Bringing the accumulator to a later round keeps a fair farm fair.
proof fn lemma_synced_fair(c: ContractView, pending: int, round: u64)
    requires
        c.fair(pending),
        c.reward_acc_round <= round,
        c.synced(round) is Some,
    ensures
        c.synced(round)->0.fair(pending),
        c.synced(round)->0.reward_acc_round <= round,
        c.synced(round)->0 == (ContractView {
            reward_acc: c.synced(round)->0.reward_acc,
            reward_acc_round: c.synced(round)->0.reward_acc_round,
            ..c
        }),
{
    let c2 = c.synced(round)->0;
    let a = c.acc_at(round)->0;
    let acc = c.reward_acc as int;
    let r0 = c.reward_acc_round;
    assert(c.rate * r0 * ACC_OVERFLOW <= c.rate * round * ACC_OVERFLOW) by (nonlinear_arith)
        requires r0 <= round, c.rate >= 0;
    if r0 == round || c.total_stake == 0 {
        assert(a == c.reward_acc);
    } else {
        let x = (round - r0) * c.rate;
        let d = (x * ACC_OVERFLOW) / (c.total_stake as int);
        assert(x >= 0) by (nonlinear_arith) requires round >= r0, c.rate >= 0, x == (round - r0) * c.rate;
        assert(x * ACC_OVERFLOW >= 0) by (nonlinear_arith) requires x >= 0;
        assert(d >= 0) by {
            vstd::arithmetic::div_mod::lemma_div_pos_is_pos(x * ACC_OVERFLOW, c.total_stake as int);
        }
        assert(d * c.total_stake <= x * ACC_OVERFLOW) by {
            vstd::arithmetic::div_mod::lemma_fundamental_div_mod(x * ACC_OVERFLOW, c.total_stake as int);
            vstd::arithmetic::div_mod::lemma_mod_bound(x * ACC_OVERFLOW, c.total_stake as int);
        }
        assert(a == acc + d);
        assert(c.rate * round * ACC_OVERFLOW == c.rate * r0 * ACC_OVERFLOW + x * ACC_OVERFLOW) by (nonlinear_arith)
            requires x == (round - r0) * c.rate;
        if a != c.reward_acc {
            assert forall|k: Seq<char>| c.vaults.dom().contains(k) implies owed_at(a as int)(c.vaults[k])
                == d * staked_of()(c.vaults[k]) + owed_at(acc)(c.vaults[k]) by {
                let v = c.vaults[k];
                assert(v.staked * (a - v.reward_acc) == d * v.staked + v.staked * (acc - v.reward_acc)) by (nonlinear_arith)
                    requires a == acc + d;
            }
            lemma_sum_on_lin(c.vaults, c.vaults.dom(), owed_at(a as int), staked_of(), owed_at(acc), d);
            assert(d * c.total_stake == c.total_stake * d) by (nonlinear_arith);
        }
    }
}

/// Pinging a vault of a fair farm, after bringing the accumulator to a later
/// round, keeps it fair; the pinged vault is up to date with the accumulator.
proof fn lemma_ping_all_fair(c: ContractView, pending: int, k: Seq<char>, round: u64)
    requires
        c.fair(pending),
        c.vaults.contains_key(k),
        c.reward_acc_round <= round,
        c.ping_all(c.vaults[k], round) is Some,
    ensures
        ({
            let (c2, nv) = c.ping_all(c.vaults[k], round)->0;
            &&& (ContractView { vaults: c2.vaults.insert(k, nv), ..c2 }).fair(pending)
            &&& c2.fair(pending)
            &&& c2 == (ContractView { reward_acc: c2.reward_acc, reward_acc_round: c2.reward_acc_round, ..c })
            &&& c2.reward_acc_round <= round
            &&& nv.reward_acc == c2.reward_acc
            &&& nv.staked == c.vaults[k].staked
        }),
{
    lemma_synced_fair(c, pending, round);
    let c2 = c.synced(round)->0;
    let v = c.vaults[k];
    let (c3, nv) = c.ping_all(v, round)->0;
    assert(c3 == c2);
    let acc = c2.reward_acc as int;
    assert(c2.vaults.contains_key(k));
    assert(v.reward_acc <= acc);
    if round == 0 {
        assert(c2.reward_acc_round == 0);
        assert(nv == v);
    } else if v.reward_acc == c2.reward_acc {
        assert(nv == v);
    } else {
        let f = farmed_between(v.staked, v.reward_acc, c2.reward_acc)->0;
        let y = v.staked * (acc - v.reward_acc);
        assert(f == y / (ACC_OVERFLOW as int));
        assert(ACC_OVERFLOW * f <= y) by {
            vstd::arithmetic::div_mod::lemma_fundamental_div_mod(y, ACC_OVERFLOW as int);
            assert(y >= 0) by (nonlinear_arith) requires v.staked >= 0, acc - v.reward_acc >= 0, y == v.staked * (acc - v.reward_acc);
            vstd::arithmetic::div_mod::lemma_mod_bound(y, ACC_OVERFLOW as int);
        }
        assert(nv.staked * (acc - nv.reward_acc) == 0) by (nonlinear_arith) requires nv.reward_acc == acc;
    }
    assert(owed_at(acc)(nv) <= owed_at(acc)(v));
    let c4 = ContractView { vaults: c2.vaults.insert(k, nv), ..c2 };
    lemma_sum_all_insert(c2.vaults, staked_of(), k, nv);
    lemma_sum_all_insert(c2.vaults, owed_at(acc), k, nv);
}

/// Registering a new account keeps a fair farm fair.
pub proof fn law_new_account_keeps_fair(c: ContractView, pending: int, a: Seq<char>)
    requires
        c.fair(pending),
        !c.vaults.contains_key(a),
    ensures
        c.with_new_account(a).fair(pending),
{
    let v = Vault { reward_acc: c.reward_acc, staked: 0, farmed: 0 };
    lemma_sum_all_insert(c.vaults, staked_of(), a, v);
    lemma_sum_all_insert(c.vaults, owed_at(c.reward_acc as int), a, v);
    assert(owed_at(c.reward_acc as int)(v) == 0);
}

proof fn lemma_minted_one(x: Action)
    ensures
        minted(seq![x]) == match x { Action::MintCheddar { amount, .. } => amount as int, _ => 0 },
{
    assert(seq![x] =~= Seq::<Action>::empty().push(x));
    lemma_minted_push(Seq::<Action>::empty(), x);
    assert(minted(Seq::<Action>::empty()) == 0);
}

proof fn lemma_minted_push(acts: Seq<Action>, x: Action)
    ensures
        minted(acts.push(x)) == minted(acts) + match x { Action::MintCheddar { amount, .. } => amount as int, _ => 0 },
{
    assert(acts.push(x).drop_last() =~= acts);
}

/// Staking keeps a fair farm fair.
pub proof fn law_stake_keeps_fair(c: ContractView, pending: int, token: Seq<char>, sender: Seq<char>, amount: u128, now: u64)
    requires
        c.fair(pending),
        c.reward_acc_round <= c.round_at(now),
    ensures
        c.stake_spec(token, sender, amount, now) matches Ok(s) ==> s.fair(pending),
{
    if c.stake_spec(token, sender, amount, now) is Ok {
        let round = c.round_at(now);
        lemma_ping_all_fair(c, pending, sender, round);
        let (c2, nv) = c.ping_all(c.vaults[sender], round)->0;
        let c4 = ContractView { vaults: c2.vaults.insert(sender, nv), ..c2 };
        let nv2 = Vault { staked: (nv.staked + amount) as u128, ..nv };
        lemma_sum_all_insert(c4.vaults, staked_of(), sender, nv2);
        lemma_sum_all_insert(c4.vaults, owed_at(c2.reward_acc as int), sender, nv2);
        let acc = c2.reward_acc as int;
        assert(nv.staked * (acc - nv.reward_acc) == 0 && nv2.staked * (acc - nv2.reward_acc) == 0) by (nonlinear_arith)
            requires nv.reward_acc == acc, nv2.reward_acc == acc;
        assert(c4.vaults.insert(sender, nv2) =~= c2.vaults.insert(sender, nv2));
    }
}

/// Harvesting keeps a fair farm fair; the harvest is then being minted.
pub proof fn law_withdraw_crop_keeps_fair(c: ContractView, pending: int, a: String, now: u64)
    requires
        c.fair(pending),
        c.reward_acc_round <= c.round_at(now),
    ensures
        c.withdraw_crop_spec(a, now) matches Ok((s, acts)) ==> s.fair(pending + minted(acts)),
{
    if c.withdraw_crop_spec(a, now) is Ok {
        let k = a@;
        let round = c.round_at(now);
        lemma_ping_all_fair(c, pending, k, round);
        let (c2, nv) = c.ping_all(c.vaults[k], round)->0;
        let c4 = ContractView { vaults: c2.vaults.insert(k, nv), ..c2 };
        let nv2 = Vault { farmed: 0, ..nv };
        let acc = c2.reward_acc as int;
        lemma_sum_all_insert(c4.vaults, staked_of(), k, nv2);
        lemma_sum_all_insert(c4.vaults, owed_at(acc), k, nv2);
        assert(nv.staked * (acc - nv.reward_acc) == 0) by (nonlinear_arith) requires nv.reward_acc == acc;
        assert(c4.vaults.insert(k, nv2) =~= c2.vaults.insert(k, nv2));
        lemma_minted_one(Action::MintCheddar { user: a, amount: nv.farmed });
        assert(minted(Seq::<Action>::empty()) == 0);
    }
}

/// Closing an account keeps a fair farm fair; its farmed Cheddar is then
/// being minted.
pub proof fn law_close_keeps_fair(c: ContractView, pending: int, a: String, attached: u128, now: u64)
    requires
        c.fair(pending),
        c.reward_acc_round <= c.round_at(now),
    ensures
        c.close_spec(a, attached, now) matches Ok((s, acts)) ==> s.fair(pending + minted(acts)),
{
    if c.close_spec(a, attached, now) is Ok {
        let k = a@;
        let round = c.round_at(now);
        lemma_ping_all_fair(c, pending, k, round);
        let (c2, v) = c.ping_all(c.vaults[k], round)->0;
        let c4 = ContractView { vaults: c2.vaults.insert(k, v), ..c2 };
        let acc = c2.reward_acc as int;
        lemma_sum_all_remove(c4.vaults, staked_of(), k);
        lemma_sum_all_remove(c4.vaults, owed_at(acc), k);
        assert(v.staked * (acc - v.reward_acc) == 0) by (nonlinear_arith) requires v.reward_acc == acc;
        assert(c4.vaults.remove(k) =~= c2.vaults.remove(k));
        if v.staked == 0 && v.farmed == 0 {
            lemma_minted_one(Action::TransferNear { receiver: a, amount: super::STORAGE_COST });
        } else {
            let mint = if v.farmed != 0 { seq![Action::MintCheddar { user: a, amount: v.farmed }] } else { seq![] };
            lemma_minted_one(Action::MintCheddar { user: a, amount: v.farmed });
            assert(minted(Seq::<Action>::empty()) == 0);
            assert(minted(mint) == v.farmed);
            if v.staked != 0 {
                let c5 = ContractView {
                    total_stake: (c2.total_stake - v.staked) as u128,
                    vaults: c2.vaults.remove(k),
                    accounts_registered: (c2.accounts_registered - 1) as u64,
                    ..c2
                };
                let (_, act) = c5.return_tokens_spec(a, v.staked)->0;
                lemma_minted_push(mint, act);
            }
        }
    }
}

/// Unstaking keeps a fair farm fair; unstaking everything closes the account
/// and its farmed Cheddar is then being minted.
pub proof fn law_unstake_keeps_fair(c: ContractView, pending: int, a: String, attached: u128, amount: u128, now: u64)
    requires
        c.fair(pending),
        c.reward_acc_round <= c.round_at(now),
    ensures
        c.unstake_spec(a, attached, amount, now) matches Ok((s, acts, _)) ==> s.fair(pending + minted(acts)),
{
    if c.unstake_spec(a, attached, amount, now) is Ok {
        let k = a@;
        if amount == c.vaults[k].staked {
            law_close_keeps_fair(c, pending, a, attached, now);
        } else {
            let round = c.round_at(now);
            lemma_ping_all_fair(c, pending, k, round);
            let (c2, v) = c.ping_all(c.vaults[k], round)->0;
            let c4 = ContractView { vaults: c2.vaults.insert(k, v), ..c2 };
            let nv = Vault { staked: (v.staked - amount) as u128, ..v };
            let acc = c2.reward_acc as int;
            lemma_sum_all_insert(c4.vaults, staked_of(), k, nv);
            lemma_sum_all_insert(c4.vaults, owed_at(acc), k, nv);
            assert(v.staked * (acc - v.reward_acc) == 0 && nv.staked * (acc - nv.reward_acc) == 0) by (nonlinear_arith)
                requires v.reward_acc == acc, nv.reward_acc == acc;
            assert(c4.vaults.insert(k, nv) =~= c2.vaults.insert(k, nv));
            let c5 = ContractView {
                vaults: c2.vaults.insert(k, nv),
                total_stake: (c2.total_stake - amount) as u128,
                ..c2
            };
            let (_, act) = c5.return_tokens_spec(a, amount)->0;
            lemma_minted_one(act);
        }
    }
}

/// A successful mint of `amount` pending Cheddar counts it as harvested and
/// keeps the farm fair.
pub proof fn law_harvest_keeps_fair(c: ContractView, pending: int, amount: u128)
    requires
        c.fair(pending),
        amount <= pending,
        c.total_harvested + amount <= u128::MAX,
    ensures
        (ContractView { total_harvested: (c.total_harvested + amount) as u128, ..c }).fair(pending - amount),
{
}

/// A failed mint of `amount` pending Cheddar puts it back into the user's
/// vault and keeps the farm fair.
pub proof fn law_mint_refund_keeps_fair(c: ContractView, pending: int, user: Seq<char>, amount: u128)
    requires
        c.fair(pending),
        amount <= pending,
    ensures
        c.recover_state_spec(user, amount, 0) matches Some(s) ==> s.fair(pending - amount),
{
    if c.recover_state_spec(user, amount, 0) is Some {
        let acc = c.reward_acc as int;
        let nv = if c.vaults.contains_key(user) {
            Vault { staked: c.vaults[user].staked, farmed: (c.vaults[user].farmed + amount) as u128, ..c.vaults[user] }
        } else {
            Vault { reward_acc: c.reward_acc, staked: 0, farmed: amount }
        };
        lemma_sum_all_insert(c.vaults, staked_of(), user, nv);
        lemma_sum_all_insert(c.vaults, owed_at(acc), user, nv);
        assert(nv.staked * (acc - nv.reward_acc) == 0 || c.vaults.contains_key(user)) by (nonlinear_arith)
            requires c.vaults.contains_key(user) || nv.reward_acc == acc;
    }
}

/// Returning staked tokens keeps a fee of `fee_rate` basis points: the fee
/// added to `fee_collected` is `amount * fee_rate / 10_000` rounded down (its
/// 10_000-fold is within one 10_000 below `amount * fee_rate`), the user is
/// sent the rest of `amount`, and nothing else changes.
pub proof fn law_return_fee_in_basis_points(c: ContractView, user: String, amount: u128)
    requires
        c.return_tokens_spec(user, amount) is Some,
    ensures
        ({
            let (n, act) = c.return_tokens_spec(user, amount)->Some_0;
            let fee = n.fee_collected - c.fee_collected;
            &&& n == (ContractView { fee_collected: n.fee_collected, ..c })
            &&& fee * 10_000 <= amount * c.fee_rate < (fee + 1) * 10_000
            &&& act matches Action::ReturnTokens { user: u, amount: a, transferred: t }
                && u == user && a == amount && t + fee == amount
        }),
{
}

/// Returning tokens succeeds when the fee rate is at most 100% (10_000 basis
/// points) and the amounts fit.
pub proof fn law_return_fee_succeeds(c: ContractView, user: String, amount: u128)
    requires
        amount * c.fee_rate <= u128::MAX,
        c.fee_rate <= 10_000,
        c.fee_collected + amount <= u128::MAX,
    ensures
        c.return_tokens_spec(user, amount) is Some,
{
    assert(amount * c.fee_rate <= amount * 10_000) by (nonlinear_arith)
        requires c.fee_rate <= 10_000, amount >= 0;
}

} // verus!
