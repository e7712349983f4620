# Cheddar contracts, verified

The logic of the Cheddar token, the xCheddar lockup and the Cheddar staking
pools and farms, written in Verus with its contracts proved.

Layout of `src/`:

- `cheddar_coin` — the Cheddar fungible token: minters, transfers, vesting
  schedules, `ft_transfer_call` settlement.
- `xcheddar` — lock Cheddar for xCheddar at the price `locked / supply`;
  monthly rewards raise the price.
- `p1_staking_pool`, `p1_staking_pool_dyn`, `p1_staking_pool_fixed` — NEAR
  staking pools paying Cheddar per epoch or per round, per staked NEAR or as a
  fixed emission shared by stake.
- `p2_token_staking_fixed`, `p3_farm`, `p4_farm_nft` — farms based on the
  "Scalable Reward Distribution" accumulator (`farming`), staking one token,
  several tokens, or NFTs with a Cheddar deposit per NFT.
- `p3_lib`, `p3_farm_nft` — constants and helpers shared by the farms.
- `account_map`, `map_sum`, `u256`, `storage`, `near` — the per-account map
  every contract keeps, sums over its values, 256-bit intermediate
  arithmetic, storage-management answers, and the call environment with the
  few computations taken from the NEAR SDK.

The contracts' persistent maps (`LookupMap`, the fungible token's balances)
write through the NEAR host's storage functions, which exist only inside the
runtime, and a `LookupMap` stores its values Borsh-encoded, which the vault
types here do not derive; `account_map` holds the same per-account state as
values.

A contract call takes a `CallContext` (caller, time, attached deposit) and
returns the new state together with the cross-contract work to do (transfers,
mints) as values; `app/` reads the environment from the runtime.

Laws that span several calls are public proof functions whose names start
with `law_`.
