# quay-aggregator-jupiter

Jupiter adapter for the Quay program, verified with Verus.

A Quay **strategy** holds the pricing logic of one pair of mints. The library maps one
strategy to one `QuayAmm` and prices trades by running the pricing curve off-chain
through `quay-sdk`.

```rust
use quay_aggregator_jupiter::{AccountMap, Clock, QuayAmm, QuoteParams, SwapMode};

// `keyed` is the strategy account.
let mut amm = QuayAmm::try_from_keyed_account(&keyed).unwrap()?;

// Every slot: fetch the eight accounts and refresh.
let snapshot: AccountMap = fetch(amm.get_accounts_to_update());
amm.update(&snapshot)?;

if amm.is_active() {
    let quote = amm.quote(
        &QuoteParams {
            amount: 1_000_000, // input atoms
            input_mint: base_mint,
            output_mint: quote_mint,
            swap_mode: SwapMode::ExactIn,
        },
        &Clock { slot, unix_timestamp },
    )?;
}
```

## Accounts

| Account | Used for |
| --- | --- |
| strategy | curve and its state, fee, freeze bytes, routing bits |
| market maker | inventories, freeze and halt bytes |
| quotes | published price inputs |
| global config | protocol-wide halt bytes |
| base / quote vault | accounts of the swap; balances are not priced |
| base / quote mint | decimals and owning token program |

An update takes all of them or changes nothing.

## Prices

- Exact-in only.
- The fee is the protocol fee. It is skimmed from the input, so it is in the input mint.
- A trade that the curve refuses is an error, not a price of zero.
- Amounts are in atoms.

## Layout

- `src/`: the library. `src/sdk/` holds every call into `quay-sdk` and
  `solana-program`, with the contract that is believed of it; the rest is proved, and
  `src/laws.rs` states what holds of an adapter as a whole.
- `tests/`: tests against the real SDK.
- `app/`: Jupiter's `Amm` trait on top of the library.
