//! What each operation does, down to the bytes.
//!
//! The laws here tie the results of the adapter's methods to the accounts that went
//! in: to addresses, to byte offsets, and to what the SDK is asked.
use crate::accounts;
use crate::accounts::{Account, AccountView, KeyedAccount};
use crate::amm;
use crate::amm::{DerivedKeys, QuayAmm};
use crate::error::{AmmError, DecodeError};
use crate::params;
use crate::params::{Clock, Quote, QuoteParams, Swap, SwapAndAccountMetas, SwapMode, SwapParams};
use crate::pubkey::{Pubkey, JUPITER_ROUTER_ID, SPL_TOKEN_PROGRAM_ID};
use crate::sdk::headers;
use crate::sdk::headers::StrategyHeader;
use crate::sdk::ix;
use crate::sdk::ix::AccountMeta;
use crate::sdk::pda;
use crate::sdk::simulate;
use crate::sdk::simulate::SwapQuote;
use vstd::prelude::*;

verus! {

// ---------------------------------------------------------------------------
// Views
// ---------------------------------------------------------------------------

/// The view of an address, an account or an account of an instruction leaves nothing
/// out.
pub proof fn law_views_keep_everything(key: Pubkey, account: Account, meta: AccountMeta, header: StrategyHeader)
    ensures
        key@ == key.bytes@,
        key@.len() == 32,
        account@.owner == account.owner.bytes@,
        account@.data == account.data@,
        meta@.pubkey == meta.pubkey.bytes@,
        meta@.is_signer == meta.is_signer,
        meta@.is_writable == meta.is_writable,
        header@.owner == header.owner.bytes@,
        header@.base_mint == header.base_mint.bytes@,
        header@.quote_mint == header.quote_mint.bytes@,
        header@.quotes_account == header.quotes_account.bytes@,
        header@.frozen == header.frozen,
        header@.frozen_admin == header.frozen_admin,
        header@.routing_flags == header.routing_flags,
{
}

/// Adapters with the same view, such as an adapter and its clone, agree in every field.
pub proof fn law_view_keeps_every_field(a: QuayAmm, b: QuayAmm)
    requires
        a@ == b@,
    ensures
        a.program_id@ == b.program_id@,
        a.strategy_key@ == b.strategy_key@,
        a.strategy_data@ == b.strategy_data@,
        a.mm_key@ == b.mm_key@,
        a.mm_data@ == b.mm_data@,
        a.quotes_key@ == b.quotes_key@,
        a.quotes_data@ == b.quotes_data@,
        a.global_config_key@ == b.global_config_key@,
        a.global_config_data@ == b.global_config_data@,
        a.base_mint@ == b.base_mint@,
        a.quote_mint@ == b.quote_mint@,
        a.base_token_program@ == b.base_token_program@,
        a.quote_token_program@ == b.quote_token_program@,
        a.base_decimals == b.base_decimals,
        a.quote_decimals == b.quote_decimals,
        a.vault_base_key@ == b.vault_base_key@,
        a.vault_quote_key@ == b.vault_quote_key@,
        a.routing_flags == b.routing_flags,
        a.strategy_frozen == b.strategy_frozen,
        a.strategy_frozen_admin == b.strategy_frozen_admin,
        a.mm_frozen == b.mm_frozen,
        a.mm_frozen_admin == b.mm_frozen_admin,
        a.mm_halted_admin == b.mm_halted_admin,
        a.cfg_swap_halted == b.cfg_swap_halted,
        a.cfg_protocol_halted == b.cfg_protocol_halted,
{
    let v = a@;
    let w = b@;
    assert(v.program_id == w.program_id && v.strategy_key == w.strategy_key);
}

// ---------------------------------------------------------------------------
// Addresses
// ---------------------------------------------------------------------------

/// The global config is searched for from `"global"`, a market maker from `"mm"` and its
/// owner, a vault from `"vault"`, the market maker and the mint.
pub proof fn law_addresses_come_from_seeds(program_id: Seq<u8>, a: Seq<u8>, b: Seq<u8>, c: Seq<u8>)
    ensures
        pda::global_config_address(program_id) == pda::program_address(
            seq![seq![0x67u8, 0x6c, 0x6f, 0x62, 0x61, 0x6c]],
            program_id,
        ),
        pda::market_maker_address(program_id, a) == pda::program_address(seq![seq![0x6du8, 0x6d], a], program_id),
        pda::vault_address(program_id, a, b) == pda::program_address(
            seq![seq![0x76u8, 0x61, 0x75, 0x6c, 0x74], a, b],
            program_id,
        ),
        pda::swap_addresses_exist(program_id, a, b, c) <==> {
            &&& pda::program_address(seq![seq![0x67u8, 0x6c, 0x6f, 0x62, 0x61, 0x6c]], program_id) is Some
            &&& pda::program_address(seq![seq![0x76u8, 0x61, 0x75, 0x6c, 0x74], a, b], program_id) is Some
            &&& pda::program_address(seq![seq![0x76u8, 0x61, 0x75, 0x6c, 0x74], a, c], program_id) is Some
        },
{
}

// ---------------------------------------------------------------------------
// Opening
// ---------------------------------------------------------------------------

/// An account opens exactly where it has at least 256 bytes and starts with the strategy
/// tag, and otherwise the refusal says which of the two is missing.
pub proof fn law_strategies_open_and_nothing_else(keyed: KeyedAccount, r: Result<QuayAmm, AmmError>)
    requires
        amm::opens_to(keyed, r),
    ensures
        amm::is_strategy(keyed) <==> keyed.account.data@.len() >= 256 && keyed.account.data@[0] == 3,
        r is Ok <==> keyed.account.data@.len() >= 256 && keyed.account.data@[0] == 3,
        keyed.account.data@.len() < 256 ==> r == Err::<QuayAmm, AmmError>(
            AmmError::DecodeStrategy(
                DecodeError::AccountTooSmall { got: keyed.account.data@.len() as usize, need: 256 },
            ),
        ),
        keyed.account.data@.len() >= 256 && keyed.account.data@[0] != 3 ==> r == Err::<QuayAmm, AmmError>(
            AmmError::DecodeStrategy(DecodeError::BadDiscriminator { got: keyed.account.data@[0], expected: 3 }),
        ),
{
}

/// An opened adapter is about the account that it was opened on: its address and owner,
/// and the mints, quotes account and market maker that stand in its bytes. What other
/// accounts will tell is not known yet: their bytes are empty, every halt and freeze byte
/// is set, and both mints count as SPL Token mints.
pub proof fn law_opening_reads_the_account(keyed: KeyedAccount, r: Result<QuayAmm, AmmError>)
    requires
        amm::opens_to(keyed, r),
        r is Ok,
    ensures
        ({
            let amm = r->Ok_0;
            let program_id = keyed.account.owner@;
            let data = keyed.account.data@;
            let mm_key = pda::program_address(
                seq![seq![0x6du8, 0x6d], data.subrange(8, 40)],
                program_id,
            )->Some_0.0;
            &&& amm.program_id@ == program_id
            &&& amm.strategy_key@ == keyed.key@
            &&& amm.strategy_data@ == data
            &&& amm.base_mint@ == data.subrange(40, 72)
            &&& amm.quote_mint@ == data.subrange(72, 104)
            &&& amm.quotes_key@ == data.subrange(104, 136)
            &&& amm.mm_key@ == mm_key
            &&& amm.global_config_key@ == pda::program_address(
                seq![seq![0x67u8, 0x6c, 0x6f, 0x62, 0x61, 0x6c]],
                program_id,
            )->Some_0.0
            &&& amm.vault_base_key@ == pda::program_address(
                seq![seq![0x76u8, 0x61, 0x75, 0x6c, 0x74], mm_key, data.subrange(40, 72)],
                program_id,
            )->Some_0.0
            &&& amm.vault_quote_key@ == pda::program_address(
                seq![seq![0x76u8, 0x61, 0x75, 0x6c, 0x74], mm_key, data.subrange(72, 104)],
                program_id,
            )->Some_0.0
            &&& amm.routing_flags == data[160]
            &&& amm.mm_data@.len() == 0
            &&& amm.quotes_data@.len() == 0
            &&& amm.global_config_data@.len() == 0
            &&& amm.base_token_program@ == SPL_TOKEN_PROGRAM_ID@
            &&& amm.quote_token_program@ == SPL_TOKEN_PROGRAM_ID@
            &&& amm.base_decimals == 0
            &&& amm.quote_decimals == 0
            &&& amm.strategy_frozen == 1
            &&& amm.strategy_frozen_admin == 1
            &&& amm.mm_frozen == 1
            &&& amm.mm_frozen_admin == 1
            &&& amm.mm_halted_admin == 1
            &&& amm.cfg_swap_halted == 1
            &&& amm.cfg_protocol_halted == 1
        }),
{
    let v = amm::opened(keyed);
    assert(r->Ok_0@ == v);
    assert(v.mm_data.len() == 0 && v.quotes_data.len() == 0 && v.global_config_data.len() == 0);
}

/// An adapter needs the market maker of its owner, the global config and the vaults of
/// its mints to have addresses, and no more.
pub proof fn law_opening_needs_four_addresses(keyed: KeyedAccount)
    ensures
        ({
            let program_id = keyed.account.owner@;
            let data = keyed.account.data@;
            let mm = pda::program_address(seq![seq![0x6du8, 0x6d], data.subrange(8, 40)], program_id);
            let vault = seq![0x76u8, 0x61, 0x75, 0x6c, 0x74];
            amm::opened_keys_exist(keyed) <==> {
                &&& mm is Some
                &&& pda::program_address(seq![seq![0x67u8, 0x6c, 0x6f, 0x62, 0x61, 0x6c]], program_id) is Some
                &&& pda::program_address(seq![vault, mm->Some_0.0, data.subrange(40, 72)], program_id) is Some
                &&& pda::program_address(seq![vault, mm->Some_0.0, data.subrange(72, 104)], program_id) is Some
            }
        }),
{
}

/// An adapter made of a header and of derived addresses holds these, each in its place.
pub proof fn law_parts_keep_their_places(
    keyed: KeyedAccount,
    strategy: StrategyHeader,
    keys: DerivedKeys,
    amm: QuayAmm,
)
    requires
        amm@ == amm::opened_with(keyed, strategy@, keys@),
    ensures
        amm.program_id@ == keyed.account.owner@,
        amm.strategy_key@ == keyed.key@,
        amm.strategy_data@ == keyed.account.data@,
        amm.base_mint@ == strategy.base_mint@,
        amm.quote_mint@ == strategy.quote_mint@,
        amm.quotes_key@ == strategy.quotes_account@,
        amm.routing_flags == strategy.routing_flags,
        amm.mm_key@ == keys.mm_key@,
        amm.global_config_key@ == keys.global_config_key@,
        amm.vault_base_key@ == keys.vault_base_key@,
        amm.vault_quote_key@ == keys.vault_quote_key@,
        amm.mm_data@.len() == 0,
        amm.quotes_data@.len() == 0,
        amm.global_config_data@.len() == 0,
        amm.base_token_program@ == SPL_TOKEN_PROGRAM_ID@,
        amm.quote_token_program@ == SPL_TOKEN_PROGRAM_ID@,
        amm.base_decimals == 0,
        amm.quote_decimals == 0,
        amm.strategy_frozen == 1,
        amm.strategy_frozen_admin == 1,
        amm.mm_frozen == 1,
        amm.mm_frozen_admin == 1,
        amm.mm_halted_admin == 1,
        amm.cfg_swap_halted == 1,
        amm.cfg_protocol_halted == 1,
{
    let v = amm::opened_with(keyed, strategy@, keys@);
    assert(v.mm_data.len() == 0 && v.quotes_data.len() == 0 && v.global_config_data.len() == 0);
}

// ---------------------------------------------------------------------------
// Activity
// ---------------------------------------------------------------------------

/// A venue is active exactly where the Jupiter bit, of value 2, is set and every halt and freeze byte
/// is clear: nothing else about it counts.
pub proof fn law_bit_and_halts_decide_activity(amm: QuayAmm)
    ensures
        amm@.active() <==> {
            &&& amm.routing_flags & 2 != 0
            &&& amm.cfg_swap_halted == 0
            &&& amm.cfg_protocol_halted == 0
            &&& amm.strategy_frozen == 0
            &&& amm.strategy_frozen_admin == 0
            &&& amm.mm_frozen == 0
            &&& amm.mm_frozen_admin == 0
            &&& amm.mm_halted_admin == 0
        },
{
}

/// After an update, a venue is active exactly where its accounts say so: the Jupiter bit
/// in byte 160 of the strategy, and its freeze bytes and those of the market maker and
/// the global config.
pub proof fn law_accounts_decide_activity(before: QuayAmm, after: QuayAmm, snapshot: Map<Seq<u8>, AccountView>)
    requires
        before.update_failure(snapshot) is None,
        after@ == before@.refreshed(snapshot),
    ensures
        ({
            let strategy = snapshot[before.strategy_key@].data;
            let mm = snapshot[before.mm_key@].data;
            let cfg = snapshot[before.global_config_key@].data;
            after@.active() <==> {
                &&& strategy[160] & 2 != 0
                &&& strategy[4] == 0
                &&& strategy[5] == 0
                &&& mm[2] == 0
                &&& mm[3] == 0
                &&& mm[4] == 0
                &&& cfg[2] == 0
                &&& cfg[3] == 0
            }
        }),
{
}

// ---------------------------------------------------------------------------
// Updates
// ---------------------------------------------------------------------------

/// A snapshot can be used exactly where it has every account, the strategy, market maker
/// and global config among them with their headers and tags, and the mints long enough to
/// hold their decimals.
pub proof fn law_whole_snapshots_are_taken(amm: QuayAmm, snapshot: Map<Seq<u8>, AccountView>)
    ensures
        amm.update_failure(snapshot) is None <==> {
            &&& snapshot.contains_key(amm.strategy_key@)
            &&& snapshot[amm.strategy_key@].data.len() >= 256
            &&& snapshot[amm.strategy_key@].data[0] == 3
            &&& snapshot.contains_key(amm.mm_key@)
            &&& snapshot[amm.mm_key@].data.len() >= 64
            &&& snapshot[amm.mm_key@].data[0] == 4
            &&& snapshot.contains_key(amm.quotes_key@)
            &&& snapshot.contains_key(amm.global_config_key@)
            &&& snapshot[amm.global_config_key@].data.len() >= 128
            &&& snapshot[amm.global_config_key@].data[0] == 1
            &&& snapshot.contains_key(amm.vault_base_key@)
            &&& snapshot.contains_key(amm.vault_quote_key@)
            &&& snapshot.contains_key(amm.base_mint@)
            &&& snapshot[amm.base_mint@].data.len() > 44
            &&& snapshot.contains_key(amm.quote_mint@)
            &&& snapshot[amm.quote_mint@].data.len() > 44
        },
{
}

/// A snapshot that cannot be used is refused for its first flaw, in the order strategy,
/// market maker, quotes, global config, vaults, mints.
pub proof fn law_first_flaw_is_reported(amm: QuayAmm, snapshot: Map<Seq<u8>, AccountView>)
    ensures
        ({
            let failure = amm.update_failure(snapshot);
            let strategy = snapshot[amm.strategy_key@].data;
            let mm = snapshot[amm.mm_key@].data;
            let cfg = snapshot[amm.global_config_key@].data;
            let base = snapshot[amm.base_mint@].data;
            let quote = snapshot[amm.quote_mint@].data;
            if !snapshot.contains_key(amm.strategy_key@) {
                failure == Some(AmmError::AccountMissing { address: amm.strategy_key })
            } else if strategy.len() < 256 {
                failure == Some(
                    AmmError::DecodeStrategyOnUpdate(
                        DecodeError::AccountTooSmall { got: strategy.len() as usize, need: 256 },
                    ),
                )
            } else if strategy[0] != 3 {
                failure == Some(
                    AmmError::DecodeStrategyOnUpdate(
                        DecodeError::BadDiscriminator { got: strategy[0], expected: 3 },
                    ),
                )
            } else if !snapshot.contains_key(amm.mm_key@) {
                failure == Some(AmmError::AccountMissing { address: amm.mm_key })
            } else if mm.len() < 64 {
                failure == Some(
                    AmmError::DecodeMarketMakerOnUpdate(
                        DecodeError::AccountTooSmall { got: mm.len() as usize, need: 64 },
                    ),
                )
            } else if mm[0] != 4 {
                failure == Some(
                    AmmError::DecodeMarketMakerOnUpdate(DecodeError::BadDiscriminator { got: mm[0], expected: 4 }),
                )
            } else if !snapshot.contains_key(amm.quotes_key@) {
                failure == Some(AmmError::AccountMissing { address: amm.quotes_key })
            } else if !snapshot.contains_key(amm.global_config_key@) {
                failure == Some(AmmError::AccountMissing { address: amm.global_config_key })
            } else if cfg.len() < 128 {
                failure == Some(
                    AmmError::DecodeGlobalConfigOnUpdate(
                        DecodeError::AccountTooSmall { got: cfg.len() as usize, need: 128 },
                    ),
                )
            } else if cfg[0] != 1 {
                failure == Some(
                    AmmError::DecodeGlobalConfigOnUpdate(
                        DecodeError::BadDiscriminator { got: cfg[0], expected: 1 },
                    ),
                )
            } else if !snapshot.contains_key(amm.vault_base_key@) {
                failure == Some(AmmError::AccountMissing { address: amm.vault_base_key })
            } else if !snapshot.contains_key(amm.vault_quote_key@) {
                failure == Some(AmmError::AccountMissing { address: amm.vault_quote_key })
            } else if !snapshot.contains_key(amm.base_mint@) {
                failure == Some(AmmError::MintMissing { mint: amm.base_mint })
            } else if base.len() <= 44 {
                failure == Some(AmmError::MintTooShort { mint: amm.base_mint, len: base.len() as usize })
            } else if !snapshot.contains_key(amm.quote_mint@) {
                failure == Some(AmmError::MintMissing { mint: amm.quote_mint })
            } else if quote.len() <= 44 {
                failure == Some(AmmError::MintTooShort { mint: amm.quote_mint, len: quote.len() as usize })
            } else {
                failure is None
            }
        }),
{
}

/// A mint can be read exactly where it is supplied and holds its decimals in byte 44.
pub proof fn law_mints_are_read_or_refused(snapshot: Map<Seq<u8>, AccountView>, mint: Pubkey)
    ensures
        !snapshot.contains_key(mint@) ==> accounts::mint_failure(snapshot, mint) == Some(
            AmmError::MintMissing { mint },
        ),
        snapshot.contains_key(mint@) && snapshot[mint@].data.len() <= 44 ==> accounts::mint_failure(snapshot, mint)
            == Some(AmmError::MintTooShort { mint, len: snapshot[mint@].data.len() as usize }),
        snapshot.contains_key(mint@) && snapshot[mint@].data.len() > 44 ==> accounts::mint_failure(snapshot, mint)
            is None,
{
}

/// After an update every cached value is that of the account it belongs to: the bytes of
/// the strategy, market maker, quotes and global config, the bytes in them at fixed
/// offsets, and the owner and byte 44 of each mint. Keys and mints stay.
pub proof fn law_update_reads_each_account(before: QuayAmm, after: QuayAmm, snapshot: Map<Seq<u8>, AccountView>)
    requires
        after@ == before@.refreshed(snapshot),
    ensures
        after.strategy_data@ == snapshot[before.strategy_key@].data,
        after.mm_data@ == snapshot[before.mm_key@].data,
        after.quotes_data@ == snapshot[before.quotes_key@].data,
        after.global_config_data@ == snapshot[before.global_config_key@].data,
        after.base_token_program@ == snapshot[before.base_mint@].owner,
        after.quote_token_program@ == snapshot[before.quote_mint@].owner,
        after.base_decimals == snapshot[before.base_mint@].data[44],
        after.quote_decimals == snapshot[before.quote_mint@].data[44],
        after.routing_flags == snapshot[before.strategy_key@].data[160],
        after.strategy_frozen_admin == snapshot[before.strategy_key@].data[4],
        after.strategy_frozen == snapshot[before.strategy_key@].data[5],
        after.mm_frozen_admin == snapshot[before.mm_key@].data[2],
        after.mm_halted_admin == snapshot[before.mm_key@].data[3],
        after.mm_frozen == snapshot[before.mm_key@].data[4],
        after.cfg_swap_halted == snapshot[before.global_config_key@].data[2],
        after.cfg_protocol_halted == snapshot[before.global_config_key@].data[3],
        after.program_id@ == before.program_id@,
        after.strategy_key@ == before.strategy_key@,
        after.mm_key@ == before.mm_key@,
        after.quotes_key@ == before.quotes_key@,
        after.global_config_key@ == before.global_config_key@,
        after.base_mint@ == before.base_mint@,
        after.quote_mint@ == before.quote_mint@,
        after.vault_base_key@ == before.vault_base_key@,
        after.vault_quote_key@ == before.vault_quote_key@,
{
    let v = before@.refreshed(snapshot);
    assert(after@.strategy_data == v.strategy_data);
}

// ---------------------------------------------------------------------------
// Quotes
// ---------------------------------------------------------------------------

/// The two mints of the pair are a trade in either order, the base mint going in on side
/// 0 and the quote mint on side 1; no other mints are a trade.
pub proof fn law_pairs_have_sides(base_mint: Seq<u8>, quote_mint: Seq<u8>, input: Seq<u8>, output: Seq<u8>)
    ensures
        params::side_of(base_mint, quote_mint, input, output) == Some(0u8) <==> input == base_mint && output
            == quote_mint,
        params::side_of(base_mint, quote_mint, input, output) == Some(1u8) <==> input == quote_mint && output
            == base_mint && base_mint != quote_mint,
        params::side_of(base_mint, quote_mint, input, output) is Some <==> (input == base_mint && output == quote_mint)
            || (input == quote_mint && output == base_mint),
{
}

/// A request has a side exactly where it is exact-in on the pair, and otherwise the
/// refusal says which of the two it is not.
pub proof fn law_requests_have_sides(amm: QuayAmm, params: QuoteParams)
    ensures
        ({
            let side = amm.requested_side(params);
            let sells = params.input_mint@ == amm.base_mint@ && params.output_mint@ == amm.quote_mint@;
            let buys = params.input_mint@ == amm.quote_mint@ && params.output_mint@ == amm.base_mint@;
            if params.swap_mode == SwapMode::ExactOut {
                side == Err::<u8, AmmError>(AmmError::ExactOutUnsupported)
            } else if sells {
                side == Ok::<u8, AmmError>(0u8)
            } else if buys {
                side == Ok::<u8, AmmError>(1u8)
            } else {
                side == Err::<u8, AmmError>(
                    AmmError::QuotePairMismatch { base_mint: amm.base_mint, quote_mint: amm.quote_mint },
                )
            }
        }),
{
}

/// A simulation is handed on as it came: output and fee with the asked amount and the
/// mint that goes in on that side, a refusal with its message.
pub proof fn law_simulations_are_handed_on(
    amm: QuayAmm,
    side: u8,
    amount: u64,
    simulation: Result<SwapQuote, String>,
    r: Result<Quote, AmmError>,
)
    requires
        amm.answers(side, amount, simulate::outcome(simulation), r),
    ensures
        match simulation {
            Ok(sim) => {
                &&& r matches Ok(q)
                &&& q.in_amount == amount
                &&& q.out_amount == sim.out_to_taker
                &&& q.fee_amount == sim.protocol_cut
                &&& side == 0 ==> q.fee_mint == amm.base_mint
                &&& side != 0 ==> q.fee_mint == amm.quote_mint
            },
            Err(message) => r matches Err(AmmError::SimulateSwap(text)) && text@ == message@,
        },
{
}

/// What a price is: the simulator's answer for the accounts of the last update, with the
/// base decimals from byte 44 of the base mint and the quote decimals from byte 44 of the
/// quote mint whichever way the trade goes, at the given time, for the asked amount, with
/// any output acceptable, one call deep under the Jupiter router.
pub proof fn law_quote_prices_the_snapshot(
    before: QuayAmm,
    after: QuayAmm,
    snapshot: Map<Seq<u8>, AccountView>,
    params: QuoteParams,
    clock: Clock,
    r: Result<Quote, AmmError>,
)
    requires
        after@ == before@.refreshed(snapshot),
        after.quotes_to(params, clock, r),
        params.swap_mode == SwapMode::ExactIn,
        ({
            ||| params.input_mint@ == before.base_mint@ && params.output_mint@ == before.quote_mint@
            ||| params.input_mint@ == before.quote_mint@ && params.output_mint@ == before.base_mint@
        }),
    ensures
        match simulate::simulated_swap(
            snapshot[before.strategy_key@].data,
            snapshot[before.mm_key@].data,
            snapshot[before.quotes_key@].data,
            snapshot[before.global_config_key@].data,
            clock.slot,
            clock.unix_timestamp,
            if params.input_mint@ == before.base_mint@ {
                0u8
            } else {
                1u8
            },
            params.amount,
            0,
            snapshot[before.base_mint@].data[44],
            snapshot[before.quote_mint@].data[44],
            2,
            0,
            JUPITER_ROUTER_ID@,
            Seq::empty(),
            16384,
        ) {
            Ok((out, cut)) => {
                &&& r matches Ok(q)
                &&& q.in_amount == params.amount
                &&& q.out_amount == out
                &&& q.fee_amount == cut
                &&& q.fee_mint@ == params.input_mint@
            },
            Err(message) => r matches Err(AmmError::SimulateSwap(text)) && text@ == message,
        },
{
    law_update_reads_each_account(before, after, snapshot);
}

/// Numbers are stored least byte first.
pub proof fn law_numbers_are_little_endian(data: Seq<u8>, at: int)
    ensures
        headers::number_at(data, at, 2) == data[at] + 0x100 * data[at + 1],
        headers::number_at(data, at, 8) == data[at] + 0x100 * data[at + 1] + 0x1_0000 * data[at + 2] + 0x100_0000
            * data[at + 3] + 0x1_0000_0000 * data[at + 4] + 0x100_0000_0000 * data[at + 5] + 0x1_0000_0000_0000
            * data[at + 6] + 0x100_0000_0000_0000 * data[at + 7],
{
    reveal_with_fuel(headers::number_at, 9);
}

/// A price is given only where every halt and freeze byte of the cached accounts is clear
/// and the market maker holds the output; the fee is the strategy's rate, at most the
/// whole, of the input.
pub proof fn law_prices_pass_the_gates(amm: QuayAmm, params: QuoteParams, clock: Clock, r: Result<Quote, AmmError>)
    requires
        amm.quotes_to(params, clock, r),
        r is Ok,
    ensures
        ({
            let q = r->Ok_0;
            let strategy = amm.strategy_data@;
            let mm = amm.mm_data@;
            let cfg = amm.global_config_data@;
            let bps = strategy[140] + 256 * strategy[141];
            let base_id = strategy[136] + 256 * strategy[137];
            let quote_id = strategy[138] + 256 * strategy[139];
            let id_out = if params.input_mint@ == amm.base_mint@ {
                quote_id
            } else {
                base_id
            };
            &&& strategy[4] == 0 && strategy[5] == 0
            &&& mm[2] == 0 && mm[3] == 0 && mm[4] == 0
            &&& cfg[2] == 0 && cfg[3] == 0
            &&& q.out_amount > 0
            &&& q.out_amount <= headers::number_at(mm, 96 + 48 * id_out, 8)
            &&& bps <= 10000 ==> q.fee_amount == (params.amount * bps) / 10000
            &&& bps > 10000 ==> q.fee_amount == params.amount
        }),
{
    let amount = params.amount as int;
    let bps = simulate::protocol_fee_bps(amm.strategy_data@) as int;
    law_numbers_are_little_endian(amm.strategy_data@, 136);
    law_numbers_are_little_endian(amm.strategy_data@, 138);
    law_numbers_are_little_endian(amm.strategy_data@, 140);
    assert(bps == 10000 ==> (amount * bps) / 10000 == amount);
}

// ---------------------------------------------------------------------------
// Swaps
// ---------------------------------------------------------------------------

/// Every request on the pair, in either order, gets its swap, whatever the token
/// programs and whatever else the adapter holds; every other request is refused.
pub proof fn law_pairs_swap_and_nothing_else(
    amm: QuayAmm,
    params: SwapParams,
    r: Result<SwapAndAccountMetas, AmmError>,
)
    requires
        amm.swaps_to(params, r),
    ensures
        ({
            let pair = {
                ||| params.source_mint@ == amm.base_mint@ && params.destination_mint@ == amm.quote_mint@
                ||| params.source_mint@ == amm.quote_mint@ && params.destination_mint@ == amm.base_mint@
            };
            &&& r is Ok <==> pair
            &&& amm.swap_side(params) is Some <==> pair
            &&& pair ==> r->Ok_0.swap == Swap::TokenSwap
            &&& !pair ==> r == Err::<SwapAndAccountMetas, AmmError>(AmmError::SwapPairMismatch)
        }),
{
}

/// A swap needs the global config and both vaults to have addresses, and no more.
pub proof fn law_swaps_need_three_addresses(amm: QuayAmm)
    ensures
        ({
            let vault = seq![0x76u8, 0x61, 0x75, 0x6c, 0x74];
            let program_id = amm.program_id@;
            amm.swap_keys_exist() <==> {
                &&& pda::program_address(seq![seq![0x67u8, 0x6c, 0x6f, 0x62, 0x61, 0x6c]], program_id) is Some
                &&& pda::program_address(seq![vault, amm.mm_key@, amm.base_mint@], program_id) is Some
                &&& pda::program_address(seq![vault, amm.mm_key@, amm.quote_mint@], program_id) is Some
            }
        }),
{
}

/// The accounts of a swap, one by one: the global config, strategy, market maker and
/// quotes; the vaults, the token accounts of the taker and the mints, each pair with what
/// goes in before what comes out; the taker; the Instructions sysvar; and the token
/// programs of the base and the quote mint, one account where they are the same. The taker
/// alone signs; the strategy, the market maker, the vaults, the token accounts and the
/// taker are written to.
pub proof fn law_swap_accounts(amm: QuayAmm, params: SwapParams, r: Result<SwapAndAccountMetas, AmmError>)
    requires
        amm.swaps_to(params, r),
        r is Ok,
    ensures
        ({
            let metas = r->Ok_0.account_metas@;
            let vault = seq![0x76u8, 0x61, 0x75, 0x6c, 0x74];
            let config = pda::program_address(
                seq![seq![0x67u8, 0x6c, 0x6f, 0x62, 0x61, 0x6c]],
                amm.program_id@,
            )->Some_0.0;
            let vault_in = pda::program_address(
                seq![vault, amm.mm_key@, params.source_mint@],
                amm.program_id@,
            )->Some_0.0;
            let vault_out = pda::program_address(
                seq![vault, amm.mm_key@, params.destination_mint@],
                amm.program_id@,
            )->Some_0.0;
            &&& metas.len() == if amm.base_token_program@ == amm.quote_token_program@ {
                13nat
            } else {
                14nat
            }
            &&& metas.len() == amm.accounts_len()
            &&& metas[0].pubkey@ == config
            &&& metas[1].pubkey@ == amm.strategy_key@
            &&& metas[2].pubkey@ == amm.mm_key@
            &&& metas[3].pubkey@ == amm.quotes_key@
            &&& metas[4].pubkey@ == vault_in
            &&& metas[5].pubkey@ == vault_out
            &&& metas[6].pubkey@ == params.source_token_account@
            &&& metas[7].pubkey@ == params.destination_token_account@
            &&& metas[8].pubkey@ == params.token_transfer_authority@
            &&& metas[9].pubkey@ == params.source_mint@
            &&& metas[10].pubkey@ == params.destination_mint@
            &&& metas[11].pubkey@ == ix::instructions_sysvar()
            &&& metas[12].pubkey@ == amm.base_token_program@
            &&& amm.base_token_program@ != amm.quote_token_program@ ==> metas[13].pubkey@
                == amm.quote_token_program@
            &&& forall|i: int|
                0 <= i < metas.len() ==> ((#[trigger] metas[i]).is_signer <==> i == 8)
            &&& forall|i: int|
                0 <= i < metas.len() ==> ((#[trigger] metas[i]).is_writable <==> i == 1 || i == 2 || 4 <= i <= 8)
        }),
{
    let metas = r->Ok_0.account_metas@;
    assert(ix::metas_view(metas).len() == metas.len());
    assert forall|i: int| 0 <= i < metas.len() implies (#[trigger] metas[i])@ == ix::metas_view(metas)[i] by {
    }
}

/// After an update the token programs that a swap lists are the owners of the two mint
/// accounts, and a swap counts fourteen accounts exactly where these differ.
pub proof fn law_swap_lists_the_owners_of_the_mints(
    before: QuayAmm,
    after: QuayAmm,
    snapshot: Map<Seq<u8>, AccountView>,
    params: SwapParams,
    r: Result<SwapAndAccountMetas, AmmError>,
)
    requires
        after@ == before@.refreshed(snapshot),
        after.swaps_to(params, r),
        r is Ok,
    ensures
        ({
            let metas = r->Ok_0.account_metas@;
            let base_owner = snapshot[before.base_mint@].owner;
            let quote_owner = snapshot[before.quote_mint@].owner;
            &&& metas[12].pubkey@ == base_owner
            &&& base_owner == quote_owner ==> metas.len() == 13 && after.accounts_len() == 13
            &&& base_owner != quote_owner ==> {
                &&& metas.len() == 14
                &&& after.accounts_len() == 14
                &&& metas[13].pubkey@ == quote_owner
            }
        }),
{
    law_update_reads_each_account(before, after, snapshot);
    law_swap_accounts(after, params, r);
}

} // verus!
