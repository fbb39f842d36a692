//! Pricing: the off-chain run of a swap.
use crate::sdk::consts::{FEE_BPS_DENOM, MAX_USERSPACE_LEN};
use crate::sdk::headers;
use crate::sdk::ix;
use vstd::prelude::*;

verus! {

/// The transaction that a swap is priced for, as far as a curve can see it.
#[derive(Debug)]
pub struct TxContext {
    /// Invocation depth of the swap: 1 at top level, 2 behind a router.
    pub ix_depth: u8,
    pub tx_flags: u64,
    /// The top-level program of the transaction.
    pub entrypoint_program: [u8; 32],
    pub signers: Vec<[u8; 32]>,
}

/// What the price of a swap depends on.
#[derive(Debug)]
pub struct SwapSimulationInputs<'a> {
    pub strategy_data: &'a Vec<u8>,
    pub market_maker_data: &'a Vec<u8>,
    pub quotes_data: &'a Vec<u8>,
    pub global_config_data: &'a Vec<u8>,
    pub current_slot: u64,
    pub current_unix_sec: i64,
    pub side: u8,
    pub amount_in: u64,
    pub min_amount_out: u64,
    pub base_decimals: u8,
    pub quote_decimals: u8,
    pub tx: TxContext,
}

/// The outcome of a priced swap.
#[derive(Clone, Copy, Debug, PartialEq, Eq)]
pub struct SwapQuote {
    /// Atoms of the output mint that the taker receives.
    pub out_to_taker: u64,
    /// Protocol fee, in atoms of the input mint.
    pub protocol_cut: u64,
}

/// The outcome of a simulation, as plain values: output and fee, or the message of
/// the refusal.
pub open spec fn outcome(r: Result<SwapQuote, String>) -> Result<(u64, u64), Seq<char>> {
    match r {
        Ok(q) => Ok((q.out_to_taker, q.protocol_cut)),
        Err(e) => Err(e@),
    }
}

/// Name for what `quay_sdk::simulate::simulate_swap_in` returns: the output and the
/// fee of a swap, or the message of the refusal.
pub uninterp spec fn simulated_swap(
    strategy_data: Seq<u8>,
    market_maker_data: Seq<u8>,
    quotes_data: Seq<u8>,
    global_config_data: Seq<u8>,
    current_slot: u64,
    current_unix_sec: i64,
    side: u8,
    amount_in: u64,
    min_amount_out: u64,
    base_decimals: u8,
    quote_decimals: u8,
    ix_depth: u8,
    tx_flags: u64,
    entrypoint_program: Seq<u8>,
    signers: Seq<Seq<u8>>,
    scratch_len: nat,
) -> Result<(u64, u64), Seq<char>>;

/// Signers, as plain values.
pub open spec fn signer_bytes(signers: Seq<[u8; 32]>) -> Seq<Seq<u8>> {
    signers.map_values(|s: [u8; 32]| s@)
}

/// The accounts decode, and no halt or freeze byte that the program checks before a
/// swap is set in them.
pub open spec fn gates_open(strategy_data: Seq<u8>, market_maker_data: Seq<u8>, global_config_data: Seq<u8>) -> bool {
    let config = headers::global_config_at(global_config_data);
    let strategy = headers::strategy_at(strategy_data);
    let market_maker = headers::market_maker_at(market_maker_data);
    &&& headers::global_config_failure(global_config_data) is None
    &&& headers::strategy_failure(strategy_data) is None
    &&& headers::market_maker_failure(market_maker_data) is None
    &&& config.protocol_halted == 0
    &&& config.swap_halted == 0
    &&& strategy.frozen == 0
    &&& strategy.frozen_admin == 0
    &&& market_maker.frozen == 0
    &&& market_maker.frozen_admin == 0
    &&& market_maker.halted_admin == 0
}

/// The protocol fee rate of a strategy, in basis points, capped at the whole.
pub open spec fn protocol_fee_bps(strategy_data: Seq<u8>) -> nat {
    let bps = headers::number_at(strategy_data, 140, 2);
    if bps < FEE_BPS_DENOM {
        bps
    } else {
        FEE_BPS_DENOM as nat
    }
}

/// The protocol fee that a strategy skims from an input.
pub open spec fn protocol_fee(strategy_data: Seq<u8>, amount_in: u64) -> int {
    (amount_in * protocol_fee_bps(strategy_data)) / (FEE_BPS_DENOM as int)
}

/// The amount that slot `id` of a market maker's asset table holds.
pub open spec fn inventory(market_maker_data: Seq<u8>, id: nat) -> nat {
    headers::number_at(market_maker_data, 64 + 48 * (id as int) + 32, 8)
}

/// The amount that a market maker holds of the mint that a swap on `side` gives.
pub open spec fn inventory_out(strategy_data: Seq<u8>, market_maker_data: Seq<u8>, side: u8) -> nat {
    let base_id = headers::number_at(strategy_data, 136, 2);
    let quote_id = headers::number_at(strategy_data, 138, 2);
    inventory(market_maker_data, ix::in_out(side, base_id, quote_id).1)
}

/// Calls `quay_sdk::simulate::simulate_swap_in`. Its result is believed to depend on
/// the inputs and the length of the scratch buffer alone. Of a swap that it prices it
/// is believed that no halt or freeze byte was set, that the output is neither zero
/// nor below the asked minimum nor above what the market maker holds, and that the
/// fee is the strategy's rate of the input, rounded down. Nothing is said of what the
/// call leaves in the scratch buffer.
#[verifier::external_body]
pub(crate) fn simulate_swap_in(
    inputs: &SwapSimulationInputs,
    scratch: &mut [u8; MAX_USERSPACE_LEN],
) -> (r: Result<SwapQuote, String>)
    ensures
        outcome(r) == simulated_swap(
            inputs.strategy_data@,
            inputs.market_maker_data@,
            inputs.quotes_data@,
            inputs.global_config_data@,
            inputs.current_slot,
            inputs.current_unix_sec,
            inputs.side,
            inputs.amount_in,
            inputs.min_amount_out,
            inputs.base_decimals,
            inputs.quote_decimals,
            inputs.tx.ix_depth,
            inputs.tx.tx_flags,
            inputs.tx.entrypoint_program@,
            signer_bytes(inputs.tx.signers@),
            old(scratch)@.len(),
        ),
        r is Ok ==> gates_open(
            inputs.strategy_data@,
            inputs.market_maker_data@,
            inputs.global_config_data@,
        ),
        r matches Ok(q) ==> 0 < q.out_to_taker && inputs.min_amount_out <= q.out_to_taker,
        r matches Ok(q) ==> q.out_to_taker <= inventory_out(
            inputs.strategy_data@,
            inputs.market_maker_data@,
            inputs.side,
        ),
        r matches Ok(q) ==> q.protocol_cut == protocol_fee(inputs.strategy_data@, inputs.amount_in),
{
    let i = inputs;
    let tx = quay_sdk::TxContext {
        ix_depth: i.tx.ix_depth, tx_flags: i.tx.tx_flags,
        entrypoint_program: i.tx.entrypoint_program, signers: &i.tx.signers,
    };
    quay_sdk::simulate::simulate_swap_in(quay_sdk::simulate::SwapSimulationInputs {
        strategy_data: i.strategy_data, market_maker_data: i.market_maker_data,
        quotes_data: i.quotes_data, global_config_data: i.global_config_data,
        current_slot: i.current_slot, current_unix_sec: i.current_unix_sec,
        side: i.side, amount_in: i.amount_in, min_amount_out: i.min_amount_out,
        base_decimals: i.base_decimals, quote_decimals: i.quote_decimals, tx,
    }, scratch)
        .map(|q| SwapQuote { out_to_taker: q.out_to_taker, protocol_cut: q.protocol_cut })
        .map_err(|e| e.to_string())
}

} // verus!
