//! Requests to an adapter, and its answers.
use crate::pubkey::Pubkey;
use crate::sdk::consts::{SIDE_BUY_BASE, SIDE_SELL_BASE};
use crate::sdk::ix::AccountMeta;
use vstd::prelude::*;

verus! {

/// Which end of a swap a request fixes.
#[derive(Clone, Copy, Debug, PartialEq, Eq, Structural)]
pub enum SwapMode {
    ExactIn,
    ExactOut,
}

/// A request for a price.
#[derive(Clone, Copy, Debug)]
pub struct QuoteParams {
    /// Atoms of the input mint.
    pub amount: u64,
    pub input_mint: Pubkey,
    pub output_mint: Pubkey,
    pub swap_mode: SwapMode,
}

/// A price. Amounts are in atoms.
#[derive(Clone, Copy, Debug, PartialEq, Eq)]
pub struct Quote {
    /// What the taker pays.
    pub in_amount: u64,
    /// What the taker receives.
    pub out_amount: u64,
    /// The protocol fee, skimmed from the input.
    pub fee_amount: u64,
    /// The mint of the fee.
    pub fee_mint: Pubkey,
}

/// The time that a price is asked for.
#[derive(Clone, Copy, Debug)]
pub struct Clock {
    pub slot: u64,
    pub unix_timestamp: i64,
}

/// A request for the accounts of a swap.
#[derive(Clone, Copy, Debug)]
pub struct SwapParams {
    pub source_mint: Pubkey,
    pub destination_mint: Pubkey,
    /// The token account that pays.
    pub source_token_account: Pubkey,
    /// The token account that is paid.
    pub destination_token_account: Pubkey,
    /// Who signs for `source_token_account`.
    pub token_transfer_authority: Pubkey,
}

/// The kind under which the router files a swap. It has none of its own for Quay
/// yet; the accounts are right under any.
#[derive(Clone, Copy, Debug, PartialEq, Eq, Structural)]
pub enum Swap {
    TokenSwap,
}

/// A swap: its kind and its accounts.
#[derive(Debug, PartialEq, Eq)]
pub struct SwapAndAccountMetas {
    pub swap: Swap,
    pub account_metas: Vec<AccountMeta>,
}

/// The side of a swap that takes `input` and gives `output`, or `None` where these
/// are not the two mints of the pair.
pub open spec fn side_of(base_mint: Seq<u8>, quote_mint: Seq<u8>, input: Seq<u8>, output: Seq<u8>) -> Option<u8> {
    if input == base_mint && output == quote_mint {
        Some(SIDE_SELL_BASE)
    } else if input == quote_mint && output == base_mint {
        Some(SIDE_BUY_BASE)
    } else {
        None
    }
}

/// The side of a swap on the pair `(base_mint, quote_mint)` that takes `input` and
/// gives `output`.
pub fn trade_side(base_mint: &Pubkey, quote_mint: &Pubkey, input: &Pubkey, output: &Pubkey) -> (r: Option<u8>)
    ensures
        r == side_of(base_mint@, quote_mint@, input@, output@),
        r == Some(0u8) <==> input@ == base_mint@ && output@ == quote_mint@,
        r is None <==> !(input@ == base_mint@ && output@ == quote_mint@) && !(input@ == quote_mint@ && output@
            == base_mint@),
        r is Some ==> r == Some(0u8) || r == Some(1u8),
{
    if *input == *base_mint && *output == *quote_mint {
        Some(SIDE_SELL_BASE)
    } else if *input == *quote_mint && *output == *base_mint {
        Some(SIDE_BUY_BASE)
    } else {
        None
    }
}

} // verus!
