//! What can go wrong.
use crate::pubkey::Pubkey;
use vstd::prelude::*;

verus! {

/// Why the bytes of an account do not decode.
#[allow(inconsistent_fields)]
#[derive(Debug, PartialEq, Eq)]
pub enum DecodeError {
    /// The account has `got` bytes, fewer than the `need` bytes of its header.
    AccountTooSmall { got: usize, need: usize },
    /// The first byte of the account is `got`, not the `expected` tag of its kind.
    BadDiscriminator { got: u8, expected: u8 },
    /// Any other refusal, by its message. No header decoder gives one.
    Other(String),
}

/// Why an adapter refuses a request.
#[derive(Debug, PartialEq, Eq)]
pub enum AmmError {
    /// The account that an adapter is opened on is not a strategy.
    DecodeStrategy(DecodeError),
    /// The refreshed strategy account does not decode.
    DecodeStrategyOnUpdate(DecodeError),
    /// The refreshed market maker account does not decode.
    DecodeMarketMakerOnUpdate(DecodeError),
    /// The refreshed global config account does not decode.
    DecodeGlobalConfigOnUpdate(DecodeError),
    /// A tracked account was not supplied.
    AccountMissing { address: Pubkey },
    /// A mint account was not supplied.
    MintMissing { mint: Pubkey },
    /// A mint account has only `len` bytes, too few to hold its decimals.
    MintTooShort { mint: Pubkey, len: usize },
    /// The swap is exact-in only, and the curve has no inverse.
    ExactOutUnsupported,
    /// The mints of a quote request are not the pair of the strategy.
    QuotePairMismatch { base_mint: Pubkey, quote_mint: Pubkey },
    /// The simulator refused to price the swap, by its message.
    SimulateSwap(String),
    /// The mints of a swap request are not the pair of the strategy.
    SwapPairMismatch,
}

} // verus!
