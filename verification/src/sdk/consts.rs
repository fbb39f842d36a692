//! Wire constants of the Quay program.
use vstd::prelude::*;

verus! {

/// Tag byte of the global config account.
pub const GLOBAL_CONFIG_DISCRIMINATOR: u8 = 1;

/// Tag byte of a strategy account.
pub const STRATEGY_DISCRIMINATOR: u8 = 3;

/// Tag byte of a market maker account.
pub const MARKET_MAKER_DISCRIMINATOR: u8 = 4;

/// Header length of the global config account.
pub const GLOBAL_CONFIG_SIZE: usize = 128;

/// Header length of a strategy account.
pub const STRATEGY_HEADER_SIZE: usize = 256;

/// Header length of a market maker account.
pub const MARKET_MAKER_HEADER_SIZE: usize = 64;

/// Side of a swap that sells the base mint for the quote mint.
pub const SIDE_SELL_BASE: u8 = 0;

/// Side of a swap that buys the base mint with the quote mint.
pub const SIDE_BUY_BASE: u8 = 1;

/// Bit of a strategy's routing flags that admits Jupiter.
pub const ROUTE_JUPITER: u8 = 2;

/// Largest userspace that the program grants a strategy, in bytes.
pub const MAX_USERSPACE_LEN: usize = 16384;

/// Denominator of fees in basis points.
pub const FEE_BPS_DENOM: u64 = 10000;

} // verus!
