//! Jupiter adapter for the Quay program.
//!
//! One [`QuayAmm`] is one strategy: a pricing curve bound to a single pair of mints of
//! one market maker. A router opens one adapter per strategy, refreshes it from the
//! accounts that [`QuayAmm::get_accounts_to_update`] lists, and asks it for prices and
//! for the accounts of a swap.
//!
//! Prices come from the simulator of the Quay SDK, which runs the pricing curve of the
//! program off-chain. What the adapter decides around it is verified: which accounts it
//! needs and when it refuses them, when the venue can be traded, which side a trade
//! takes, what the simulator is asked, and how its answer is handed on.
//!
//! - [`amm`]: the adapter, how it is opened, and when it is active;
//! - [`update`], [`quote`], [`swap`]: refreshing, pricing, and the accounts of a swap;
//! - [`accounts`], [`params`], [`pubkey`], [`error`]: the values that go in and out;
//! - [`sdk`]: the Quay SDK, and what is believed of it;
//! - [`laws`]: what holds of an adapter as a whole;
//! - [`effects`]: what each operation does, down to the bytes.
pub mod accounts;
pub mod amm;
pub mod effects;
pub mod error;
pub mod laws;
pub mod params;
pub mod pubkey;
pub mod quote;
pub mod sdk;
pub mod swap;
pub mod update;

pub use accounts::{Account, AccountMap, KeyedAccount};
pub use amm::QuayAmm;
pub use error::{AmmError, DecodeError};
pub use params::{Clock, Quote, QuoteParams, Swap, SwapAndAccountMetas, SwapMode, SwapParams};
pub use pubkey::{Pubkey, JUPITER_ROUTER_ID, QUAY_PROGRAM_ID};
pub use sdk::ix::AccountMeta;
