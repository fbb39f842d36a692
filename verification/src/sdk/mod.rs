//! The Quay SDK: the trusted boundary of the crate.
//!
//! Every call into `quay_sdk` and `solana_program` is made in these modules, behind
//! a function whose contract is believed, not proved. The spec functions beside it
//! say what that contract claims: how the program lays out its accounts, from which
//! seeds it derives its addresses, which accounts a swap takes, and what is known of
//! a simulated swap.
//!
//! The contracts are those of targets with little-endian byte order and 64-bit words:
//! the SDK reads the fields of a header in the byte order of the machine.
pub mod consts;
pub mod headers;
pub mod ix;
pub mod pda;
pub mod simulate;
