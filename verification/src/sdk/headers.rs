//! Account headers: where the program keeps what the adapter reads.
use crate::error::DecodeError;
use crate::pubkey::Pubkey;
use crate::sdk::consts::{
    GLOBAL_CONFIG_DISCRIMINATOR, GLOBAL_CONFIG_SIZE, MARKET_MAKER_DISCRIMINATOR,
    MARKET_MAKER_HEADER_SIZE, STRATEGY_DISCRIMINATOR, STRATEGY_HEADER_SIZE,
};
use quay_sdk::ClientError;
use vstd::prelude::*;

verus! {

/// The address stored in `data` at offset `at`.
pub open spec fn key_at(data: Seq<u8>, at: int) -> Seq<u8> {
    data.subrange(at, at + 32)
}

/// The number stored in `data` at offset `at`, in `width` little-endian bytes.
pub open spec fn number_at(data: Seq<u8>, at: int, width: nat) -> nat
    decreases width,
{
    if width == 0 {
        0
    } else {
        data[at] as nat + 256 * number_at(data, at + 1, (width - 1) as nat)
    }
}

/// Why an account with header length `need` and tag `tag` does not decode, or
/// `None` where it does.
pub open spec fn header_failure(data: Seq<u8>, need: usize, tag: u8) -> Option<DecodeError> {
    if data.len() < need {
        Some(DecodeError::AccountTooSmall { got: data.len() as usize, need })
    } else if data[0] != tag {
        Some(DecodeError::BadDiscriminator { got: data[0], expected: tag })
    } else {
        None
    }
}

/// Why `data` is not a strategy account.
pub open spec fn strategy_failure(data: Seq<u8>) -> Option<DecodeError> {
    header_failure(data, STRATEGY_HEADER_SIZE, STRATEGY_DISCRIMINATOR)
}

/// Why `data` is not a market maker account.
pub open spec fn market_maker_failure(data: Seq<u8>) -> Option<DecodeError> {
    header_failure(data, MARKET_MAKER_HEADER_SIZE, MARKET_MAKER_DISCRIMINATOR)
}

/// Why `data` is not the global config account.
pub open spec fn global_config_failure(data: Seq<u8>) -> Option<DecodeError> {
    header_failure(data, GLOBAL_CONFIG_SIZE, GLOBAL_CONFIG_DISCRIMINATOR)
}

/// What the adapter reads of a strategy header.
#[derive(Clone, Copy, Debug)]
pub struct StrategyHeader {
    pub owner: Pubkey,
    pub base_mint: Pubkey,
    pub quote_mint: Pubkey,
    pub quotes_account: Pubkey,
    pub frozen: u8,
    pub frozen_admin: u8,
    pub routing_flags: u8,
}

/// A strategy header, as plain values.
pub struct StrategyView {
    pub owner: Seq<u8>,
    pub base_mint: Seq<u8>,
    pub quote_mint: Seq<u8>,
    pub quotes_account: Seq<u8>,
    pub frozen: u8,
    pub frozen_admin: u8,
    pub routing_flags: u8,
}

impl View for StrategyHeader {
    type V = StrategyView;

    open spec fn view(&self) -> StrategyView {
        StrategyView {
            owner: self.owner@,
            base_mint: self.base_mint@,
            quote_mint: self.quote_mint@,
            quotes_account: self.quotes_account@,
            frozen: self.frozen,
            frozen_admin: self.frozen_admin,
            routing_flags: self.routing_flags,
        }
    }
}

/// The strategy header in the account bytes `data`.
pub open spec fn strategy_at(data: Seq<u8>) -> StrategyView {
    StrategyView {
        owner: key_at(data, 8),
        base_mint: key_at(data, 40),
        quote_mint: key_at(data, 72),
        quotes_account: key_at(data, 104),
        frozen: data[5],
        frozen_admin: data[4],
        routing_flags: data[160],
    }
}

/// What the adapter reads of a market maker header.
#[derive(Clone, Copy, Debug)]
pub struct MarketMakerHeader {
    pub frozen: u8,
    pub frozen_admin: u8,
    pub halted_admin: u8,
}

/// The market maker header in the account bytes `data`.
pub open spec fn market_maker_at(data: Seq<u8>) -> MarketMakerHeader {
    MarketMakerHeader { frozen: data[4], frozen_admin: data[2], halted_admin: data[3] }
}

/// What the adapter reads of the global config.
#[derive(Clone, Copy, Debug)]
pub struct GlobalConfig {
    pub swap_halted: u8,
    pub protocol_halted: u8,
}

/// The global config in the account bytes `data`.
pub open spec fn global_config_at(data: Seq<u8>) -> GlobalConfig {
    GlobalConfig { swap_halted: data[2], protocol_halted: data[3] }
}

/// Calls `quay_sdk::state::StrategyHeader::try_from_account`. It is believed to
/// refuse bytes that are shorter than the header, and then bytes without the
/// strategy tag, and otherwise to read each field at its fixed offset.
#[verifier::external_body]
pub(crate) fn decode_strategy(data: &Vec<u8>) -> (r: Result<StrategyHeader, DecodeError>)
    ensures
        match r {
            Ok(h) => strategy_failure(data@) is None && h@ == strategy_at(data@),
            Err(e) => strategy_failure(data@) == Some(e),
        },
{
    match quay_sdk::state::StrategyHeader::try_from_account(data) {
        Ok(h) => Ok(StrategyHeader {
            owner: Pubkey { bytes: h.owner },
            base_mint: Pubkey { bytes: h.base_mint },
            quote_mint: Pubkey { bytes: h.quote_mint },
            quotes_account: Pubkey { bytes: h.quotes_account },
            frozen: h.frozen, frozen_admin: h.frozen_admin, routing_flags: h.routing_flags,
        }),
        Err(ClientError::AccountTooSmall { got, need }) => Err(DecodeError::AccountTooSmall { got, need }),
        Err(ClientError::BadDiscriminator { got, expected }) => Err(DecodeError::BadDiscriminator { got, expected }),
        Err(e) => Err(DecodeError::Other(e.to_string())),
    }
}

/// Calls `quay_sdk::state::MarketMakerHeader::try_from_account`. It is believed to
/// refuse bytes that are shorter than the header, and then bytes without the
/// market maker tag, and otherwise to read each field at its fixed offset.
#[verifier::external_body]
pub(crate) fn decode_market_maker(data: &Vec<u8>) -> (r: Result<MarketMakerHeader, DecodeError>)
    ensures
        match r {
            Ok(h) => market_maker_failure(data@) is None && h == market_maker_at(data@),
            Err(e) => market_maker_failure(data@) == Some(e),
        },
{
    match quay_sdk::state::MarketMakerHeader::try_from_account(data) {
        Ok(h) => Ok(MarketMakerHeader { frozen: h.frozen, frozen_admin: h.frozen_admin, halted_admin: h.halted_admin }),
        Err(ClientError::AccountTooSmall { got, need }) => Err(DecodeError::AccountTooSmall { got, need }),
        Err(ClientError::BadDiscriminator { got, expected }) => Err(DecodeError::BadDiscriminator { got, expected }),
        Err(e) => Err(DecodeError::Other(e.to_string())),
    }
}

/// Calls `quay_sdk::state::GlobalConfig::try_from_account`. It is believed to
/// refuse bytes that are shorter than the header, and then bytes without the
/// global config tag, and otherwise to read each field at its fixed offset.
#[verifier::external_body]
pub(crate) fn decode_global_config(data: &Vec<u8>) -> (r: Result<GlobalConfig, DecodeError>)
    ensures
        match r {
            Ok(h) => global_config_failure(data@) is None && h == global_config_at(data@),
            Err(e) => global_config_failure(data@) == Some(e),
        },
{
    match quay_sdk::state::GlobalConfig::try_from_account(data) {
        Ok(h) => Ok(GlobalConfig { swap_halted: h.swap_halted, protocol_halted: h.protocol_halted }),
        Err(ClientError::AccountTooSmall { got, need }) => Err(DecodeError::AccountTooSmall { got, need }),
        Err(ClientError::BadDiscriminator { got, expected }) => Err(DecodeError::BadDiscriminator { got, expected }),
        Err(e) => Err(DecodeError::Other(e.to_string())),
    }
}

} // verus!
