//! Refreshing an adapter from a snapshot of the accounts that it tracks.
use crate::accounts;
use crate::accounts::{read_mint, try_get_account_data, AccountMap, AccountView, MINT_DECIMALS_OFFSET};
use crate::amm::{copy_bytes, AmmView, QuayAmm};
use crate::error::AmmError;
use crate::pubkey::Pubkey;
use crate::sdk::headers;
use vstd::prelude::*;

verus! {

/// Why a tracked account cannot be read, or `None` where it can.
pub open spec fn account_failure(snapshot: Map<Seq<u8>, AccountView>, address: Pubkey) -> Option<AmmError> {
    if snapshot.contains_key(address@) {
        None
    } else {
        Some(AmmError::AccountMissing { address })
    }
}

/// The first of two failures, in the order in which they are looked for.
pub open spec fn first_failure(a: Option<AmmError>, b: Option<AmmError>) -> Option<AmmError> {
    if a is Some {
        a
    } else {
        b
    }
}

impl QuayAmm {
    /// Why the strategy account cannot be refreshed.
    pub open spec fn strategy_update_failure(self, snapshot: Map<Seq<u8>, AccountView>) -> Option<AmmError> {
        first_failure(
            account_failure(snapshot, self.strategy_key),
            match headers::strategy_failure(snapshot[self.strategy_key@].data) {
                Some(e) => Some(AmmError::DecodeStrategyOnUpdate(e)),
                None => None,
            },
        )
    }

    /// Why the market maker account cannot be refreshed.
    pub open spec fn market_maker_update_failure(self, snapshot: Map<Seq<u8>, AccountView>) -> Option<AmmError> {
        first_failure(
            account_failure(snapshot, self.mm_key),
            match headers::market_maker_failure(snapshot[self.mm_key@].data) {
                Some(e) => Some(AmmError::DecodeMarketMakerOnUpdate(e)),
                None => None,
            },
        )
    }

    /// Why the global config account cannot be refreshed.
    pub open spec fn global_config_update_failure(self, snapshot: Map<Seq<u8>, AccountView>) -> Option<AmmError> {
        first_failure(
            account_failure(snapshot, self.global_config_key),
            match headers::global_config_failure(snapshot[self.global_config_key@].data) {
                Some(e) => Some(AmmError::DecodeGlobalConfigOnUpdate(e)),
                None => None,
            },
        )
    }

    /// Why the adapter cannot be refreshed from `snapshot`, or `None` where it can.
    /// The accounts are looked at in a fixed order, and the first failure counts.
    pub open spec fn update_failure(self, snapshot: Map<Seq<u8>, AccountView>) -> Option<AmmError> {
        first_failure(
            self.strategy_update_failure(snapshot),
            first_failure(
                self.market_maker_update_failure(snapshot),
                first_failure(
                    account_failure(snapshot, self.quotes_key),
                    first_failure(
                        self.global_config_update_failure(snapshot),
                        first_failure(
                            account_failure(snapshot, self.vault_base_key),
                            first_failure(
                                account_failure(snapshot, self.vault_quote_key),
                                first_failure(
                                    accounts::mint_failure(snapshot, self.base_mint),
                                    accounts::mint_failure(snapshot, self.quote_mint),
                                ),
                            ),
                        ),
                    ),
                ),
            ),
        )
    }

    /// Refreshes the adapter from a snapshot of the accounts that it tracks.
    ///
    /// Every account has to be there, and to decode. The vaults only have to be there:
    /// their balances are not priced. Where anything fails, the adapter is left as it
    /// was.
    pub fn update(&mut self, account_map: &AccountMap) -> (r: Result<(), AmmError>)
        ensures
            match r {
                Ok(()) => {
                    &&& old(self).update_failure(account_map@) is None
                    &&& final(self)@ == old(self)@.refreshed(account_map@)
                },
                Err(e) => {
                    &&& old(self).update_failure(account_map@) == Some(e)
                    &&& *final(self) == *old(self)
                },
            },
    {
        let strategy_data = match try_get_account_data(account_map, &self.strategy_key) {
            Ok(data) => copy_bytes(data),
            Err(e) => {
                return Err(e);
            },
        };
        let strategy = match headers::decode_strategy(&strategy_data) {
            Ok(strategy) => strategy,
            Err(e) => {
                return Err(AmmError::DecodeStrategyOnUpdate(e));
            },
        };

        let mm_data = match try_get_account_data(account_map, &self.mm_key) {
            Ok(data) => copy_bytes(data),
            Err(e) => {
                return Err(e);
            },
        };
        let mm = match headers::decode_market_maker(&mm_data) {
            Ok(mm) => mm,
            Err(e) => {
                return Err(AmmError::DecodeMarketMakerOnUpdate(e));
            },
        };

        let quotes_data = match try_get_account_data(account_map, &self.quotes_key) {
            Ok(data) => copy_bytes(data),
            Err(e) => {
                return Err(e);
            },
        };

        let cfg_data = match try_get_account_data(account_map, &self.global_config_key) {
            Ok(data) => copy_bytes(data),
            Err(e) => {
                return Err(e);
            },
        };
        let cfg = match headers::decode_global_config(&cfg_data) {
            Ok(cfg) => cfg,
            Err(e) => {
                return Err(AmmError::DecodeGlobalConfigOnUpdate(e));
            },
        };

        if let Err(e) = try_get_account_data(account_map, &self.vault_base_key) {
            return Err(e);
        }
        if let Err(e) = try_get_account_data(account_map, &self.vault_quote_key) {
            return Err(e);
        }

        let (base_token_program, base_decimals) = match read_mint(account_map, &self.base_mint) {
            Ok(mint) => mint,
            Err(e) => {
                return Err(e);
            },
        };
        let (quote_token_program, quote_decimals) = match read_mint(account_map, &self.quote_mint) {
            Ok(mint) => mint,
            Err(e) => {
                return Err(e);
            },
        };

        self.strategy_data = strategy_data;
        self.routing_flags = strategy.routing_flags;
        self.strategy_frozen = strategy.frozen;
        self.strategy_frozen_admin = strategy.frozen_admin;
        self.mm_data = mm_data;
        self.mm_frozen = mm.frozen;
        self.mm_frozen_admin = mm.frozen_admin;
        self.mm_halted_admin = mm.halted_admin;
        self.quotes_data = quotes_data;
        self.global_config_data = cfg_data;
        self.cfg_swap_halted = cfg.swap_halted;
        self.cfg_protocol_halted = cfg.protocol_halted;
        self.base_token_program = base_token_program;
        self.base_decimals = base_decimals;
        self.quote_token_program = quote_token_program;
        self.quote_decimals = quote_decimals;
        Ok(())
    }
}

impl AmmView {
    /// The adapter after a refresh from `snapshot`: the bytes of the accounts, and what
    /// is read from them, are replaced; keys and mints stay.
    pub open spec fn refreshed(self, snapshot: Map<Seq<u8>, AccountView>) -> AmmView {
        let strategy_data = snapshot[self.strategy_key].data;
        let mm_data = snapshot[self.mm_key].data;
        let global_config_data = snapshot[self.global_config_key].data;
        let strategy = headers::strategy_at(strategy_data);
        let mm = headers::market_maker_at(mm_data);
        let cfg = headers::global_config_at(global_config_data);
        AmmView {
            strategy_data,
            mm_data,
            quotes_data: snapshot[self.quotes_key].data,
            global_config_data,
            base_token_program: snapshot[self.base_mint].owner,
            quote_token_program: snapshot[self.quote_mint].owner,
            base_decimals: snapshot[self.base_mint].data[MINT_DECIMALS_OFFSET as int],
            quote_decimals: snapshot[self.quote_mint].data[MINT_DECIMALS_OFFSET as int],
            routing_flags: strategy.routing_flags,
            strategy_frozen: strategy.frozen,
            strategy_frozen_admin: strategy.frozen_admin,
            mm_frozen: mm.frozen,
            mm_frozen_admin: mm.frozen_admin,
            mm_halted_admin: mm.halted_admin,
            cfg_swap_halted: cfg.swap_halted,
            cfg_protocol_halted: cfg.protocol_halted,
            ..self
        }
    }
}

} // verus!
