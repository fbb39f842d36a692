//! The accounts of a swap.
use crate::amm::QuayAmm;
use crate::error::AmmError;
use crate::params;
use crate::params::{trade_side, Swap, SwapAndAccountMetas, SwapParams};
use crate::sdk::consts::SIDE_SELL_BASE;
use crate::sdk::ix;
use crate::sdk::ix::SwapAddresses;
use crate::sdk::pda;
use vstd::prelude::*;

verus! {

/// Accounts of a swap where one token program owns both mints: the global config,
/// strategy, market maker and quotes, two vaults, two token accounts of the taker, the
/// taker, two mints, the Instructions sysvar and the token program.
pub const SWAP_ACCOUNTS_LEN_SAME_PROGRAM: usize = 13;

/// Accounts of a swap where two token programs own the mints.
pub const SWAP_ACCOUNTS_LEN_MIXED_PROGRAM: usize = 14;

impl QuayAmm {
    /// The side of the swap that a request asks for.
    pub open spec fn swap_side(self, params: SwapParams) -> Option<u8> {
        params::side_of(self.base_mint@, self.quote_mint@, params.source_mint@, params.destination_mint@)
    }

    /// The addresses that a swap on `side` is built from. The token accounts of the
    /// taker go by mint.
    pub open spec fn swap_addresses(self, params: SwapParams, side: u8) -> SwapAddresses {
        let (ata_base, ata_quote) = ix::in_out(
            side,
            params.source_token_account,
            params.destination_token_account,
        );
        SwapAddresses {
            program_id: self.program_id,
            strategy: self.strategy_key,
            market_maker: self.mm_key,
            quotes: self.quotes_key,
            base_mint: self.base_mint,
            quote_mint: self.quote_mint,
            taker: params.token_transfer_authority,
            taker_ata_base: ata_base,
            taker_ata_quote: ata_quote,
            base_token_program: self.base_token_program,
            quote_token_program: self.quote_token_program,
        }
    }

    /// The addresses that a swap of this adapter derives exist.
    pub open spec fn swap_keys_exist(self) -> bool {
        pda::swap_addresses_exist(self.program_id@, self.mm_key@, self.base_mint@, self.quote_mint@)
    }

    /// A request for a swap comes to `r`: the accounts of the swap, or that the mints
    /// are not the pair of the strategy.
    pub open spec fn swaps_to(self, params: SwapParams, r: Result<SwapAndAccountMetas, AmmError>) -> bool {
        match self.swap_side(params) {
            Some(side) => {
                &&& r matches Ok(s)
                &&& s.swap == Swap::TokenSwap
                &&& ix::metas_view(s.account_metas@) == ix::swap_metas(self.swap_addresses(params, side), side)
            },
            None => r == Err::<SwapAndAccountMetas, AmmError>(AmmError::SwapPairMismatch),
        }
    }

    /// The accounts of a swap. The amounts do not matter for them.
    pub fn get_swap_and_account_metas(&self, swap_params: &SwapParams) -> (r: Result<SwapAndAccountMetas, AmmError>)
        requires
            self.swap_side(*swap_params) is Some ==> self.swap_keys_exist(),
        ensures
            self.swaps_to(*swap_params, r),
    {
        let side = match trade_side(
            &self.base_mint,
            &self.quote_mint,
            &swap_params.source_mint,
            &swap_params.destination_mint,
        ) {
            Some(side) => side,
            None => {
                return Err(AmmError::SwapPairMismatch);
            },
        };
        let (taker_ata_base, taker_ata_quote) = if side == SIDE_SELL_BASE {
            (swap_params.source_token_account, swap_params.destination_token_account)
        } else {
            (swap_params.destination_token_account, swap_params.source_token_account)
        };
        let addresses = SwapAddresses {
            program_id: self.program_id,
            strategy: self.strategy_key,
            market_maker: self.mm_key,
            quotes: self.quotes_key,
            base_mint: self.base_mint,
            quote_mint: self.quote_mint,
            taker: swap_params.token_transfer_authority,
            taker_ata_base,
            taker_ata_quote,
            base_token_program: self.base_token_program,
            quote_token_program: self.quote_token_program,
        };
        let account_metas = ix::swap(&addresses, 0, 0, side);
        Ok(SwapAndAccountMetas { swap: Swap::TokenSwap, account_metas })
    }

    /// The accounts of a swap, or `None` where an address that it needs does not exist.
    pub fn try_get_swap_and_account_metas(
        &self,
        swap_params: &SwapParams,
    ) -> (r: Option<Result<SwapAndAccountMetas, AmmError>>)
        ensures
            r is None <==> self.swap_side(*swap_params) is Some && !self.swap_keys_exist(),
            r matches Some(outcome) ==> self.swaps_to(*swap_params, outcome),
    {
        if trade_side(
            &self.base_mint,
            &self.quote_mint,
            &swap_params.source_mint,
            &swap_params.destination_mint,
        ).is_some() && !pda::check_swap_addresses(
            &self.program_id,
            &self.mm_key,
            &self.base_mint,
            &self.quote_mint,
        ) {
            None
        } else {
            Some(self.get_swap_and_account_metas(swap_params))
        }
    }

    /// The number of accounts of a swap.
    pub open spec fn accounts_len(self) -> usize {
        if self.base_token_program@ == self.quote_token_program@ {
            SWAP_ACCOUNTS_LEN_SAME_PROGRAM
        } else {
            SWAP_ACCOUNTS_LEN_MIXED_PROGRAM
        }
    }

    /// The number of accounts of a swap. Until the first update both mints count as SPL
    /// Token mints.
    pub fn get_accounts_len(&self) -> (r: usize)
        ensures
            r == self.accounts_len(),
            self.base_token_program@ == self.quote_token_program@ ==> r == 13,
            self.base_token_program@ != self.quote_token_program@ ==> r == 14,
    {
        if self.base_token_program == self.quote_token_program {
            SWAP_ACCOUNTS_LEN_SAME_PROGRAM
        } else {
            SWAP_ACCOUNTS_LEN_MIXED_PROGRAM
        }
    }
}

} // verus!
