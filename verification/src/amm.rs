//! The adapter: one strategy, as a venue that a router can trade on.
use crate::accounts::KeyedAccount;
use crate::error::AmmError;
use crate::pubkey::{Pubkey, SPL_TOKEN_PROGRAM_ID};
use crate::sdk::consts::ROUTE_JUPITER;
use crate::sdk::headers;
use crate::sdk::headers::{StrategyHeader, StrategyView};
use crate::sdk::pda;
use vstd::prelude::*;

verus! {

/// An adapter for one strategy: a pricing curve bound to one pair of mints of one
/// market maker.
///
/// Keys and mints are fixed when the adapter is opened. Account bytes, and what is
/// read from them, are those of the last successful [`QuayAmm::update`].
#[derive(Debug)]
pub struct QuayAmm {
    /// Owner of the strategy account.
    pub program_id: Pubkey,
    pub strategy_key: Pubkey,
    pub strategy_data: Vec<u8>,
    pub mm_key: Pubkey,
    pub mm_data: Vec<u8>,
    pub quotes_key: Pubkey,
    pub quotes_data: Vec<u8>,
    pub global_config_key: Pubkey,
    pub global_config_data: Vec<u8>,
    pub base_mint: Pubkey,
    pub quote_mint: Pubkey,
    /// Owner of each mint, tracked per side: a pair may mix token programs.
    pub base_token_program: Pubkey,
    pub quote_token_program: Pubkey,
    pub base_decimals: u8,
    pub quote_decimals: u8,
    /// The swap takes the vaults, though no price depends on their balances.
    pub vault_base_key: Pubkey,
    pub vault_quote_key: Pubkey,
    pub routing_flags: u8,
    /// Halt and freeze bytes that the program checks before a swap. All of them are set
    /// to 1 (halted) when the adapter is opened, so that the venue stays inactive until
    /// the first successful update.
    pub strategy_frozen: u8,
    pub strategy_frozen_admin: u8,
    pub mm_frozen: u8,
    pub mm_frozen_admin: u8,
    pub mm_halted_admin: u8,
    pub cfg_swap_halted: u8,
    pub cfg_protocol_halted: u8,
}

/// An adapter, as plain values.
pub struct AmmView {
    pub program_id: Seq<u8>,
    pub strategy_key: Seq<u8>,
    pub strategy_data: Seq<u8>,
    pub mm_key: Seq<u8>,
    pub mm_data: Seq<u8>,
    pub quotes_key: Seq<u8>,
    pub quotes_data: Seq<u8>,
    pub global_config_key: Seq<u8>,
    pub global_config_data: Seq<u8>,
    pub base_mint: Seq<u8>,
    pub quote_mint: Seq<u8>,
    pub base_token_program: Seq<u8>,
    pub quote_token_program: Seq<u8>,
    pub base_decimals: u8,
    pub quote_decimals: u8,
    pub vault_base_key: Seq<u8>,
    pub vault_quote_key: Seq<u8>,
    pub routing_flags: u8,
    pub strategy_frozen: u8,
    pub strategy_frozen_admin: u8,
    pub mm_frozen: u8,
    pub mm_frozen_admin: u8,
    pub mm_halted_admin: u8,
    pub cfg_swap_halted: u8,
    pub cfg_protocol_halted: u8,
}

impl View for QuayAmm {
    type V = AmmView;

    open spec fn view(&self) -> AmmView {
        AmmView {
            program_id: self.program_id@,
            strategy_key: self.strategy_key@,
            strategy_data: self.strategy_data@,
            mm_key: self.mm_key@,
            mm_data: self.mm_data@,
            quotes_key: self.quotes_key@,
            quotes_data: self.quotes_data@,
            global_config_key: self.global_config_key@,
            global_config_data: self.global_config_data@,
            base_mint: self.base_mint@,
            quote_mint: self.quote_mint@,
            base_token_program: self.base_token_program@,
            quote_token_program: self.quote_token_program@,
            base_decimals: self.base_decimals,
            quote_decimals: self.quote_decimals,
            vault_base_key: self.vault_base_key@,
            vault_quote_key: self.vault_quote_key@,
            routing_flags: self.routing_flags,
            strategy_frozen: self.strategy_frozen,
            strategy_frozen_admin: self.strategy_frozen_admin,
            mm_frozen: self.mm_frozen,
            mm_frozen_admin: self.mm_frozen_admin,
            mm_halted_admin: self.mm_halted_admin,
            cfg_swap_halted: self.cfg_swap_halted,
            cfg_protocol_halted: self.cfg_protocol_halted,
        }
    }
}

/// The addresses that an adapter derives when it is opened.
#[derive(Clone, Copy, Debug)]
pub struct DerivedKeys {
    pub mm_key: Pubkey,
    pub global_config_key: Pubkey,
    pub vault_base_key: Pubkey,
    pub vault_quote_key: Pubkey,
}

/// Derived addresses, as plain values.
pub struct KeysView {
    pub mm_key: Seq<u8>,
    pub global_config_key: Seq<u8>,
    pub vault_base_key: Seq<u8>,
    pub vault_quote_key: Seq<u8>,
}

impl View for DerivedKeys {
    type V = KeysView;

    open spec fn view(&self) -> KeysView {
        KeysView {
            mm_key: self.mm_key@,
            global_config_key: self.global_config_key@,
            vault_base_key: self.vault_base_key@,
            vault_quote_key: self.vault_quote_key@,
        }
    }
}

/// The adapter on the account `keyed` with the header `strategy` and the derived
/// addresses `keys`.
pub open spec fn opened_with(keyed: KeyedAccount, strategy: StrategyView, keys: KeysView) -> AmmView {
    AmmView {
        program_id: keyed.account.owner@,
        strategy_key: keyed.key@,
        strategy_data: keyed.account.data@,
        mm_key: keys.mm_key,
        mm_data: Seq::empty(),
        quotes_key: strategy.quotes_account,
        quotes_data: Seq::empty(),
        global_config_key: keys.global_config_key,
        global_config_data: Seq::empty(),
        base_mint: strategy.base_mint,
        quote_mint: strategy.quote_mint,
        base_token_program: SPL_TOKEN_PROGRAM_ID@,
        quote_token_program: SPL_TOKEN_PROGRAM_ID@,
        base_decimals: 0,
        quote_decimals: 0,
        vault_base_key: keys.vault_base_key,
        vault_quote_key: keys.vault_quote_key,
        routing_flags: strategy.routing_flags,
        strategy_frozen: 1,
        strategy_frozen_admin: 1,
        mm_frozen: 1,
        mm_frozen_admin: 1,
        mm_halted_admin: 1,
        cfg_swap_halted: 1,
        cfg_protocol_halted: 1,
    }
}

/// Every address that an adapter of `program_id` for `strategy` derives exists.
pub open spec fn keys_exist(program_id: Seq<u8>, strategy: StrategyView) -> bool {
    &&& pda::market_maker_address(program_id, strategy.owner) is Some
    &&& pda::swap_addresses_exist(
        program_id,
        pda::market_maker_address(program_id, strategy.owner)->Some_0.0,
        strategy.base_mint,
        strategy.quote_mint,
    )
}

/// The addresses that an adapter of `program_id` for `strategy` derives.
pub open spec fn keys_of(program_id: Seq<u8>, strategy: StrategyView) -> KeysView {
    let mm_key = pda::market_maker_address(program_id, strategy.owner)->Some_0.0;
    KeysView {
        mm_key,
        global_config_key: pda::global_config_address(program_id)->Some_0.0,
        vault_base_key: pda::vault_address(program_id, mm_key, strategy.base_mint)->Some_0.0,
        vault_quote_key: pda::vault_address(program_id, mm_key, strategy.quote_mint)->Some_0.0,
    }
}

/// The adapter on the strategy account `keyed`.
pub open spec fn opened(keyed: KeyedAccount) -> AmmView {
    let strategy = headers::strategy_at(keyed.account.data@);
    opened_with(keyed, strategy, keys_of(keyed.account.owner@, strategy))
}

/// The account `keyed` is a strategy.
pub open spec fn is_strategy(keyed: KeyedAccount) -> bool {
    headers::strategy_failure(keyed.account.data@) is None
}

/// Every address that an adapter on the strategy account `keyed` derives exists.
pub open spec fn opened_keys_exist(keyed: KeyedAccount) -> bool {
    keys_exist(keyed.account.owner@, headers::strategy_at(keyed.account.data@))
}

/// Opening on `keyed` comes to `r`: an adapter, or the reason why the account is not
/// a strategy.
pub open spec fn opens_to(keyed: KeyedAccount, r: Result<QuayAmm, AmmError>) -> bool {
    match headers::strategy_failure(keyed.account.data@) {
        None => r matches Ok(amm) && amm@ == opened(keyed),
        Some(e) => r == Err::<QuayAmm, AmmError>(AmmError::DecodeStrategy(e)),
    }
}

impl QuayAmm {
    /// The adapter on the strategy account `keyed`, whose header is `strategy`, with
    /// the derived addresses `keys`.
    ///
    /// The token programs are a guess that the first update corrects. Every halt and
    /// freeze byte is set, whatever the header says, so the venue stays inactive until
    /// then.
    pub fn from_strategy(keyed: &KeyedAccount, strategy: &StrategyHeader, keys: &DerivedKeys) -> (amm: QuayAmm)
        ensures
            amm@ == opened_with(*keyed, strategy@, keys@),
    {
        QuayAmm {
            program_id: keyed.account.owner,
            strategy_key: keyed.key,
            strategy_data: copy_bytes(&keyed.account.data),
            mm_key: keys.mm_key,
            mm_data: Vec::new(),
            quotes_key: strategy.quotes_account,
            quotes_data: Vec::new(),
            global_config_key: keys.global_config_key,
            global_config_data: Vec::new(),
            base_mint: strategy.base_mint,
            quote_mint: strategy.quote_mint,
            base_token_program: Pubkey::new_from_array(SPL_TOKEN_PROGRAM_ID),
            quote_token_program: Pubkey::new_from_array(SPL_TOKEN_PROGRAM_ID),
            base_decimals: 0,
            quote_decimals: 0,
            vault_base_key: keys.vault_base_key,
            vault_quote_key: keys.vault_quote_key,
            routing_flags: strategy.routing_flags,
            strategy_frozen: 1,
            strategy_frozen_admin: 1,
            mm_frozen: 1,
            mm_frozen_admin: 1,
            mm_halted_admin: 1,
            cfg_swap_halted: 1,
            cfg_protocol_halted: 1,
        }
    }

    /// Opens an adapter on a strategy account.
    pub fn from_keyed_account(keyed: &KeyedAccount) -> (r: Result<QuayAmm, AmmError>)
        requires
            is_strategy(*keyed) ==> opened_keys_exist(*keyed),
        ensures
            opens_to(*keyed, r),
    {
        let strategy = match headers::decode_strategy(&keyed.account.data) {
            Ok(strategy) => strategy,
            Err(e) => {
                return Err(AmmError::DecodeStrategy(e));
            },
        };
        let program_id = keyed.account.owner;
        let (mm_key, _) = pda::market_maker_pda(&program_id, &strategy.owner);
        let (global_config_key, _) = pda::global_config_pda(&program_id);
        let (vault_base_key, _) = pda::vault_pda(&program_id, &mm_key, &strategy.base_mint);
        let (vault_quote_key, _) = pda::vault_pda(&program_id, &mm_key, &strategy.quote_mint);
        let keys = DerivedKeys { mm_key, global_config_key, vault_base_key, vault_quote_key };
        Ok(Self::from_strategy(keyed, &strategy, &keys))
    }

    /// Opens an adapter on a strategy account, or gives `None` where an address that
    /// it needs does not exist.
    pub fn try_from_keyed_account(keyed: &KeyedAccount) -> (r: Option<Result<QuayAmm, AmmError>>)
        ensures
            r is None <==> is_strategy(*keyed) && !opened_keys_exist(*keyed),
            r matches Some(outcome) ==> opens_to(*keyed, outcome),
    {
        match headers::decode_strategy(&keyed.account.data) {
            Ok(strategy) => {
                let program_id = keyed.account.owner;
                match pda::find_market_maker(&program_id, &strategy.owner) {
                    Some((mm_key, _)) => if pda::check_swap_addresses(
                        &program_id,
                        &mm_key,
                        &strategy.base_mint,
                        &strategy.quote_mint,
                    ) {
                        Some(Self::from_keyed_account(keyed))
                    } else {
                        None
                    },
                    None => None,
                }
            },
            Err(_) => Some(Self::from_keyed_account(keyed)),
        }
    }
}

impl QuayAmm {
    /// The accounts that a price or a swap depends on: the strategy, its market maker,
    /// quotes and global config, both vaults and both mints.
    pub open spec fn watched(self) -> Seq<Pubkey> {
        seq![
            self.strategy_key,
            self.mm_key,
            self.quotes_key,
            self.global_config_key,
            self.vault_base_key,
            self.vault_quote_key,
            self.base_mint,
            self.quote_mint,
        ]
    }

    /// The accounts to refresh the adapter from.
    pub fn get_accounts_to_update(&self) -> (r: Vec<Pubkey>)
        ensures
            r@ == self.watched(),
            r@ == seq![
                self.strategy_key,
                self.mm_key,
                self.quotes_key,
                self.global_config_key,
                self.vault_base_key,
                self.vault_quote_key,
                self.base_mint,
                self.quote_mint,
            ],
    {
        vec![
            self.strategy_key,
            self.mm_key,
            self.quotes_key,
            self.global_config_key,
            self.vault_base_key,
            self.vault_quote_key,
            self.base_mint,
            self.quote_mint,
        ]
    }

    /// The mints that can be traded: base, then quote.
    pub fn get_reserve_mints(&self) -> (r: Vec<Pubkey>)
        ensures
            r@ == seq![self.base_mint, self.quote_mint],
    {
        vec![self.base_mint, self.quote_mint]
    }

    /// Name of the venue.
    pub fn label(&self) -> (r: String)
        ensures
            r@ == "Quay"@,
    {
        "Quay".to_string()
    }

    /// The program that the strategy belongs to.
    pub fn program_id(&self) -> (r: Pubkey)
        ensures
            r == self.program_id,
    {
        self.program_id
    }

    /// The address of the strategy, which identifies the venue.
    pub fn key(&self) -> (r: Pubkey)
        ensures
            r == self.strategy_key,
    {
        self.strategy_key
    }

    /// Whether only one direction can be traded.
    pub fn unidirectional(&self) -> (r: bool)
        ensures
            !r,
    {
        false
    }

    /// Whether a price can be asked for a given output.
    pub fn supports_exact_out(&self) -> (r: bool)
        ensures
            !r,
    {
        false
    }

    /// Whether the venue can be traded: see [`AmmView::active`].
    pub fn is_active(&self) -> (r: bool)
        ensures
            r == self@.active(),
            r <==> self.routing_flags & ROUTE_JUPITER != 0 && self.cfg_swap_halted == 0 && self.cfg_protocol_halted
                == 0 && self.strategy_frozen == 0 && self.strategy_frozen_admin == 0 && self.mm_frozen == 0
                && self.mm_frozen_admin == 0 && self.mm_halted_admin == 0,
    {
        self.routing_flags & ROUTE_JUPITER != 0
            && self.cfg_swap_halted == 0
            && self.cfg_protocol_halted == 0
            && self.strategy_frozen == 0
            && self.strategy_frozen_admin == 0
            && self.mm_frozen == 0
            && self.mm_frozen_admin == 0
            && self.mm_halted_admin == 0
    }
}

impl AmmView {
    /// No halt or freeze byte that the program checks before a swap is set.
    pub open spec fn unhalted(self) -> bool {
        &&& self.cfg_swap_halted == 0
        &&& self.cfg_protocol_halted == 0
        &&& self.strategy_frozen == 0
        &&& self.strategy_frozen_admin == 0
        &&& self.mm_frozen == 0
        &&& self.mm_frozen_admin == 0
        &&& self.mm_halted_admin == 0
    }

    /// The strategy admits Jupiter, and nothing is halted or frozen.
    pub open spec fn active(self) -> bool {
        self.routing_flags & ROUTE_JUPITER != 0 && self.unhalted()
    }
}

impl Clone for QuayAmm {
    /// A copy that answers every request as the adapter does.
    fn clone(&self) -> (r: QuayAmm)
        ensures
            r@ == self@,
    {
        QuayAmm {
            program_id: self.program_id,
            strategy_key: self.strategy_key,
            strategy_data: copy_bytes(&self.strategy_data),
            mm_key: self.mm_key,
            mm_data: copy_bytes(&self.mm_data),
            quotes_key: self.quotes_key,
            quotes_data: copy_bytes(&self.quotes_data),
            global_config_key: self.global_config_key,
            global_config_data: copy_bytes(&self.global_config_data),
            base_mint: self.base_mint,
            quote_mint: self.quote_mint,
            base_token_program: self.base_token_program,
            quote_token_program: self.quote_token_program,
            base_decimals: self.base_decimals,
            quote_decimals: self.quote_decimals,
            vault_base_key: self.vault_base_key,
            vault_quote_key: self.vault_quote_key,
            routing_flags: self.routing_flags,
            strategy_frozen: self.strategy_frozen,
            strategy_frozen_admin: self.strategy_frozen_admin,
            mm_frozen: self.mm_frozen,
            mm_frozen_admin: self.mm_frozen_admin,
            mm_halted_admin: self.mm_halted_admin,
            cfg_swap_halted: self.cfg_swap_halted,
            cfg_protocol_halted: self.cfg_protocol_halted,
        }
    }
}

/// A copy of some bytes.
pub(crate) fn copy_bytes(data: &Vec<u8>) -> (r: Vec<u8>)
    ensures
        r@ == data@,
{
    let r = data.clone();
    assert(r@ =~= data@);
    r
}

} // verus!
