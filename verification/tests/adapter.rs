use quay_aggregator_jupiter::accounts::{read_mint, try_get_account_data};
use quay_aggregator_jupiter::amm::DerivedKeys;
use quay_aggregator_jupiter::params::trade_side;
use quay_aggregator_jupiter::pubkey::SPL_TOKEN_PROGRAM_ID;
use quay_aggregator_jupiter::sdk::consts::{
    FEE_BPS_DENOM, GLOBAL_CONFIG_DISCRIMINATOR, GLOBAL_CONFIG_SIZE, MARKET_MAKER_DISCRIMINATOR,
    MARKET_MAKER_HEADER_SIZE, MAX_USERSPACE_LEN, ROUTE_JUPITER, SIDE_BUY_BASE, SIDE_SELL_BASE,
    STRATEGY_DISCRIMINATOR, STRATEGY_HEADER_SIZE,
};
use quay_aggregator_jupiter::sdk::headers::StrategyHeader;
use quay_aggregator_jupiter::sdk::pda::{check_swap_addresses, find_market_maker};
use quay_aggregator_jupiter::sdk::simulate::SwapQuote;
use quay_aggregator_jupiter::{
    Account, AccountMap, AccountMeta, AmmError, Clock, DecodeError, KeyedAccount, Pubkey, QuayAmm,
    Quote, QuoteParams, Swap, SwapMode, SwapParams, JUPITER_ROUTER_ID, QUAY_PROGRAM_ID,
};
use solana_program::pubkey::Pubkey as SolanaPubkey;
use std::str::FromStr;

const PROGRAM: [u8; 32] = [9; 32];
const STRATEGY: [u8; 32] = [10; 32];
const OWNER: [u8; 32] = [11; 32];
const BASE: [u8; 32] = [12; 32];
const QUOTE: [u8; 32] = [13; 32];
const QUOTES: [u8; 32] = [14; 32];
const TAKER: [u8; 32] = [15; 32];
const TAKER_BASE: [u8; 32] = [16; 32];
const TAKER_QUOTE: [u8; 32] = [17; 32];
const OTHER: [u8; 32] = [18; 32];

const CLOCK: Clock = Clock {
    slot: 77,
    unix_timestamp: 1_700_000_000,
};

fn key(bytes: [u8; 32]) -> Pubkey {
    Pubkey::new_from_array(bytes)
}

fn sol(bytes: [u8; 32]) -> SolanaPubkey {
    SolanaPubkey::new_from_array(bytes)
}

/// A strategy account with the given curve, a fee of 25 basis points and 16 bytes of
/// userspace. The base asset is slot 0, the quote asset slot 1.
fn strategy_bytes(bytecode: &[u8]) -> Vec<u8> {
    let mut d = vec![0u8; 256];
    d[0] = 3;
    d[8..40].copy_from_slice(&OWNER);
    d[40..72].copy_from_slice(&BASE);
    d[72..104].copy_from_slice(&QUOTE);
    d[104..136].copy_from_slice(&QUOTES);
    d[138] = 1;
    d[140] = 25;
    d[144..148].copy_from_slice(&(bytecode.len() as u32).to_le_bytes());
    d[148..152].copy_from_slice(&16u32.to_le_bytes());
    d[160] = 2;
    d.extend_from_slice(bytecode);
    d.extend_from_slice(&[0; 16]);
    d
}

/// A market maker that holds 5_000_000 base atoms and 7_000_000 quote atoms.
fn market_maker_bytes() -> Vec<u8> {
    let mut d = vec![0u8; 64 + 2 * 48];
    d[0] = 4;
    d[8..40].copy_from_slice(&OWNER);
    d[40] = 2;
    d[64..96].copy_from_slice(&BASE);
    d[96..104].copy_from_slice(&5_000_000u64.to_le_bytes());
    d[112..144].copy_from_slice(&QUOTE);
    d[144..152].copy_from_slice(&7_000_000u64.to_le_bytes());
    d
}

fn quotes_bytes() -> Vec<u8> {
    let mut d = vec![0u8; 64 + 241 * 4];
    d[0] = 2;
    d[40] = 1;
    d
}

fn config_bytes() -> Vec<u8> {
    let mut d = vec![0u8; 128];
    d[0] = 1;
    d
}

fn mint_bytes(decimals: u8) -> Vec<u8> {
    let mut d = vec![0u8; 82];
    d[44] = decimals;
    d
}

/// The curve that pays one quote atom per base atom.
fn par_curve() -> Vec<u8> {
    vec![quay_sdk::Op::LoadSize as u8, quay_sdk::Op::Halt as u8]
}

fn keyed(data: Vec<u8>) -> KeyedAccount {
    KeyedAccount {
        key: key(STRATEGY),
        account: Account {
            owner: key(PROGRAM),
            data,
        },
    }
}

fn open(data: Vec<u8>) -> QuayAmm {
    QuayAmm::try_from_keyed_account(&keyed(data)).unwrap().unwrap()
}

fn account(owner: [u8; 32], data: Vec<u8>) -> Account {
    Account {
        owner: key(owner),
        data,
    }
}

/// Every watched account, in working order.
fn snapshot(amm: &QuayAmm, bytecode: &[u8]) -> AccountMap {
    let mut m = AccountMap::new();
    m.insert(amm.strategy_key, account(PROGRAM, strategy_bytes(bytecode)));
    m.insert(amm.mm_key, account(PROGRAM, market_maker_bytes()));
    m.insert(amm.quotes_key, account(PROGRAM, quotes_bytes()));
    m.insert(amm.global_config_key, account(PROGRAM, config_bytes()));
    m.insert(amm.vault_base_key, account(SPL_TOKEN_PROGRAM_ID, Vec::new()));
    m.insert(amm.vault_quote_key, account(SPL_TOKEN_PROGRAM_ID, Vec::new()));
    m.insert(amm.base_mint, account(SPL_TOKEN_PROGRAM_ID, mint_bytes(9)));
    m.insert(amm.quote_mint, account(SPL_TOKEN_PROGRAM_ID, mint_bytes(6)));
    m
}

fn ready(bytecode: &[u8]) -> QuayAmm {
    let mut amm = open(strategy_bytes(bytecode));
    let accounts = snapshot(&amm, bytecode);
    assert_eq!(amm.update(&accounts), Ok(()));
    amm
}

fn sell(amount: u64) -> QuoteParams {
    QuoteParams {
        amount,
        input_mint: key(BASE),
        output_mint: key(QUOTE),
        swap_mode: SwapMode::ExactIn,
    }
}

fn buy(amount: u64) -> QuoteParams {
    QuoteParams {
        amount,
        input_mint: key(QUOTE),
        output_mint: key(BASE),
        swap_mode: SwapMode::ExactIn,
    }
}

fn swap_selling() -> SwapParams {
    SwapParams {
        source_mint: key(BASE),
        destination_mint: key(QUOTE),
        source_token_account: key(TAKER_BASE),
        destination_token_account: key(TAKER_QUOTE),
        token_transfer_authority: key(TAKER),
    }
}

fn swap_buying() -> SwapParams {
    SwapParams {
        source_mint: key(QUOTE),
        destination_mint: key(BASE),
        source_token_account: key(TAKER_QUOTE),
        destination_token_account: key(TAKER_BASE),
        token_transfer_authority: key(TAKER),
    }
}

// Addresses and constants.

#[test]
fn program_ids() {
    let quay = SolanaPubkey::from_str("QUayE6nexQWYNZAEqfN8FxoNwQDSu3CAzT2qq9J1ArG").unwrap();
    let jupiter = SolanaPubkey::from_str("JUP6LkbZbjS1jKKwapdHNy74zcZ3tLUZoi5QNyVTaV4").unwrap();
    assert_eq!(QUAY_PROGRAM_ID, quay.to_bytes());
    assert_eq!(JUPITER_ROUTER_ID, jupiter.to_bytes());
    assert_eq!(SPL_TOKEN_PROGRAM_ID, quay_sdk::pda::SPL_TOKEN_PROGRAM_ID.to_bytes());
}

#[test]
fn wire_constants_are_those_of_the_sdk() {
    assert_eq!(GLOBAL_CONFIG_DISCRIMINATOR, quay_sdk::consts::GLOBAL_CONFIG_DISCRIMINATOR);
    assert_eq!(STRATEGY_DISCRIMINATOR, quay_sdk::consts::STRATEGY_DISCRIMINATOR);
    assert_eq!(MARKET_MAKER_DISCRIMINATOR, quay_sdk::consts::MARKET_MAKER_DISCRIMINATOR);
    assert_eq!(GLOBAL_CONFIG_SIZE, quay_sdk::consts::GLOBAL_CONFIG_SIZE);
    assert_eq!(STRATEGY_HEADER_SIZE, quay_sdk::consts::STRATEGY_HEADER_SIZE);
    assert_eq!(MARKET_MAKER_HEADER_SIZE, quay_sdk::consts::MARKET_MAKER_HEADER_SIZE);
    assert_eq!(SIDE_SELL_BASE, quay_sdk::consts::SIDE_SELL_BASE);
    assert_eq!(SIDE_BUY_BASE, quay_sdk::consts::SIDE_BUY_BASE);
    assert_eq!(ROUTE_JUPITER, quay_sdk::consts::ROUTE_JUPITER);
    assert_eq!(MAX_USERSPACE_LEN, quay_sdk::consts::MAX_USERSPACE_LEN as usize);
    assert_eq!(FEE_BPS_DENOM, quay_sdk::consts::FEE_BPS_DENOM);
}

#[test]
fn addresses_compare_by_bytes() {
    let mut bytes = [7u8; 32];
    let a = key(bytes);
    assert!(a == key([7; 32]));
    bytes[31] = 8;
    assert!(a != key(bytes));
    bytes[31] = 7;
    bytes[0] = 8;
    assert!(a != key(bytes));
    assert_eq!(key(bytes).to_bytes(), bytes);
}

#[test]
fn addresses_are_searched_from_the_seeds_of_the_program() {
    let (mm, bump) = quay_sdk::pda::market_maker_pda(&sol(PROGRAM), &sol(OWNER));
    assert_eq!(
        find_market_maker(&key(PROGRAM), &key(OWNER)),
        Some((key(mm.to_bytes()), bump))
    );
    assert!(find_market_maker(&key(PROGRAM), &key(OTHER)) != Some((key(mm.to_bytes()), bump)));
    assert!(check_swap_addresses(&key(PROGRAM), &key(OTHER), &key(BASE), &key(QUOTE)));
}

#[test]
fn sides_of_a_pair() {
    let (b, q, o) = (key(BASE), key(QUOTE), key(OTHER));
    assert_eq!(trade_side(&b, &q, &b, &q), Some(SIDE_SELL_BASE));
    assert_eq!(trade_side(&b, &q, &q, &b), Some(SIDE_BUY_BASE));
    assert_eq!(trade_side(&b, &q, &b, &b), None);
    assert_eq!(trade_side(&b, &q, &q, &q), None);
    assert_eq!(trade_side(&b, &q, &b, &o), None);
    assert_eq!(trade_side(&b, &q, &o, &q), None);
    assert_eq!(trade_side(&b, &q, &o, &b), None);
    assert_eq!(trade_side(&b, &b, &b, &b), Some(SIDE_SELL_BASE));
}

// Snapshots.

#[test]
fn snapshot_keeps_the_last_account_of_an_address() {
    let mut m = AccountMap::new();
    assert!(m.get(&key(BASE)).is_none());
    m.insert(key(BASE), account(OWNER, vec![1]));
    m.insert(key(QUOTE), account(OWNER, vec![2]));
    m.insert(key(BASE), account(OTHER, vec![3, 4]));
    assert_eq!(m.get(&key(BASE)), Some(&account(OTHER, vec![3, 4])));
    assert_eq!(m.get(&key(QUOTE)), Some(&account(OWNER, vec![2])));
    assert!(m.get(&key(OTHER)).is_none());
    assert_eq!(try_get_account_data(&m, &key(QUOTE)), Ok(&vec![2]));
    assert_eq!(
        try_get_account_data(&m, &key(OTHER)),
        Err(AmmError::AccountMissing { address: key(OTHER) })
    );
}

#[test]
fn mint_gives_owner_and_decimals() {
    let mut m = AccountMap::new();
    m.insert(key(BASE), account(OWNER, mint_bytes(9)));
    let mut shortest = vec![0u8; 45];
    shortest[44] = 5;
    m.insert(key(QUOTE), account(OTHER, shortest));
    m.insert(key(OTHER), account(OWNER, vec![0; 44]));
    assert_eq!(read_mint(&m, &key(BASE)), Ok((key(OWNER), 9)));
    assert_eq!(read_mint(&m, &key(QUOTE)), Ok((key(OTHER), 5)));
    assert_eq!(
        read_mint(&m, &key(OTHER)),
        Err(AmmError::MintTooShort { mint: key(OTHER), len: 44 })
    );
    assert_eq!(
        read_mint(&m, &key(TAKER)),
        Err(AmmError::MintMissing { mint: key(TAKER) })
    );
}

// Opening.

#[test]
fn opening_reads_the_strategy_and_derives_the_keys() {
    let mut data = strategy_bytes(&par_curve());
    data[4] = 6;
    data[5] = 7;
    let amm = QuayAmm::from_keyed_account(&keyed(data.clone())).unwrap();
    let (mm, _) = quay_sdk::pda::market_maker_pda(&sol(PROGRAM), &sol(OWNER));
    let (config, _) = quay_sdk::pda::global_config_pda(&sol(PROGRAM));
    let (vault_base, _) = quay_sdk::pda::vault_pda(&sol(PROGRAM), &mm, &sol(BASE));
    let (vault_quote, _) = quay_sdk::pda::vault_pda(&sol(PROGRAM), &mm, &sol(QUOTE));
    assert_eq!(amm.program_id(), key(PROGRAM));
    assert_eq!(amm.key(), key(STRATEGY));
    assert_eq!(amm.strategy_data, data);
    assert_eq!(amm.mm_key, key(mm.to_bytes()));
    assert_eq!(amm.global_config_key, key(config.to_bytes()));
    assert_eq!(amm.vault_base_key, key(vault_base.to_bytes()));
    assert_eq!(amm.vault_quote_key, key(vault_quote.to_bytes()));
    assert_eq!(amm.quotes_key, key(QUOTES));
    assert_eq!(amm.get_reserve_mints(), vec![key(BASE), key(QUOTE)]);
    assert_eq!(
        amm.get_accounts_to_update(),
        vec![
            key(STRATEGY),
            key(mm.to_bytes()),
            key(QUOTES),
            key(config.to_bytes()),
            key(vault_base.to_bytes()),
            key(vault_quote.to_bytes()),
            key(BASE),
            key(QUOTE),
        ]
    );
    assert_eq!(amm.routing_flags, 2);
    assert_eq!((amm.strategy_frozen, amm.strategy_frozen_admin), (1, 1));
    assert_eq!((amm.base_decimals, amm.quote_decimals), (0, 0));
    assert_eq!(amm.base_token_program, key(SPL_TOKEN_PROGRAM_ID));
    assert_eq!(amm.quote_token_program, key(SPL_TOKEN_PROGRAM_ID));
    assert!(amm.mm_data.is_empty() && amm.quotes_data.is_empty());
    assert!(amm.global_config_data.is_empty());
}

#[test]
fn opening_refuses_what_is_not_a_strategy() {
    let short = keyed(vec![3; 255]);
    let e = AmmError::DecodeStrategy(DecodeError::AccountTooSmall { got: 255, need: 256 });
    assert_eq!(QuayAmm::from_keyed_account(&short).err(), Some(e));
    let mut data = strategy_bytes(&par_curve());
    data[0] = 4;
    let e = AmmError::DecodeStrategy(DecodeError::BadDiscriminator { got: 4, expected: 3 });
    assert_eq!(QuayAmm::try_from_keyed_account(&keyed(data)).unwrap().err(), Some(e));
}

#[test]
fn opening_with_given_addresses() {
    let strategy = StrategyHeader {
        owner: key(OWNER),
        base_mint: key(QUOTE),
        quote_mint: key(BASE),
        quotes_account: key(OTHER),
        frozen: 3,
        frozen_admin: 4,
        routing_flags: 5,
    };
    let keys = DerivedKeys {
        mm_key: key([1; 32]),
        global_config_key: key([2; 32]),
        vault_base_key: key([3; 32]),
        vault_quote_key: key([4; 32]),
    };
    let amm = QuayAmm::from_strategy(&keyed(vec![1, 2, 3]), &strategy, &keys);
    assert_eq!(amm.strategy_data, vec![1, 2, 3]);
    assert_eq!(
        amm.get_accounts_to_update(),
        vec![
            key(STRATEGY),
            key([1; 32]),
            key(OTHER),
            key([2; 32]),
            key([3; 32]),
            key([4; 32]),
            key(QUOTE),
            key(BASE),
        ]
    );
    assert_eq!((amm.strategy_frozen, amm.strategy_frozen_admin, amm.routing_flags), (1, 1, 5));
    assert_eq!((amm.mm_frozen, amm.mm_frozen_admin, amm.mm_halted_admin), (1, 1, 1));
    assert_eq!((amm.cfg_swap_halted, amm.cfg_protocol_halted), (1, 1));
}

#[test]
fn opening_halts_an_unfrozen_strategy() {
    let amm = open(strategy_bytes(&par_curve()));
    assert_eq!((amm.strategy_data[5], amm.strategy_data[4]), (0, 0));
    assert_eq!((amm.strategy_frozen, amm.strategy_frozen_admin), (1, 1));
    assert_eq!((amm.mm_frozen, amm.mm_frozen_admin, amm.mm_halted_admin), (1, 1, 1));
    assert_eq!((amm.cfg_swap_halted, amm.cfg_protocol_halted), (1, 1));
    let amm = ready(&par_curve());
    assert_eq!((amm.strategy_frozen, amm.strategy_frozen_admin), (0, 0));
}

#[test]
fn inactive_until_the_first_successful_update() {
    let mut amm = open(strategy_bytes(&par_curve()));
    assert!(!amm.is_active());
    assert_eq!(amm.get_accounts_len(), 13);
    assert!(amm.update(&AccountMap::new()).is_err());
    assert!(!amm.is_active());
    assert!(amm.quote(&sell(1_000_000), &CLOCK).is_err());
    let accounts = snapshot(&amm, &par_curve());
    assert_eq!(amm.update(&accounts), Ok(()));
    assert!(amm.is_active());
}

// Updates.

#[test]
fn update_reads_every_account() {
    let mut amm = open(strategy_bytes(&par_curve()));
    let mut accounts = snapshot(&amm, &par_curve());
    let mut strategy = strategy_bytes(&par_curve());
    strategy[4] = 21;
    strategy[5] = 22;
    strategy[160] = 23;
    let mut mm = market_maker_bytes();
    mm[2] = 24;
    mm[3] = 25;
    mm[4] = 26;
    let mut config = config_bytes();
    config[2] = 27;
    config[3] = 28;
    accounts.insert(amm.strategy_key, account(PROGRAM, strategy.clone()));
    accounts.insert(amm.mm_key, account(PROGRAM, mm.clone()));
    accounts.insert(amm.global_config_key, account(PROGRAM, config.clone()));
    accounts.insert(amm.quote_mint, account(OTHER, mint_bytes(8)));
    let watched = amm.get_accounts_to_update();
    assert_eq!(amm.update(&accounts), Ok(()));
    assert_eq!(amm.strategy_data, strategy);
    assert_eq!(amm.mm_data, mm);
    assert_eq!(amm.quotes_data, quotes_bytes());
    assert_eq!(amm.global_config_data, config);
    assert_eq!((amm.strategy_frozen_admin, amm.strategy_frozen, amm.routing_flags), (21, 22, 23));
    assert_eq!((amm.mm_frozen_admin, amm.mm_halted_admin, amm.mm_frozen), (24, 25, 26));
    assert_eq!((amm.cfg_swap_halted, amm.cfg_protocol_halted), (27, 28));
    assert_eq!((amm.base_decimals, amm.quote_decimals), (9, 8));
    assert_eq!(amm.base_token_program, key(SPL_TOKEN_PROGRAM_ID));
    assert_eq!(amm.quote_token_program, key(OTHER));
    assert_eq!(amm.get_accounts_len(), 14);
    assert_eq!(amm.get_accounts_to_update(), watched);
}

#[test]
fn update_needs_every_account() {
    for skipped in 0..8 {
        let mut amm = ready(&par_curve());
        let full = snapshot(&amm, &par_curve());
        let watched = amm.get_accounts_to_update();
        let mut accounts = AccountMap::new();
        for (i, address) in watched.iter().enumerate() {
            if i != skipped {
                let a = full.get(address).unwrap();
                accounts.insert(*address, account(a.owner.to_bytes(), a.data.clone()));
            }
        }
        let address = watched[skipped];
        let expected = if skipped < 6 {
            AmmError::AccountMissing { address }
        } else {
            AmmError::MintMissing { mint: address }
        };
        assert_eq!(amm.update(&accounts), Err(expected));
        assert!(amm.is_active(), "a failed update changes nothing");
    }
}

#[test]
fn update_refuses_bad_accounts_and_changes_nothing() {
    let fresh = ready(&par_curve());
    let small = |need| DecodeError::AccountTooSmall { got: 3, need };
    let tag = |expected| DecodeError::BadDiscriminator { got: 9, expected };
    let tagged = |n: usize| {
        let mut d = vec![0u8; n];
        d[0] = 9;
        d
    };
    let cases = vec![
        (fresh.strategy_key, vec![3; 3], AmmError::DecodeStrategyOnUpdate(small(256))),
        (fresh.strategy_key, tagged(256), AmmError::DecodeStrategyOnUpdate(tag(3))),
        (fresh.mm_key, vec![4; 3], AmmError::DecodeMarketMakerOnUpdate(small(64))),
        (fresh.mm_key, tagged(64), AmmError::DecodeMarketMakerOnUpdate(tag(4))),
        (fresh.global_config_key, vec![1; 3], AmmError::DecodeGlobalConfigOnUpdate(small(128))),
        (fresh.global_config_key, tagged(128), AmmError::DecodeGlobalConfigOnUpdate(tag(1))),
        (
            fresh.base_mint,
            vec![0; 44],
            AmmError::MintTooShort { mint: key(BASE), len: 44 },
        ),
        (
            fresh.quote_mint,
            vec![0; 7],
            AmmError::MintTooShort { mint: key(QUOTE), len: 7 },
        ),
    ];
    for (address, data, expected) in cases {
        let mut amm = fresh.clone();
        let mut accounts = snapshot(&amm, &[]);
        accounts.insert(address, account(OTHER, data));
        assert_eq!(amm.update(&accounts), Err(expected));
        assert_eq!(amm.strategy_data, fresh.strategy_data);
        assert!(amm.is_active());
        assert_eq!(amm.quote(&sell(1_000_000), &CLOCK), fresh.quote(&sell(1_000_000), &CLOCK));
    }
}

#[test]
fn first_failure_counts() {
    let mut amm = ready(&par_curve());
    let mut accounts = AccountMap::new();
    accounts.insert(amm.strategy_key, account(PROGRAM, vec![0; 256]));
    let e = DecodeError::BadDiscriminator { got: 0, expected: 3 };
    assert_eq!(amm.update(&accounts), Err(AmmError::DecodeStrategyOnUpdate(e)));
    accounts.insert(amm.strategy_key, account(PROGRAM, strategy_bytes(&[])));
    assert_eq!(
        amm.update(&accounts),
        Err(AmmError::AccountMissing { address: amm.mm_key })
    );
}

#[test]
fn second_update_changes_nothing() {
    let once = ready(&par_curve());
    let mut twice = once.clone();
    let accounts = snapshot(&once, &par_curve());
    assert_eq!(twice.update(&accounts), Ok(()));
    assert_eq!(twice.strategy_data, once.strategy_data);
    assert_eq!(twice.mm_data, once.mm_data);
    assert_eq!(twice.get_accounts_to_update(), once.get_accounts_to_update());
    assert_eq!(twice.quote(&buy(2_000), &CLOCK), once.quote(&buy(2_000), &CLOCK));
}

// Quotes.

#[test]
fn quote_charges_the_fee_in_the_input_mint() {
    let amm = ready(&par_curve());
    // 25 basis points of 1_000_000 are 2_500; the curve pays the rest at par.
    assert_eq!(
        amm.quote(&sell(1_000_000), &CLOCK),
        Ok(Quote {
            in_amount: 1_000_000,
            out_amount: 997_500,
            fee_amount: 2_500,
            fee_mint: key(BASE),
        })
    );
    assert_eq!(
        amm.quote(&buy(1_000_399), &CLOCK),
        Ok(Quote {
            in_amount: 1_000_399,
            out_amount: 997_899,
            fee_amount: 2_500,
            fee_mint: key(QUOTE),
        })
    );
}

#[test]
fn quote_is_that_of_the_sdk() {
    let curve = quay_sdk::dsl::BytecodeBuilder::new()
        .load_size()
        .load_now_slot()
        .add()
        .load_now_unix_sec()
        .add()
        .load_base_decimals()
        .add()
        .load_quote_decimals()
        .mul()
        .load_const(3_000)
        .div()
        .halt()
        .build();
    let amm = ready(&curve);
    let mut scratch = vec![0u8; 16_384];
    let expected = quay_sdk::simulate::simulate_swap_in(
        quay_sdk::simulate::SwapSimulationInputs {
            strategy_data: &strategy_bytes(&curve),
            market_maker_data: &market_maker_bytes(),
            quotes_data: &quotes_bytes(),
            global_config_data: &config_bytes(),
            current_slot: 77,
            current_unix_sec: 1_700_000_000,
            side: 1,
            amount_in: 4_000,
            min_amount_out: 0,
            base_decimals: 9,
            quote_decimals: 6,
            tx: quay_sdk::TxContext {
                ix_depth: 2,
                tx_flags: 0,
                entrypoint_program: JUPITER_ROUTER_ID,
                signers: &[],
            },
        },
        &mut scratch,
    )
    .unwrap();
    // (3_990 + 77 + 1_700_000_000 + 9) * 6 / 3_000
    assert_eq!(expected.out_to_taker, 3_400_008);
    let quote = amm.quote(&buy(4_000), &CLOCK).unwrap();
    assert_eq!(quote.out_amount, expected.out_to_taker);
    assert_eq!(quote.fee_amount, expected.protocol_cut);
}

#[test]
fn quote_runs_under_the_router() {
    let curve = quay_sdk::dsl::BytecodeBuilder::new()
        .entrypoint_is(&JUPITER_ROUTER_ID)
        .load_const(100)
        .mul()
        .load_ix_depth()
        .add()
        .load_tx_flags()
        .add()
        .halt()
        .build();
    let amm = ready(&curve);
    assert_eq!(amm.quote(&sell(1_000), &CLOCK).unwrap().out_amount, 102);
}

#[test]
fn quote_follows_the_clock() {
    let curve = quay_sdk::dsl::BytecodeBuilder::new().load_now_slot().halt().build();
    let amm = ready(&curve);
    let later = Clock { slot: 78, unix_timestamp: 1_700_000_000 };
    assert_eq!(amm.quote(&sell(1_000), &CLOCK).unwrap().out_amount, 77);
    assert_eq!(amm.quote(&sell(1_000), &later).unwrap().out_amount, 78);
}

#[test]
fn quote_refuses_exact_out() {
    let amm = ready(&par_curve());
    let mut p = sell(1_000_000);
    p.swap_mode = SwapMode::ExactOut;
    assert_eq!(amm.quote(&p, &CLOCK), Err(AmmError::ExactOutUnsupported));
    p.input_mint = key(OTHER);
    assert_eq!(amm.quote(&p, &CLOCK), Err(AmmError::ExactOutUnsupported));
    assert_eq!(amm.quote_side(&p), Err(AmmError::ExactOutUnsupported));
}

#[test]
fn quote_refuses_other_pairs() {
    let amm = ready(&par_curve());
    let e = || AmmError::QuotePairMismatch { base_mint: key(BASE), quote_mint: key(QUOTE) };
    let mut p = sell(1_000_000);
    p.output_mint = key(OTHER);
    assert_eq!(amm.quote(&p, &CLOCK), Err(e()));
    p.output_mint = key(BASE);
    assert_eq!(amm.quote(&p, &CLOCK), Err(e()));
    assert_eq!(amm.quote_side(&sell(1)), Ok(0));
    assert_eq!(amm.quote_side(&buy(1)), Ok(1));
}

#[test]
fn refused_sizes_are_errors() {
    let amm = ready(&par_curve());
    // Nothing comes out.
    assert_eq!(
        amm.quote(&sell(0), &CLOCK),
        Err(AmmError::SimulateSwap(
            "swap math produced zero output (amount_in 0 too small)".to_string()
        ))
    );
    // More than the market maker holds.
    assert_eq!(
        amm.quote(&buy(6_000_000), &CLOCK),
        Err(AmmError::SimulateSwap(
            "insufficient maker inventory: need 5985000 OUT atoms, have 5000000".to_string()
        ))
    );
    assert!(amm.quote(&sell(6_000_000), &CLOCK).is_ok());
    // The curve refuses.
    let rejecting = ready(&[quay_sdk::Op::Reject as u8, 2]);
    assert_eq!(
        rejecting.quote(&sell(1_000), &CLOCK),
        Err(AmmError::SimulateSwap("VM REJECT: Standard(StaleFeed)".to_string()))
    );
}

#[test]
fn halted_venue_is_not_priced() {
    let fresh = ready(&par_curve());
    let cases = vec![
        (fresh.strategy_key, strategy_bytes(&par_curve()), 4, "strategy is frozen"),
        (fresh.strategy_key, strategy_bytes(&par_curve()), 5, "strategy is frozen"),
        (fresh.mm_key, market_maker_bytes(), 2, "market maker is frozen"),
        (fresh.mm_key, market_maker_bytes(), 3, "market maker is halted by admin"),
        (fresh.mm_key, market_maker_bytes(), 4, "market maker is frozen"),
        (fresh.global_config_key, config_bytes(), 2, "swap halted"),
        (fresh.global_config_key, config_bytes(), 3, "protocol halted"),
    ];
    for (address, mut data, at, message) in cases {
        let mut amm = fresh.clone();
        let mut accounts = snapshot(&amm, &par_curve());
        data[at] = 1;
        accounts.insert(address, account(PROGRAM, data));
        assert_eq!(amm.update(&accounts), Ok(()));
        assert!(!amm.is_active());
        assert_eq!(
            amm.quote(&sell(1_000), &CLOCK),
            Err(AmmError::SimulateSwap(message.to_string()))
        );
    }
}

#[test]
fn unrouted_venue_is_priced_but_not_active() {
    let mut amm = ready(&par_curve());
    let mut accounts = snapshot(&amm, &par_curve());
    let mut strategy = strategy_bytes(&par_curve());
    strategy[160] = 1;
    accounts.insert(amm.strategy_key, account(PROGRAM, strategy));
    assert_eq!(amm.update(&accounts), Ok(()));
    assert!(!amm.is_active());
    assert!(amm.quote(&sell(1_000), &CLOCK).is_ok());
}

#[test]
fn answer_to_a_simulation() {
    let amm = ready(&par_curve());
    let sim = SwapQuote { out_to_taker: 12, protocol_cut: 3 };
    let answer = |fee_mint| Quote { in_amount: 40, out_amount: 12, fee_amount: 3, fee_mint };
    assert_eq!(amm.quote_from_simulation(0, 40, Ok(sim)), Ok(answer(key(BASE))));
    assert_eq!(amm.quote_from_simulation(1, 40, Ok(sim)), Ok(answer(key(QUOTE))));
    assert_eq!(
        amm.quote_from_simulation(0, 40, Err("no".to_string())),
        Err(AmmError::SimulateSwap("no".to_string()))
    );
}

#[test]
fn large_userspace_is_priced() {
    let mut data = strategy_bytes(&par_curve());
    data[148..152].copy_from_slice(&16_384u32.to_le_bytes());
    data.resize(256 + 2 + 16_384, 0);
    let mut amm = open(data.clone());
    let mut accounts = snapshot(&amm, &par_curve());
    accounts.insert(amm.strategy_key, account(PROGRAM, data.clone()));
    assert_eq!(amm.update(&accounts), Ok(()));
    assert_eq!(amm.quote(&sell(1_000_000), &CLOCK).unwrap().out_amount, 997_500);
    data[148..152].copy_from_slice(&16_385u32.to_le_bytes());
    data.push(0);
    accounts.insert(amm.strategy_key, account(PROGRAM, data));
    assert_eq!(amm.update(&accounts), Ok(()));
    assert_eq!(
        amm.quote(&sell(1_000_000), &CLOCK),
        Err(AmmError::SimulateSwap(
            "invalid input: scratch buffer smaller than strategy userspace".to_string()
        ))
    );
}

#[test]
fn clone_answers_alike() {
    let amm = ready(&par_curve());
    let copy = amm.clone();
    assert_eq!(copy.get_accounts_to_update(), amm.get_accounts_to_update());
    assert_eq!(copy.is_active(), amm.is_active());
    assert_eq!(copy.quote(&sell(123_456), &CLOCK), amm.quote(&sell(123_456), &CLOCK));
    assert_eq!(
        copy.get_swap_and_account_metas(&swap_buying()),
        amm.get_swap_and_account_metas(&swap_buying())
    );
}

// Swaps.

fn sdk_metas(amm: &QuayAmm, side: u8) -> Vec<AccountMeta> {
    quay_sdk::ix::swap(
        &sol(PROGRAM),
        &sol(STRATEGY),
        &sol(amm.mm_key.to_bytes()),
        &sol(QUOTES),
        &sol(BASE),
        &sol(QUOTE),
        &sol(TAKER),
        &sol(TAKER_BASE),
        &sol(TAKER_QUOTE),
        &sol(amm.base_token_program.to_bytes()),
        &sol(amm.quote_token_program.to_bytes()),
        0,
        0,
        side,
    )
    .accounts
    .iter()
    .map(|m| AccountMeta {
        pubkey: key(m.pubkey.to_bytes()),
        is_signer: m.is_signer,
        is_writable: m.is_writable,
    })
    .collect()
}

#[test]
fn swap_lists_the_accounts_in_order() {
    let amm = ready(&par_curve());
    let sysvar =
        SolanaPubkey::from_str("Sysvar1nstructions1111111111111111111111111").unwrap().to_bytes();
    let out = amm.try_get_swap_and_account_metas(&swap_selling()).unwrap().unwrap();
    assert_eq!(out.swap, Swap::TokenSwap);
    let expected = vec![
        (amm.global_config_key, false, false),
        (key(STRATEGY), false, true),
        (amm.mm_key, false, true),
        (key(QUOTES), false, false),
        (amm.vault_base_key, false, true),
        (amm.vault_quote_key, false, true),
        (key(TAKER_BASE), false, true),
        (key(TAKER_QUOTE), false, true),
        (key(TAKER), true, true),
        (key(BASE), false, false),
        (key(QUOTE), false, false),
        (key(sysvar), false, false),
        (key(SPL_TOKEN_PROGRAM_ID), false, false),
    ];
    let listed: Vec<(Pubkey, bool, bool)> = out
        .account_metas
        .iter()
        .map(|m| (m.pubkey, m.is_signer, m.is_writable))
        .collect();
    assert_eq!(listed, expected);
}

#[test]
fn swap_turns_with_the_direction() {
    let amm = ready(&par_curve());
    let sell = amm.get_swap_and_account_metas(&swap_selling()).unwrap().account_metas;
    let buy = amm.get_swap_and_account_metas(&swap_buying()).unwrap().account_metas;
    assert_eq!(sell, sdk_metas(&amm, 0));
    assert_eq!(buy, sdk_metas(&amm, 1));
    assert_eq!(buy[4].pubkey, amm.vault_quote_key);
    assert_eq!(buy[5].pubkey, amm.vault_base_key);
    assert_eq!(buy[6].pubkey, key(TAKER_QUOTE));
    assert_eq!(buy[7].pubkey, key(TAKER_BASE));
    assert_eq!(buy[9].pubkey, key(QUOTE));
    assert_eq!(buy[10].pubkey, key(BASE));
}

#[test]
fn accounts_len_counts_the_accounts() {
    let mut amm = ready(&par_curve());
    let same = amm.get_swap_and_account_metas(&swap_buying()).unwrap().account_metas;
    assert_eq!(same.len(), amm.get_accounts_len());
    let mut accounts = snapshot(&amm, &par_curve());
    let token_2022 = quay_sdk::pda::TOKEN_2022_PROGRAM_ID.to_bytes();
    accounts.insert(amm.quote_mint, account(token_2022, mint_bytes(6)));
    assert_eq!(amm.update(&accounts), Ok(()));
    let mixed = amm.get_swap_and_account_metas(&swap_buying()).unwrap().account_metas;
    assert_eq!(mixed.len(), 14);
    assert_eq!(mixed.len(), amm.get_accounts_len());
    assert_eq!(mixed[12].pubkey, key(SPL_TOKEN_PROGRAM_ID));
    assert_eq!(mixed[13].pubkey, key(token_2022));
    assert_eq!(mixed, sdk_metas(&amm, 1));
}

#[test]
fn swap_takes_every_account_of_the_update() {
    let amm = ready(&par_curve());
    for params in [swap_selling(), swap_buying()] {
        let metas = amm.get_swap_and_account_metas(&params).unwrap().account_metas;
        for address in amm.get_accounts_to_update() {
            assert!(metas.iter().any(|m| m.pubkey == address));
        }
    }
}

#[test]
fn swap_refuses_other_pairs() {
    let amm = ready(&par_curve());
    let mut p = swap_selling();
    p.destination_mint = key(OTHER);
    assert_eq!(amm.get_swap_and_account_metas(&p), Err(AmmError::SwapPairMismatch));
    p.destination_mint = key(BASE);
    assert_eq!(
        amm.try_get_swap_and_account_metas(&p),
        Some(Err(AmmError::SwapPairMismatch))
    );
}
