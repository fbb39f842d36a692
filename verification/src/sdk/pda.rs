//! Program-derived addresses.
//!
//! An address is searched for from seeds and the program that owns it. The search
//! can fail, though that is too improbable to have been seen. The derivations below
//! panic where it does, so each of them demands that an address exists, and
//! [`try_find_program_address`] finds out.
use crate::pubkey::Pubkey;
use vstd::prelude::*;

verus! {

/// Name for what `solana_program::pubkey::Pubkey::try_find_program_address` returns:
/// the first viable address and its bump, or `None` where no bump is viable.
pub uninterp spec fn program_address(seeds: Seq<Seq<u8>>, program_id: Seq<u8>) -> Option<(Seq<u8>, u8)>;

/// The seed `"global"`.
pub open spec fn seed_global() -> Seq<u8> {
    seq![0x67u8, 0x6c, 0x6f, 0x62, 0x61, 0x6c]
}

/// The seed `"mm"`.
pub open spec fn seed_mm() -> Seq<u8> {
    seq![0x6du8, 0x6d]
}

/// The seed `"vault"`.
pub open spec fn seed_vault() -> Seq<u8> {
    seq![0x76u8, 0x61, 0x75, 0x6c, 0x74]
}

/// Address and bump of the global config of a deployment.
pub open spec fn global_config_address(program_id: Seq<u8>) -> Option<(Seq<u8>, u8)> {
    program_address(seq![seed_global()], program_id)
}

/// Address and bump of the market maker of `owner`.
pub open spec fn market_maker_address(program_id: Seq<u8>, owner: Seq<u8>) -> Option<(Seq<u8>, u8)> {
    program_address(seq![seed_mm(), owner], program_id)
}

/// Address and bump of the vault in which `market_maker` holds `mint`.
pub open spec fn vault_address(program_id: Seq<u8>, market_maker: Seq<u8>, mint: Seq<u8>) -> Option<(Seq<u8>, u8)> {
    program_address(seq![seed_vault(), market_maker, mint], program_id)
}

/// A found address and its bump, as plain values.
pub open spec fn found(r: Option<(Pubkey, u8)>) -> Option<(Seq<u8>, u8)> {
    match r {
        Some((key, bump)) => Some((key@, bump)),
        None => None,
    }
}

/// Seeds, as plain values.
pub open spec fn seed_bytes(seeds: Seq<Vec<u8>>) -> Seq<Seq<u8>> {
    seeds.map_values(|s: Vec<u8>| s@)
}

/// Calls `solana_program::pubkey::Pubkey::try_find_program_address`. Its result is
/// believed to depend on the seeds and the program id alone.
#[verifier::external_body]
pub(crate) fn try_find_program_address(seeds: &Vec<Vec<u8>>, program_id: &Pubkey) -> (r: Option<(Pubkey, u8)>)
    ensures
        found(r) == program_address(seed_bytes(seeds@), program_id@),
{
    let seeds: Vec<&[u8]> = seeds.iter().map(|s| s.as_slice()).collect();
    solana_program::pubkey::Pubkey::try_find_program_address(&seeds, &program_id.bytes.into())
        .map(|(key, bump)| (Pubkey { bytes: key.to_bytes() }, bump))
}

/// Calls `quay_sdk::pda::global_config_pda`. It is believed to search from the seed
/// `"global"`, and to panic where no bump is viable.
#[verifier::external_body]
pub(crate) fn global_config_pda(program_id: &Pubkey) -> (r: (Pubkey, u8))
    requires
        global_config_address(program_id@) is Some,
    ensures
        global_config_address(program_id@) == Some((r.0@, r.1)),
{
    let (key, bump) = quay_sdk::pda::global_config_pda(&program_id.bytes.into());
    (Pubkey { bytes: key.to_bytes() }, bump)
}

/// Calls `quay_sdk::pda::market_maker_pda`. It is believed to search from the seeds
/// `"mm"` and `owner`, and to panic where no bump is viable.
#[verifier::external_body]
pub(crate) fn market_maker_pda(program_id: &Pubkey, owner: &Pubkey) -> (r: (Pubkey, u8))
    requires
        market_maker_address(program_id@, owner@) is Some,
    ensures
        market_maker_address(program_id@, owner@) == Some((r.0@, r.1)),
{
    let (key, bump) = quay_sdk::pda::market_maker_pda(&program_id.bytes.into(), &owner.bytes.into());
    (Pubkey { bytes: key.to_bytes() }, bump)
}

/// Calls `quay_sdk::pda::vault_pda`. It is believed to search from the seeds
/// `"vault"`, `market_maker` and `mint`, and to panic where no bump is viable.
#[verifier::external_body]
pub(crate) fn vault_pda(program_id: &Pubkey, market_maker: &Pubkey, mint: &Pubkey) -> (r: (Pubkey, u8))
    requires
        vault_address(program_id@, market_maker@, mint@) is Some,
    ensures
        vault_address(program_id@, market_maker@, mint@) == Some((r.0@, r.1)),
{
    let (key, bump) =
        quay_sdk::pda::vault_pda(&program_id.bytes.into(), &market_maker.bytes.into(), &mint.bytes.into());
    (Pubkey { bytes: key.to_bytes() }, bump)
}

/// The global config and both vaults of a pair have addresses, so that the accounts
/// of a swap can be listed.
pub open spec fn swap_addresses_exist(
    program_id: Seq<u8>,
    market_maker: Seq<u8>,
    base_mint: Seq<u8>,
    quote_mint: Seq<u8>,
) -> bool {
    &&& global_config_address(program_id) is Some
    &&& vault_address(program_id, market_maker, base_mint) is Some
    &&& vault_address(program_id, market_maker, quote_mint) is Some
}

/// Finds out whether the vault in which `market_maker` holds `mint` has an address.
fn vault_exists(program_id: &Pubkey, market_maker: &Pubkey, mint: &Pubkey) -> (r: bool)
    ensures
        r == (vault_address(program_id@, market_maker@, mint@) is Some),
{
    let mut seeds: Vec<Vec<u8>> = Vec::new();
    seeds.push(vec![0x76u8, 0x61, 0x75, 0x6c, 0x74]);
    seeds.push(key_bytes(market_maker));
    seeds.push(key_bytes(mint));
    proof {
        assert(seeds@[0]@ =~= seed_vault());
        assert(seed_bytes(seeds@) =~= seq![seed_vault(), market_maker@, mint@]);
    }
    try_find_program_address(&seeds, program_id).is_some()
}

/// Finds out whether the accounts of a swap can be listed.
pub fn check_swap_addresses(
    program_id: &Pubkey,
    market_maker: &Pubkey,
    base_mint: &Pubkey,
    quote_mint: &Pubkey,
) -> (r: bool)
    ensures
        r == swap_addresses_exist(program_id@, market_maker@, base_mint@, quote_mint@),
        r <==> global_config_address(program_id@) is Some && vault_address(program_id@, market_maker@, base_mint@)
            is Some && vault_address(program_id@, market_maker@, quote_mint@) is Some,
{
    let mut seeds: Vec<Vec<u8>> = Vec::new();
    seeds.push(vec![0x67u8, 0x6c, 0x6f, 0x62, 0x61, 0x6c]);
    proof {
        assert(seeds@[0]@ =~= seed_global());
        assert(seed_bytes(seeds@) =~= seq![seed_global()]);
    }
    try_find_program_address(&seeds, program_id).is_some()
        && vault_exists(program_id, market_maker, base_mint)
        && vault_exists(program_id, market_maker, quote_mint)
}

/// Finds the market maker of `owner`, where it has an address.
pub fn find_market_maker(program_id: &Pubkey, owner: &Pubkey) -> (r: Option<(Pubkey, u8)>)
    ensures
        found(r) == market_maker_address(program_id@, owner@),
        match r {
            Some((key, bump)) => market_maker_address(program_id@, owner@) == Some((key@, bump)),
            None => market_maker_address(program_id@, owner@) is None,
        },
{
    let mut seeds: Vec<Vec<u8>> = Vec::new();
    seeds.push(vec![0x6du8, 0x6d]);
    seeds.push(key_bytes(owner));
    proof {
        assert(seeds@[0]@ =~= seed_mm());
        assert(seed_bytes(seeds@) =~= seq![seed_mm(), owner@]);
    }
    try_find_program_address(&seeds, program_id)
}

/// The bytes of an address, as a seed.
fn key_bytes(key: &Pubkey) -> (r: Vec<u8>)
    ensures
        r@ == key@,
{
    let mut bytes: Vec<u8> = Vec::new();
    let mut i: usize = 0;
    while i < 32
        invariant
            i <= 32,
            bytes@ == key@.take(i as int),
        decreases 32 - i,
    {
        bytes.push(key.bytes[i]);
        i += 1;
        assert(bytes@ =~= key@.take(i as int));
    }
    assert(key@.take(32) =~= key@);
    bytes
}

} // verus!
