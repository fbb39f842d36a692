//! The accounts of a swap instruction.
use crate::pubkey::Pubkey;
use crate::sdk::consts::SIDE_SELL_BASE;
use crate::sdk::pda;
use vstd::prelude::*;

verus! {

/// One account of an instruction, and how the instruction uses it.
#[derive(Clone, Copy, Debug, PartialEq, Eq)]
pub struct AccountMeta {
    pub pubkey: Pubkey,
    pub is_signer: bool,
    pub is_writable: bool,
}

/// An account of an instruction, by the bytes of its address.
pub struct MetaView {
    pub pubkey: Seq<u8>,
    pub is_signer: bool,
    pub is_writable: bool,
}

impl View for AccountMeta {
    type V = MetaView;

    open spec fn view(&self) -> MetaView {
        MetaView { pubkey: self.pubkey@, is_signer: self.is_signer, is_writable: self.is_writable }
    }
}

/// The accounts of an instruction, by the bytes of their addresses.
pub open spec fn metas_view(metas: Seq<AccountMeta>) -> Seq<MetaView> {
    metas.map_values(|m: AccountMeta| m@)
}

/// The addresses that a swap is built from. The taker's token accounts are named by
/// mint, whichever way the swap goes.
#[derive(Clone, Copy, Debug)]
pub struct SwapAddresses {
    pub program_id: Pubkey,
    pub strategy: Pubkey,
    pub market_maker: Pubkey,
    pub quotes: Pubkey,
    pub base_mint: Pubkey,
    pub quote_mint: Pubkey,
    pub taker: Pubkey,
    pub taker_ata_base: Pubkey,
    pub taker_ata_quote: Pubkey,
    pub base_token_program: Pubkey,
    pub quote_token_program: Pubkey,
}

/// The address of the Instructions sysvar
/// (`Sysvar1nstructions1111111111111111111111111`).
pub open spec fn instructions_sysvar() -> Seq<u8> {
    seq![
        0x06u8, 0xa7, 0xd5, 0x17, 0x18, 0x7b, 0xd1, 0x66, 0x35, 0xda, 0xd4, 0x04, 0x55, 0xfd, 0xc2, 0xc0,
        0xc1, 0x24, 0xc6, 0x8f, 0x21, 0x56, 0x75, 0xa5, 0xdb, 0xba, 0xcb, 0x5f, 0x08, 0x00, 0x00, 0x00,
    ]
}

/// An account that is only read.
pub open spec fn read_only(pubkey: Seq<u8>) -> MetaView {
    MetaView { pubkey, is_signer: false, is_writable: false }
}

/// An account that is written.
pub open spec fn writable(pubkey: Seq<u8>) -> MetaView {
    MetaView { pubkey, is_signer: false, is_writable: true }
}

/// An account that signs and is written.
pub open spec fn signer(pubkey: Seq<u8>) -> MetaView {
    MetaView { pubkey, is_signer: true, is_writable: true }
}

/// `(base, quote)` in the order in which a swap on `side` takes and gives them.
pub open spec fn in_out<A>(side: u8, base: A, quote: A) -> (A, A) {
    if side == SIDE_SELL_BASE {
        (base, quote)
    } else {
        (quote, base)
    }
}

/// The token programs of a pair, each once.
pub open spec fn token_programs(base: Seq<u8>, quote: Seq<u8>) -> Seq<MetaView> {
    if base == quote {
        seq![read_only(base)]
    } else {
        seq![read_only(base), read_only(quote)]
    }
}

/// The accounts of a swap, in the order in which the program takes them.
pub open spec fn swap_metas(a: SwapAddresses, side: u8) -> Seq<MetaView> {
    let config = pda::global_config_address(a.program_id@)->Some_0.0;
    let vault_base = pda::vault_address(a.program_id@, a.market_maker@, a.base_mint@)->Some_0.0;
    let vault_quote = pda::vault_address(a.program_id@, a.market_maker@, a.quote_mint@)->Some_0.0;
    let (vault_in, vault_out) = in_out(side, vault_base, vault_quote);
    let (ata_in, ata_out) = in_out(side, a.taker_ata_base@, a.taker_ata_quote@);
    let (mint_in, mint_out) = in_out(side, a.base_mint@, a.quote_mint@);
    seq![
        read_only(config),
        writable(a.strategy@),
        writable(a.market_maker@),
        read_only(a.quotes@),
        writable(vault_in),
        writable(vault_out),
        writable(ata_in),
        writable(ata_out),
        signer(a.taker@),
        read_only(mint_in),
        read_only(mint_out),
        read_only(instructions_sysvar()),
    ] + token_programs(a.base_token_program@, a.quote_token_program@)
}

/// Calls `quay_sdk::ix::swap` and keeps the accounts of the instruction, which the
/// amounts do not enter. They are believed to be those of [`swap_metas`]. The call
/// panics on any other side and where an address cannot be derived.
#[verifier::external_body]
pub(crate) fn swap(a: &SwapAddresses, amount_in: u64, min_amount_out: u64, side: u8) -> (r: Vec<AccountMeta>)
    requires
        side <= 1,
        pda::swap_addresses_exist(a.program_id@, a.market_maker@, a.base_mint@, a.quote_mint@),
    ensures
        metas_view(r@) == swap_metas(*a, side),
{
    let ix = quay_sdk::ix::swap(
        &a.program_id.bytes.into(), &a.strategy.bytes.into(), &a.market_maker.bytes.into(), &a.quotes.bytes.into(),
        &a.base_mint.bytes.into(), &a.quote_mint.bytes.into(), &a.taker.bytes.into(),
        &a.taker_ata_base.bytes.into(), &a.taker_ata_quote.bytes.into(),
        &a.base_token_program.bytes.into(), &a.quote_token_program.bytes.into(),
        amount_in, min_amount_out, side,
    );
    ix.accounts.iter().map(|m| AccountMeta {
        pubkey: Pubkey { bytes: m.pubkey.to_bytes() }, is_signer: m.is_signer, is_writable: m.is_writable,
    }).collect()
}

} // verus!
