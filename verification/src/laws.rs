//! What holds of an adapter as a whole.
//!
//! Each law is stated over the spec functions that the contracts of the adapter's
//! methods use, so it holds of the methods themselves.
use crate::accounts::{AccountView, KeyedAccount};
use crate::amm;
use crate::amm::{AmmView, QuayAmm};
use crate::error::AmmError;
use crate::params;
use crate::params::{Clock, Quote, QuoteParams, SwapAndAccountMetas, SwapMode, SwapParams};
use crate::pubkey;
use crate::pubkey::Pubkey;
use crate::sdk::consts::{FEE_BPS_DENOM, ROUTE_JUPITER, SIDE_BUY_BASE, SIDE_SELL_BASE};
use crate::sdk::headers;
use crate::sdk::ix;
use crate::sdk::pda;
use crate::sdk::simulate;
use crate::swap::SWAP_ACCOUNTS_LEN_SAME_PROGRAM;
use vstd::prelude::*;

verus! {

impl AmmView {
    /// Two adapters are about the same keys and mints.
    pub open spec fn same_keys(self, other: AmmView) -> bool {
        &&& self.program_id == other.program_id
        &&& self.strategy_key == other.strategy_key
        &&& self.mm_key == other.mm_key
        &&& self.quotes_key == other.quotes_key
        &&& self.global_config_key == other.global_config_key
        &&& self.base_mint == other.base_mint
        &&& self.quote_mint == other.quote_mint
        &&& self.vault_base_key == other.vault_base_key
        &&& self.vault_quote_key == other.vault_quote_key
    }

    /// The global config and vault keys are those that the program derives.
    pub open spec fn keys_derived(self) -> bool {
        &&& pda::swap_addresses_exist(self.program_id, self.mm_key, self.base_mint, self.quote_mint)
        &&& self.global_config_key == pda::global_config_address(self.program_id)->Some_0.0
        &&& self.vault_base_key == pda::vault_address(self.program_id, self.mm_key, self.base_mint)->Some_0.0
        &&& self.vault_quote_key == pda::vault_address(self.program_id, self.mm_key, self.quote_mint)->Some_0.0
    }

    /// Routing flags and halt bytes are those in the cached account bytes.
    pub open spec fn in_sync(self) -> bool {
        let strategy = headers::strategy_at(self.strategy_data);
        let mm = headers::market_maker_at(self.mm_data);
        let cfg = headers::global_config_at(self.global_config_data);
        &&& self.routing_flags == strategy.routing_flags
        &&& self.strategy_frozen == strategy.frozen
        &&& self.strategy_frozen_admin == strategy.frozen_admin
        &&& self.mm_frozen == mm.frozen
        &&& self.mm_frozen_admin == mm.frozen_admin
        &&& self.mm_halted_admin == mm.halted_admin
        &&& self.cfg_swap_halted == cfg.swap_halted
        &&& self.cfg_protocol_halted == cfg.protocol_halted
    }
}

/// Addresses with the same view are equal.
proof fn lemma_same_view(a: Pubkey, b: Pubkey)
    requires
        a@ == b@,
    ensures
        a == b,
{
    assert forall|j: int| 0 <= j < 32 implies a.bytes[j] == b.bytes[j] by {
        assert(a@[j] == b@[j]);
    }
    pubkey::lemma_same_bytes(a, b);
}

/// Adapters with the same keys have equal keys.
proof fn lemma_same_keys(a: QuayAmm, b: QuayAmm)
    requires
        a@.same_keys(b@),
    ensures
        a.program_id == b.program_id,
        a.strategy_key == b.strategy_key,
        a.mm_key == b.mm_key,
        a.quotes_key == b.quotes_key,
        a.global_config_key == b.global_config_key,
        a.base_mint == b.base_mint,
        a.quote_mint == b.quote_mint,
        a.vault_base_key == b.vault_base_key,
        a.vault_quote_key == b.vault_quote_key,
{
    lemma_same_view(a.program_id, b.program_id);
    lemma_same_view(a.strategy_key, b.strategy_key);
    lemma_same_view(a.mm_key, b.mm_key);
    lemma_same_view(a.quotes_key, b.quotes_key);
    lemma_same_view(a.global_config_key, b.global_config_key);
    lemma_same_view(a.base_mint, b.base_mint);
    lemma_same_view(a.quote_mint, b.quote_mint);
    lemma_same_view(a.vault_base_key, b.vault_base_key);
    lemma_same_view(a.vault_quote_key, b.vault_quote_key);
}

// ---------------------------------------------------------------------------
// Activity
// ---------------------------------------------------------------------------

/// Opening sets every halt and freeze byte, whatever the strategy account holds, so an
/// adapter is inactive until its first successful update. (An update that fails changes
/// nothing.)
pub proof fn law_inactive_until_first_update(keyed: KeyedAccount)
    ensures
        !amm::opened(keyed).active(),
        amm::opened(keyed).strategy_frozen == 1,
        amm::opened(keyed).strategy_frozen_admin == 1,
        amm::opened(keyed).mm_frozen == 1,
        amm::opened(keyed).mm_frozen_admin == 1,
        amm::opened(keyed).mm_halted_admin == 1,
        amm::opened(keyed).cfg_swap_halted == 1,
        amm::opened(keyed).cfg_protocol_halted == 1,
{
}

/// Any one halt or freeze byte takes the venue off, and so does a strategy that does
/// not carry the Jupiter bit, whatever other routers it admits.
pub proof fn law_any_halt_disables(v: AmmView)
    ensures
        v.cfg_swap_halted != 0 ==> !v.active(),
        v.cfg_protocol_halted != 0 ==> !v.active(),
        v.strategy_frozen != 0 ==> !v.active(),
        v.strategy_frozen_admin != 0 ==> !v.active(),
        v.mm_frozen != 0 ==> !v.active(),
        v.mm_frozen_admin != 0 ==> !v.active(),
        v.mm_halted_admin != 0 ==> !v.active(),
        v.routing_flags & ROUTE_JUPITER == 0 ==> !v.active(),
{
}

// ---------------------------------------------------------------------------
// Updates
// ---------------------------------------------------------------------------

/// An update never changes which strategy, keys and mints an adapter is about.
pub proof fn law_update_keeps_keys(v: AmmView, snapshot: Map<Seq<u8>, AccountView>)
    ensures
        v.refreshed(snapshot).same_keys(v),
{
}

/// The accounts to refresh from, and the mints, are the same before and after an
/// update.
pub proof fn law_watched_accounts_are_constant(
    before: QuayAmm,
    after: QuayAmm,
    snapshot: Map<Seq<u8>, AccountView>,
)
    requires
        after@ == before@.refreshed(snapshot),
    ensures
        after.watched() == before.watched(),
        after.base_mint == before.base_mint,
        after.quote_mint == before.quote_mint,
{
    lemma_same_keys(after, before);
}

/// An update forgets what was cached: adapters with the same keys agree on whether a
/// snapshot can be used, and are equal after it was.
pub proof fn law_update_forgets(a: QuayAmm, b: QuayAmm, snapshot: Map<Seq<u8>, AccountView>)
    requires
        a@.same_keys(b@),
    ensures
        a.update_failure(snapshot) == b.update_failure(snapshot),
        a@.refreshed(snapshot) == b@.refreshed(snapshot),
{
    lemma_same_keys(a, b);
}

/// A second update from the same snapshot succeeds as the first did and changes
/// nothing more.
pub proof fn law_update_is_idempotent(before: QuayAmm, after: QuayAmm, snapshot: Map<Seq<u8>, AccountView>)
    requires
        before.update_failure(snapshot) is None,
        after@ == before@.refreshed(snapshot),
    ensures
        after.update_failure(snapshot) is None,
        after@.refreshed(snapshot) == after@,
{
    law_update_forgets(after, before, snapshot);
}

/// An update needs every account of [`QuayAmm::get_accounts_to_update`].
pub proof fn law_update_needs_every_watched_account(amm: QuayAmm, snapshot: Map<Seq<u8>, AccountView>)
    requires
        amm.update_failure(snapshot) is None,
    ensures
        forall|i: int| 0 <= i < amm.watched().len() ==> snapshot.contains_key((#[trigger] amm.watched()[i])@),
{
}

/// An update reads no account but those of [`QuayAmm::get_accounts_to_update`]:
/// snapshots that agree on these have the same effect.
pub proof fn law_update_reads_only_watched_accounts(
    amm: QuayAmm,
    s: Map<Seq<u8>, AccountView>,
    t: Map<Seq<u8>, AccountView>,
)
    requires
        forall|i: int|
            0 <= i < amm.watched().len() ==> {
                let k = (#[trigger] amm.watched()[i])@;
                &&& s.contains_key(k) == t.contains_key(k)
                &&& s.contains_key(k) ==> s[k] == t[k]
            },
    ensures
        amm.update_failure(s) == amm.update_failure(t),
        amm.update_failure(s) is None ==> amm@.refreshed(s) == amm@.refreshed(t),
{
    let w = amm.watched();
    assert(w[0] == amm.strategy_key && w[1] == amm.mm_key && w[2] == amm.quotes_key && w[3] == amm.global_config_key);
    assert(w[4] == amm.vault_base_key && w[5] == amm.vault_quote_key && w[6] == amm.base_mint && w[7]
        == amm.quote_mint);
}

/// After an update the routing flags and halt bytes are those of the cached accounts.
pub proof fn law_update_syncs(v: AmmView, snapshot: Map<Seq<u8>, AccountView>)
    ensures
        v.refreshed(snapshot).in_sync(),
{
}

/// After an update, the halt bytes are clear exactly where the cached accounts pass the
/// gates that the program checks before a swap.
pub proof fn law_halt_bytes_mirror_the_gates(before: QuayAmm, after: QuayAmm, snapshot: Map<Seq<u8>, AccountView>)
    requires
        before.update_failure(snapshot) is None,
        after@ == before@.refreshed(snapshot),
    ensures
        after@.unhalted() <==> simulate::gates_open(
            after.strategy_data@,
            after.mm_data@,
            after.global_config_data@,
        ),
{
}

// ---------------------------------------------------------------------------
// Quotes
// ---------------------------------------------------------------------------

/// A price is asked for the given input, charges its fee in the input mint and never
/// more than the input, and is never zero.
pub proof fn law_fee_is_skimmed_from_the_input(
    amm: QuayAmm,
    params: QuoteParams,
    clock: Clock,
    r: Result<Quote, AmmError>,
)
    requires
        amm.quotes_to(params, clock, r),
        r is Ok,
    ensures
        r->Ok_0.in_amount == params.amount,
        r->Ok_0.fee_mint@ == params.input_mint@,
        r->Ok_0.fee_amount <= params.amount,
        r->Ok_0.fee_amount == simulate::protocol_fee(amm.strategy_data@, params.amount),
        r->Ok_0.out_amount > 0,
{
    let amount = params.amount as int;
    let bps = simulate::protocol_fee_bps(amm.strategy_data@) as int;
    assert((amount * bps) / (FEE_BPS_DENOM as int) <= amount) by (nonlinear_arith)
        requires
            0 <= amount,
            0 <= bps <= FEE_BPS_DENOM as int,
            FEE_BPS_DENOM == 10000,
    ;
}

/// An exact-out request is refused, whatever else it asks for.
pub proof fn law_exact_out_is_refused(amm: QuayAmm, params: QuoteParams, clock: Clock, r: Result<Quote, AmmError>)
    requires
        amm.quotes_to(params, clock, r),
        params.swap_mode == SwapMode::ExactOut,
    ensures
        r == Err::<Quote, AmmError>(AmmError::ExactOutUnsupported),
{
}

/// The halt bytes mirror the gates of the program: after an update, a venue that is
/// halted or frozen in any way is not priced.
pub proof fn law_halted_venue_is_not_priced(
    amm: QuayAmm,
    params: QuoteParams,
    clock: Clock,
    r: Result<Quote, AmmError>,
)
    requires
        amm@.in_sync(),
        amm.quotes_to(params, clock, r),
        !amm@.unhalted(),
    ensures
        r is Err,
{
}

/// Both directions of the pair can be traded, and they are opposite sides.
pub proof fn law_both_directions_trade(base_mint: Seq<u8>, quote_mint: Seq<u8>)
    ensures
        params::side_of(base_mint, quote_mint, base_mint, quote_mint) == Some(SIDE_SELL_BASE),
        params::side_of(base_mint, quote_mint, quote_mint, base_mint) is Some,
        base_mint != quote_mint ==> params::side_of(base_mint, quote_mint, quote_mint, base_mint) == Some(
            SIDE_BUY_BASE,
        ),
{
}

/// A trade can be priced exactly where its swap can be built, and on the same side.
pub proof fn law_priced_pairs_are_swapped_pairs(amm: QuayAmm, quote: QuoteParams, swap: SwapParams)
    requires
        quote.swap_mode == SwapMode::ExactIn,
        quote.input_mint@ == swap.source_mint@,
        quote.output_mint@ == swap.destination_mint@,
    ensures
        match amm.swap_side(swap) {
            Some(side) => amm.requested_side(quote) == Ok::<u8, AmmError>(side),
            None => amm.requested_side(quote) is Err,
        },
{
}

// ---------------------------------------------------------------------------
// Swaps
// ---------------------------------------------------------------------------

/// The accounts of a swap are, one by one, those that the program takes.
proof fn lemma_listed(amm: QuayAmm, params: SwapParams, r: Result<SwapAndAccountMetas, AmmError>)
    requires
        amm.swaps_to(params, r),
        r is Ok,
    ensures
        ({
            let metas = r->Ok_0.account_metas@;
            let side = amm.swap_side(params)->Some_0;
            let listed = ix::swap_metas(amm.swap_addresses(params, side), side);
            &&& amm.swap_side(params) is Some
            &&& metas.len() == listed.len()
            &&& forall|i: int| 0 <= i < metas.len() ==> (#[trigger] metas[i])@ == listed[i]
        }),
{
    let metas = r->Ok_0.account_metas@;
    assert(ix::metas_view(metas).len() == metas.len());
    assert forall|i: int| 0 <= i < metas.len() implies (#[trigger] metas[i])@ == ix::metas_view(metas)[i] by {
    }
}

/// [`QuayAmm::get_accounts_len`] is the number of accounts that
/// [`QuayAmm::get_swap_and_account_metas`] lists, in every state of the adapter.
pub proof fn law_accounts_len_counts_the_accounts(
    amm: QuayAmm,
    params: SwapParams,
    r: Result<SwapAndAccountMetas, AmmError>,
)
    requires
        amm.swaps_to(params, r),
        r is Ok,
    ensures
        r->Ok_0.account_metas@.len() == amm.accounts_len(),
{
    lemma_listed(amm, params, r);
}

/// Until the first update a swap counts as one with a single token program.
pub proof fn law_warmup_counts_one_token_program(keyed: KeyedAccount, amm: QuayAmm)
    requires
        amm@ == amm::opened(keyed),
    ensures
        amm.accounts_len() == SWAP_ACCOUNTS_LEN_SAME_PROGRAM,
{
}

/// Whichever way a swap goes, it lists what the taker pays before what the taker
/// receives: token accounts, then mints. Only the taker signs. The token programs come
/// last, the second only where it differs from the first.
pub proof fn law_swap_lists_input_before_output(
    amm: QuayAmm,
    params: SwapParams,
    r: Result<SwapAndAccountMetas, AmmError>,
)
    requires
        amm.swaps_to(params, r),
        r is Ok,
    ensures
        ({
            let metas = r->Ok_0.account_metas@;
            &&& metas.len() >= SWAP_ACCOUNTS_LEN_SAME_PROGRAM
            &&& metas[6].pubkey@ == params.source_token_account@
            &&& metas[7].pubkey@ == params.destination_token_account@
            &&& metas[8].pubkey@ == params.token_transfer_authority@
            &&& metas[9].pubkey@ == params.source_mint@
            &&& metas[10].pubkey@ == params.destination_mint@
            &&& metas[12].pubkey@ == amm.base_token_program@
            &&& metas.len() > SWAP_ACCOUNTS_LEN_SAME_PROGRAM ==> metas[13].pubkey@ == amm.quote_token_program@
            &&& forall|i: int| 0 <= i < metas.len() ==> ((#[trigger] metas[i]).is_signer <==> i == 8)
        }),
{
    lemma_listed(amm, params, r);
}

/// Opening an adapter derives its keys as the program does.
pub proof fn law_opening_derives_keys(keyed: KeyedAccount)
    requires
        amm::opened_keys_exist(keyed),
    ensures
        amm::opened(keyed).keys_derived(),
{
}

/// Updates keep the keys those that the program derives.
pub proof fn law_update_keeps_keys_derived(v: AmmView, snapshot: Map<Seq<u8>, AccountView>)
    requires
        v.keys_derived(),
    ensures
        v.refreshed(snapshot).keys_derived(),
{
}

/// Where the keys are those that the program derives, the accounts of every swap on the
/// pair can be listed.
pub proof fn law_derived_keys_list_every_swap(amm: QuayAmm)
    requires
        amm@.keys_derived(),
    ensures
        amm.swap_keys_exist(),
{
}

/// Where the keys are those that the program derives, a swap takes every account of
/// [`QuayAmm::get_accounts_to_update`], each vault on the side of its mint.
pub proof fn law_swap_takes_the_watched_accounts(
    amm: QuayAmm,
    params: SwapParams,
    r: Result<SwapAndAccountMetas, AmmError>,
)
    requires
        amm@.keys_derived(),
        amm.swaps_to(params, r),
        r is Ok,
    ensures
        ({
            let metas = r->Ok_0.account_metas@;
            let side = amm.swap_side(params)->Some_0;
            let (vault_in, vault_out) = ix::in_out(side, amm.vault_base_key, amm.vault_quote_key);
            &&& metas.len() >= SWAP_ACCOUNTS_LEN_SAME_PROGRAM
            &&& metas[0].pubkey == amm.global_config_key
            &&& metas[1].pubkey == amm.strategy_key
            &&& metas[2].pubkey == amm.mm_key
            &&& metas[3].pubkey == amm.quotes_key
            &&& metas[4].pubkey == vault_in
            &&& metas[5].pubkey == vault_out
            &&& forall|i: int|
                0 <= i < amm.watched().len() ==> exists|j: int|
                    0 <= j < metas.len() && (#[trigger] metas[j]).pubkey == #[trigger] amm.watched()[i]
        }),
{
    let metas = r->Ok_0.account_metas@;
    let side = amm.swap_side(params)->Some_0;
    let (vault_in, vault_out) = ix::in_out(side, amm.vault_base_key, amm.vault_quote_key);
    let (mint_in, mint_out) = ix::in_out(side, amm.base_mint, amm.quote_mint);
    lemma_listed(amm, params, r);
    lemma_same_view(metas[0].pubkey, amm.global_config_key);
    lemma_same_view(metas[1].pubkey, amm.strategy_key);
    lemma_same_view(metas[2].pubkey, amm.mm_key);
    lemma_same_view(metas[3].pubkey, amm.quotes_key);
    lemma_same_view(metas[4].pubkey, vault_in);
    lemma_same_view(metas[5].pubkey, vault_out);
    lemma_same_view(metas[9].pubkey, mint_in);
    lemma_same_view(metas[10].pubkey, mint_out);
    assert forall|i: int| 0 <= i < amm.watched().len() implies exists|j: int|
        0 <= j < metas.len() && (#[trigger] metas[j]).pubkey == #[trigger] amm.watched()[i] by {
        let sell = side == SIDE_SELL_BASE;
        let j: int = if i < 3 {
            i + 1
        } else if i == 3 {
            0
        } else if i == 4 {
            if sell { 4 } else { 5 }
        } else if i == 5 {
            if sell { 5 } else { 4 }
        } else if i == 6 {
            if sell { 9 } else { 10 }
        } else {
            if sell { 10 } else { 9 }
        };
        assert(metas[j].pubkey == amm.watched()[i]);
    }
}

// ---------------------------------------------------------------------------
// Copies
// ---------------------------------------------------------------------------

/// An adapter is all in its view: adapters with the same view, such as an adapter and
/// its clone, take the same updates and give the same answers.
pub proof fn law_clone_answers_alike(a: QuayAmm, b: QuayAmm)
    requires
        a@ == b@,
    ensures
        a.watched() == b.watched(),
        a.accounts_len() == b.accounts_len(),
        forall|snapshot: Map<Seq<u8>, AccountView>| #[trigger]
            a.update_failure(snapshot) == b.update_failure(snapshot),
        forall|params: QuoteParams, clock: Clock, r: Result<Quote, AmmError>| #[trigger]
            a.quotes_to(params, clock, r) == b.quotes_to(params, clock, r),
        forall|params: SwapParams, r: Result<SwapAndAccountMetas, AmmError>| #[trigger]
            a.swaps_to(params, r) == b.swaps_to(params, r),
{
    lemma_same_keys(a, b);
    lemma_same_view(a.base_token_program, b.base_token_program);
    lemma_same_view(a.quote_token_program, b.quote_token_program);
    assert forall|snapshot: Map<Seq<u8>, AccountView>| #[trigger]
        a.update_failure(snapshot) == b.update_failure(snapshot) by {
        law_update_forgets(a, b, snapshot);
    }
}

} // verus!
