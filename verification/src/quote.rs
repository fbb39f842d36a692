//! Pricing a trade.
use crate::amm::QuayAmm;
use crate::error::AmmError;
use crate::params;
use crate::params::{trade_side, Clock, Quote, QuoteParams, SwapMode};
use crate::pubkey::JUPITER_ROUTER_ID;
use crate::sdk::consts::{MAX_USERSPACE_LEN, SIDE_SELL_BASE};
use crate::sdk::ix;
use crate::sdk::simulate;
use crate::sdk::simulate::{simulate_swap_in, SwapQuote, SwapSimulationInputs, TxContext};
use vstd::prelude::*;

verus! {

impl QuayAmm {
    /// What the simulator returns for a trade of `amount` on `side` against the cached
    /// accounts: any output is acceptable, and the trade is reached through the Jupiter
    /// router, one call deep, with no flags and no signers known.
    pub open spec fn simulated(self, side: u8, amount: u64, clock: Clock) -> Result<(u64, u64), Seq<char>> {
        simulate::simulated_swap(
            self.strategy_data@,
            self.mm_data@,
            self.quotes_data@,
            self.global_config_data@,
            clock.slot,
            clock.unix_timestamp,
            side,
            amount,
            0,
            self.base_decimals,
            self.quote_decimals,
            2,
            0,
            JUPITER_ROUTER_ID@,
            Seq::empty(),
            MAX_USERSPACE_LEN as nat,
        )
    }

    /// A trade of `amount` on `side` that was simulated to `simulation` is answered with
    /// `r`: a price with the fee in the input mint, or the message of the simulator.
    pub open spec fn answers(
        self,
        side: u8,
        amount: u64,
        simulation: Result<(u64, u64), Seq<char>>,
        r: Result<Quote, AmmError>,
    ) -> bool {
        match simulation {
            Ok((out, cut)) => r == Ok::<Quote, AmmError>(
                Quote {
                    in_amount: amount,
                    out_amount: out,
                    fee_amount: cut,
                    fee_mint: ix::in_out(side, self.base_mint, self.quote_mint).0,
                },
            ),
            Err(message) => r matches Err(AmmError::SimulateSwap(text)) && text@ == message,
        }
    }

    /// The answer to a trade of `amount` on `side` that was simulated to `simulation`.
    ///
    /// The protocol fee is skimmed from the input, so it is in the input mint.
    pub fn quote_from_simulation(
        &self,
        side: u8,
        amount: u64,
        simulation: Result<SwapQuote, String>,
    ) -> (r: Result<Quote, AmmError>)
        ensures
            self.answers(side, amount, simulate::outcome(simulation), r),
    {
        match simulation {
            Ok(sim) => {
                let fee_mint = if side == SIDE_SELL_BASE {
                    self.base_mint
                } else {
                    self.quote_mint
                };
                Ok(Quote { in_amount: amount, out_amount: sim.out_to_taker, fee_amount: sim.protocol_cut, fee_mint })
            },
            Err(message) => Err(AmmError::SimulateSwap(message)),
        }
    }

    /// The side of the trade that a request asks for, or why there is none.
    pub open spec fn requested_side(self, params: QuoteParams) -> Result<u8, AmmError> {
        if params.swap_mode == SwapMode::ExactOut {
            Err(AmmError::ExactOutUnsupported)
        } else {
            match params::side_of(self.base_mint@, self.quote_mint@, params.input_mint@, params.output_mint@) {
                Some(side) => Ok(side),
                None => Err(
                    AmmError::QuotePairMismatch { base_mint: self.base_mint, quote_mint: self.quote_mint },
                ),
            }
        }
    }

    /// The side of the trade that a request asks for. The swap is exact-in only, and
    /// trades no other mints than the two of the strategy.
    pub fn quote_side(&self, quote_params: &QuoteParams) -> (r: Result<u8, AmmError>)
        ensures
            r == self.requested_side(*quote_params),
    {
        if quote_params.swap_mode == SwapMode::ExactOut {
            return Err(AmmError::ExactOutUnsupported);
        }
        match trade_side(
            &self.base_mint,
            &self.quote_mint,
            &quote_params.input_mint,
            &quote_params.output_mint,
        ) {
            Some(side) => Ok(side),
            None => Err(AmmError::QuotePairMismatch { base_mint: self.base_mint, quote_mint: self.quote_mint }),
        }
    }

    /// A request for a price comes to `r`: the answer to the simulated trade, or why
    /// there is no such trade. A price is only given where nothing is halted or frozen,
    /// and for an output that is not zero and that the market maker holds; the fee is
    /// the strategy's rate of the input.
    pub open spec fn quotes_to(self, params: QuoteParams, clock: Clock, r: Result<Quote, AmmError>) -> bool {
        match self.requested_side(params) {
            Err(e) => r == Err::<Quote, AmmError>(e),
            Ok(side) => {
                &&& self.answers(side, params.amount, self.simulated(side, params.amount, clock), r)
                &&& r matches Ok(q) ==> {
                    &&& simulate::gates_open(self.strategy_data@, self.mm_data@, self.global_config_data@)
                    &&& 0 < q.out_amount
                    &&& q.out_amount <= simulate::inventory_out(self.strategy_data@, self.mm_data@, side)
                    &&& q.fee_amount == simulate::protocol_fee(self.strategy_data@, params.amount)
                }
            },
        }
    }

    /// Prices a trade at the given time, against the accounts of the last update.
    ///
    /// A trade that the curve refuses is an error, never a price of zero.
    pub fn quote(&self, quote_params: &QuoteParams, clock: &Clock) -> (r: Result<Quote, AmmError>)
        ensures
            self.quotes_to(*quote_params, *clock, r),
            quote_params.swap_mode == SwapMode::ExactOut ==> r == Err::<Quote, AmmError>(
                AmmError::ExactOutUnsupported,
            ),
            ({
                let sells = quote_params.input_mint@ == self.base_mint@ && quote_params.output_mint@
                    == self.quote_mint@;
                let buys = quote_params.input_mint@ == self.quote_mint@ && quote_params.output_mint@
                    == self.base_mint@;
                quote_params.swap_mode == SwapMode::ExactIn ==> if sells || buys {
                    match simulate::simulated_swap(
                        self.strategy_data@,
                        self.mm_data@,
                        self.quotes_data@,
                        self.global_config_data@,
                        clock.slot,
                        clock.unix_timestamp,
                        if sells {
                            0u8
                        } else {
                            1u8
                        },
                        quote_params.amount,
                        0,
                        self.base_decimals,
                        self.quote_decimals,
                        2,
                        0,
                        JUPITER_ROUTER_ID@,
                        Seq::empty(),
                        16384,
                    ) {
                        Ok((out, cut)) => {
                            &&& r matches Ok(q)
                            &&& q.in_amount == quote_params.amount
                            &&& q.out_amount == out
                            &&& q.fee_amount == cut
                            &&& q.fee_mint@ == quote_params.input_mint@
                        },
                        Err(message) => r matches Err(AmmError::SimulateSwap(text)) && text@ == message,
                    }
                } else {
                    r == Err::<Quote, AmmError>(
                        AmmError::QuotePairMismatch { base_mint: self.base_mint, quote_mint: self.quote_mint },
                    )
                }
            }),
    {
        let side = match self.quote_side(quote_params) {
            Ok(side) => side,
            Err(e) => {
                return Err(e);
            },
        };
        let tx = TxContext {
            ix_depth: 2,
            tx_flags: 0,
            entrypoint_program: JUPITER_ROUTER_ID,
            signers: Vec::new(),
        };
        proof {
            assert(simulate::signer_bytes(tx.signers@) =~= Seq::<Seq<u8>>::empty());
        }
        let inputs = SwapSimulationInputs {
            strategy_data: &self.strategy_data,
            market_maker_data: &self.mm_data,
            quotes_data: &self.quotes_data,
            global_config_data: &self.global_config_data,
            current_slot: clock.slot,
            current_unix_sec: clock.unix_timestamp,
            side,
            amount_in: quote_params.amount,
            min_amount_out: 0,
            base_decimals: self.base_decimals,
            quote_decimals: self.quote_decimals,
            tx,
        };
        let mut scratch: [u8; MAX_USERSPACE_LEN] = [0u8; MAX_USERSPACE_LEN];
        let simulation = simulate_swap_in(&inputs, &mut scratch);
        self.quote_from_simulation(side, quote_params.amount, simulation)
    }
}

} // verus!
