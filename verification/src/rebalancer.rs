//! Multi-asset rebalancing: estimates the fees and slippage of a list of
//! trades and, unless it is a dry run, executes them with a strategy.
use vstd::prelude::*;

verus! {

/// One trade of `amount` units across an asset pair (assets by id).
#[derive(Clone, Copy, Debug, PartialEq, Eq)]
pub struct Trade {
    pub asset_pair: (u64, u64),
    pub amount: u128,
}

/// How trades are to be executed.
#[derive(Clone, Copy, Debug, PartialEq, Eq, Structural)]
pub enum ExecutionStrategy {
    MinimalCost,
    MinimalTime,
    Balanced,
}

/// Estimated cost of a rebalance.
#[derive(Clone, Copy, Debug, PartialEq, Eq, Structural)]
pub struct SimulationResult {
    pub expected_fees: u128,
    pub expected_slippage: u128,
}

/// The fee of one trade: 0.1 % of its amount, rounded down.
pub open spec fn trade_fee(t: Trade) -> int {
    t.amount as int / 1000
}

/// The summed fees of `trades`.
pub open spec fn total_fees(trades: Seq<Trade>) -> int
    decreases trades.len(),
{
    if trades.len() == 0 {
        0
    } else {
        total_fees(trades.drop_last()) + trade_fee(trades.last())
    }
}

proof fn lemma_total_fees_prefix_mono(trades: Seq<Trade>, i: int)
    requires
        0 <= i <= trades.len(),
    ensures
        0 <= total_fees(trades.subrange(0, i)) <= total_fees(trades),
    decreases trades.len() - i,
{
    if i == trades.len() {
        assert(trades.subrange(0, i) =~= trades);
        lemma_total_fees_nonneg(trades);
    } else {
        lemma_total_fees_prefix_mono(trades, i + 1);
        assert(trades.subrange(0, i + 1).drop_last() =~= trades.subrange(0, i));
        lemma_total_fees_nonneg(trades.subrange(0, i));
    }
}

proof fn lemma_total_fees_nonneg(trades: Seq<Trade>)
    ensures
        total_fees(trades) >= 0,
    decreases trades.len(),
{
    if trades.len() > 0 {
        lemma_total_fees_nonneg(trades.drop_last());
    }
}

/// Each trade is charged exactly a tenth of a percent of its amount,
/// rounded down: no trades cost nothing, one trade of amount `a` costs
/// `a / 1000`, adding a trade adds its `amount / 1000`, and the fees of two
/// lists of trades together are the sum of their fees.
pub proof fn lemma_fee_is_a_tenth_of_a_percent_per_trade(trades: Seq<Trade>, more: Seq<Trade>, t: Trade)
    ensures
        total_fees(Seq::<Trade>::empty()) == 0,
        total_fees(seq![t]) == t.amount as int / 1000,
        total_fees(trades.push(t)) == total_fees(trades) + t.amount as int / 1000,
        total_fees(trades + more) == total_fees(trades) + total_fees(more),
    decreases more.len(),
{
    assert(seq![t].drop_last() =~= Seq::<Trade>::empty());
    assert(trades.push(t).drop_last() =~= trades);
    if more.len() == 0 {
        assert(trades + more =~= trades);
    } else {
        lemma_fee_is_a_tenth_of_a_percent_per_trade(trades, more.drop_last(), t);
        assert((trades + more).drop_last() =~= trades + more.drop_last());
        assert((trades + more).last() == more.last());
    }
}

/// The summed fees of `trades` (0.1 % of each amount, rounded down).
pub fn calculate_total_fees(trades: &Vec<Trade>) -> (r: u128)
    requires
        total_fees(trades@) <= u128::MAX,
    ensures
        r == total_fees(trades@),
{
    let mut total: u128 = 0;
    let mut i: usize = 0;
    while i < trades.len()
        invariant
            i <= trades.len(),
            total == total_fees(trades@.subrange(0, i as int)),
            total_fees(trades@) <= u128::MAX,
        decreases trades.len() - i,
    {
        proof {
            lemma_total_fees_prefix_mono(trades@, i + 1);
            assert(trades@.subrange(0, i + 1).drop_last() =~= trades@.subrange(0, i as int));
        }
        total = total + trades[i].amount / 1000;
        i = i + 1;
    }
    proof {
        assert(trades@.subrange(0, trades@.len() as int) =~= trades@);
    }
    total
}

/// The predicted slippage of one trade: one unit, whatever the pair and
/// amount.
pub fn predict_slippage(asset_pair: (u64, u64), amount: u128) -> (r: u128)
    ensures
        r == 1,
{
    1
}

/// One executed trade as the rebalancer logs it, with the price it got and
/// the fee it paid.
#[derive(Clone, Copy, Debug, PartialEq, Eq)]
pub struct TradeLog {
    pub trade: Trade,
    pub actual_price: u128,
    pub fee: u128,
}

/// The log entry of each of `trades`, in order; execution reports no price
/// and no fee yet.
pub open spec fn trade_logs(trades: Seq<Trade>) -> Seq<TradeLog> {
    trades.map_values(|t: Trade| TradeLog { trade: t, actual_price: 0, fee: 0 })
}

/// Executes `trades` with `strategy`: every trade is accepted and logged.
/// Returns whether execution succeeded and the trade log entries to
/// publish.
pub fn execute_strategy(strategy: &ExecutionStrategy, trades: &Vec<Trade>) -> (r: (bool, Vec<TradeLog>))
    ensures
        r.0,
        r.1@ == trade_logs(trades@),
{
    let mut logs: Vec<TradeLog> = Vec::new();
    let mut i: usize = 0;
    while i < trades.len()
        invariant
            i <= trades.len(),
            logs@ == trade_logs(trades@.take(i as int)),
        decreases trades.len() - i,
    {
        logs.push(TradeLog { trade: trades[i], actual_price: 0, fee: 0 });
        proof {
            assert(trades@.take(i + 1) =~= trades@.take(i as int).push(trades@[i as int]));
            assert(logs@ =~= trade_logs(trades@.take(i + 1)));
        }
        i = i + 1;
    }
    assert(trades@.take(trades@.len() as int) =~= trades@);
    (true, logs)
}

/// The rebalancer.
pub struct MultiAssetRebalancer;

impl MultiAssetRebalancer {
    /// Estimates `trades`: the summed fees and one unit of slippage per
    /// trade; executes them with `strategy` unless `dry_run`. Returns the
    /// estimate and the trade log entries to publish: one per trade when
    /// they were executed, none on a dry run.
    pub fn rebalance(trades: &Vec<Trade>, strategy: ExecutionStrategy, dry_run: bool) -> (r: (
        SimulationResult,
        Vec<TradeLog>,
    ))
        requires
            total_fees(trades@) <= u128::MAX,
        ensures
            r.0.expected_fees == total_fees(trades@),
            r.0.expected_slippage == trades@.len(),
            dry_run ==> r.1@ == Seq::<TradeLog>::empty(),
            !dry_run ==> r.1@ == trade_logs(trades@),
    {
        let total_fees = calculate_total_fees(trades);
        let mut slippage: u128 = 0;
        let mut i: usize = 0;
        while i < trades.len()
            invariant
                i <= trades.len(),
                slippage == i,
            decreases trades.len() - i,
        {
            slippage = slippage + predict_slippage(trades[i].asset_pair, trades[i].amount);
            i = i + 1;
        }
        let logs = if !dry_run {
            let (_, logs) = execute_strategy(&strategy, trades);
            logs
        } else {
            Vec::new()
        };
        (SimulationResult { expected_fees: total_fees, expected_slippage: slippage }, logs)
    }
}

} // verus!
