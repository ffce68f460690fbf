//! Running balances over a sequence of periods, and their moving average.

use crate::division::{lemma_parts_are_unique, shifted};
use crate::labels::label_seq;
use vstd::prelude::*;

verus! {

/// What came in and went out during one period (a day or a month), in minor
/// units. Only `balance`, the period's net flow, feeds the running balance.
#[derive(Debug, Clone, PartialEq, Eq, Default)]
pub struct BalanceByTime {
    pub date: String,
    pub incoming: i64,
    pub outgoing: i64,
    pub balance: i64,
}

/// The periods of a ledger, in calendar order.
pub type BalancesByDay = [BalanceByTime];

/// The running balance at the end of each period.
#[derive(Debug, PartialEq, Eq)]
pub struct BalanceOverTime {
    pub dates: Vec<String>,
    pub balances: Vec<i128>,
}

/// The period labels of `flows`, in order.
pub open spec fn period_labels(flows: Seq<BalanceByTime>) -> Seq<Seq<char>> {
    Seq::new(flows.len(), |i: int| flows[i].date@)
}

/// The sum of the net flows of the first `n` periods.
pub open spec fn net_sum(flows: Seq<BalanceByTime>, n: int) -> int
    decreases n,
{
    if n <= 0 {
        0
    } else {
        net_sum(flows, n - 1) + flows[n - 1].balance
    }
}

/// The running balance of `flows`: entry `i` is the sum of the net flows of
/// periods `0` through `i`.
pub open spec fn running_balances(flows: Seq<BalanceByTime>) -> Seq<int> {
    Seq::new(flows.len(), |i: int| net_sum(flows, i + 1))
}

impl BalanceOverTime {
    /// The labels, as mathematical sequences.
    pub open spec fn labels(&self) -> Seq<Seq<char>> {
        label_seq(self.dates@)
    }

    /// The balances, as mathematical integers.
    pub open spec fn values(&self) -> Seq<int> {
        Seq::new(self.balances@.len(), |i: int| self.balances@[i] as int)
    }
}

/// A net flow is at most 2^63 in magnitude, so the first `n` of them sum to at
/// most `n * 2^63`.
pub proof fn lemma_net_sum_bounds(flows: Seq<BalanceByTime>, n: int)
    requires
        0 <= n <= flows.len(),
    ensures
        -n * 0x8000_0000_0000_0000 <= net_sum(flows, n) <= n * 0x8000_0000_0000_0000,
    decreases n,
{
    if n > 0 {
        lemma_net_sum_bounds(flows, n - 1);
        assert((n - 1) * 0x8000_0000_0000_0000 + 0x8000_0000_0000_0000 == n
            * 0x8000_0000_0000_0000) by (nonlinear_arith);
    }
}

/// The sum of the `window` entries of `values` that start at index `start`.
pub open spec fn window_total(values: Seq<int>, start: int, window: int) -> int
    decreases window,
{
    if window <= 0 {
        0
    } else {
        window_total(values, start, window - 1) + values[start + window - 1]
    }
}

/// The sum of every run of `window` consecutive entries of `values`, each
/// computed on its own: entry `k` sums the entries `k` to `k + window - 1`.
pub open spec fn rolling_sums(values: Seq<int>, window: int) -> Seq<int> {
    Seq::new((values.len() - window + 1) as nat, |k: int| window_total(values, k, window))
}

/// The moving average of a running balance, kept exact: the average that is
/// labelled `dates[k]` is `averages[k] + remainders[k] / window`, in minor
/// units, with `remainders[k]` below `window`.
#[derive(Debug, PartialEq, Eq)]
pub struct RollingAverage {
    pub dates: Vec<String>,
    pub averages: Vec<i128>,
    pub remainders: Vec<usize>,
    pub window: usize,
}

impl RollingAverage {
    /// A moving average is well formed when its window holds at least one
    /// period, every average has its label and its remainder, and every
    /// remainder is less than the window.
    pub open spec fn wf(&self) -> bool {
        &&& self.window >= 1
        &&& self.dates@.len() == self.averages@.len()
        &&& self.remainders@.len() == self.averages@.len()
        &&& forall|k: int|
            0 <= k < self.remainders@.len() ==> #[trigger] self.remainders@[k] < self.window
    }

    /// The labels, as mathematical sequences.
    pub open spec fn labels(&self) -> Seq<Seq<char>> {
        label_seq(self.dates@)
    }

    /// The sum of each window: the average times the window's length, plus
    /// the remainder.
    pub open spec fn sums(&self) -> Seq<int> {
        Seq::new(
            self.averages@.len(),
            |k: int| self.averages@[k] * self.window + self.remainders@[k],
        )
    }
}

/// `result` is the running balance of `flows`: the same labels in the same
/// order, and under each the sum of the net flows up to and with that period.
pub open spec fn is_cumulative_of(flows: Seq<BalanceByTime>, result: BalanceOverTime) -> bool {
    &&& result.labels() == period_labels(flows)
    &&& result.values() == running_balances(flows)
}

/// `result` is the moving average over `window` periods of the running
/// balance of `flows`: absent when there are fewer than `window` periods,
/// else one point for each full window, labelled by the window's last period.
pub open spec fn is_rolling_average_of(
    flows: Seq<BalanceByTime>,
    window: usize,
    result: Option<RollingAverage>,
) -> bool {
    if flows.len() < window {
        result is None
    } else {
        &&& result is Some
        &&& result->Some_0.wf()
        &&& result->Some_0.window == window
        &&& result->Some_0.labels() == period_labels(flows).skip(window - 1)
        &&& result->Some_0.sums() == rolling_sums(running_balances(flows), window as int)
    }
}

/// Entries of magnitude at most `bound` sum, over a window, to at most
/// `window * bound`.
pub proof fn lemma_window_total_bounds(values: Seq<int>, start: int, window: int, bound: int)
    requires
        0 <= start,
        0 <= window,
        start + window <= values.len(),
        forall|j: int| 0 <= j < values.len() ==> -bound <= #[trigger] values[j] <= bound,
    ensures
        -(window * bound) <= window_total(values, start, window) <= window * bound,
    decreases window,
{
    if window > 0 {
        lemma_window_total_bounds(values, start, window - 1, bound);
        assert((window - 1) * bound + bound == window * bound) by (nonlinear_arith);
    } else {
        assert(window * bound == 0) by (nonlinear_arith)
            requires
                window == 0,
        ;
    }
}

/// A window's sum is its first entry plus the sum of the rest.
pub proof fn lemma_window_total_first(values: Seq<int>, start: int, window: int)
    requires
        window > 0,
    ensures
        window_total(values, start, window) == values[start] + window_total(
            values,
            start + 1,
            window - 1,
        ),
    decreases window,
{
    if window > 1 {
        lemma_window_total_first(values, start, window - 1);
    } else {
        assert(window_total(values, start, 0) == 0);
        assert(window_total(values, start + 1, 0) == 0);
    }
}

/// Sliding a window by one position takes the entry that leaves out of its
/// sum and the entry that comes in into it: the sum that is updated step by
/// step is the sum that is computed afresh.
pub proof fn lemma_window_slides(values: Seq<int>, start: int, window: int)
    requires
        window > 0,
    ensures
        window_total(values, start + 1, window) == window_total(values, start, window)
            - values[start] + values[start + window],
{
    lemma_window_total_first(values, start, window);
}

/// Every running balance of `flows` is at most `flows.len() * 2^63` in
/// magnitude.
pub proof fn lemma_running_balances_bounds(flows: Seq<BalanceByTime>)
    ensures
        forall|j: int|
            0 <= j < flows.len() ==> -flows.len() * 0x8000_0000_0000_0000
                <= #[trigger] running_balances(flows)[j] <= flows.len() * 0x8000_0000_0000_0000,
{
    assert forall|j: int| 0 <= j < flows.len() implies -flows.len() * 0x8000_0000_0000_0000
        <= #[trigger] running_balances(flows)[j] <= flows.len() * 0x8000_0000_0000_0000 by {
        lemma_net_sum_bounds(flows, j + 1);
        assert((j + 1) * 0x8000_0000_0000_0000 <= flows.len() * 0x8000_0000_0000_0000)
            by (nonlinear_arith)
            requires
                j + 1 <= flows.len(),
        ;
    }
}

/// The running balance of no periods is empty.
pub proof fn lemma_cumulative_of_empty(result: BalanceOverTime)
    requires
        is_cumulative_of(Seq::empty(), result),
    ensures
        result.dates@.len() == 0,
        result.balances@.len() == 0,
{
    assert(result.labels().len() == 0);
    assert(result.values().len() == 0);
}

/// The running balance is a function of the periods alone: two results for
/// the same periods hold the same labels and the same balances.
pub proof fn lemma_cumulative_is_deterministic(
    flows: Seq<BalanceByTime>,
    first: BalanceOverTime,
    second: BalanceOverTime,
)
    requires
        is_cumulative_of(flows, first),
        is_cumulative_of(flows, second),
    ensures
        first.labels() == second.labels(),
        first.balances@ == second.balances@,
{
    assert(first.balances@ =~= second.balances@) by {
        assert(first.values().len() == second.values().len());
        assert forall|i: int| 0 <= i < first.balances@.len() implies first.balances@[i]
            == second.balances@[i] by {
            assert(first.values()[i] == second.values()[i]);
        }
    }
}

/// The moving average is a function of the periods and the window alone: two
/// results for the same arguments are both absent, or hold the same labels,
/// averages, remainders and window.
pub proof fn lemma_rolling_average_is_deterministic(
    flows: Seq<BalanceByTime>,
    window: usize,
    first: Option<RollingAverage>,
    second: Option<RollingAverage>,
)
    requires
        is_rolling_average_of(flows, window, first),
        is_rolling_average_of(flows, window, second),
    ensures
        first is None <==> second is None,
        first is Some ==> {
            &&& first->Some_0.labels() == second->Some_0.labels()
            &&& first->Some_0.averages@ == second->Some_0.averages@
            &&& first->Some_0.remainders@ == second->Some_0.remainders@
            &&& first->Some_0.window == second->Some_0.window
        },
{
    if first is Some {
        let a = first->Some_0;
        let b = second->Some_0;
        assert(a.sums().len() == b.sums().len());
        assert forall|i: int| 0 <= i < a.averages@.len() implies a.averages@[i] == b.averages@[i]
            && a.remainders@[i] == b.remainders@[i] by {
            assert(a.sums()[i] == b.sums()[i]);
            lemma_parts_are_unique(
                a.averages@[i] as int,
                a.remainders@[i] as int,
                b.averages@[i] as int,
                b.remainders@[i] as int,
                window as int,
            );
        }
        assert(a.averages@ =~= b.averages@);
        assert(a.remainders@ =~= b.remainders@);
    }
}

/// With exactly as many periods as the window is long, the moving average has
/// one point: the mean of all the running balances.
pub proof fn lemma_rolling_average_of_one_window(
    flows: Seq<BalanceByTime>,
    window: usize,
    result: Option<RollingAverage>,
)
    requires
        window >= 1,
        flows.len() == window,
        is_rolling_average_of(flows, window, result),
    ensures
        result is Some,
        result->Some_0.averages@.len() == 1,
        result->Some_0.remainders@.len() == 1,
        result->Some_0.dates@.len() == 1,
        result->Some_0.window == flows.len(),
        result->Some_0.averages@[0] * flows.len() + result->Some_0.remainders@[0] == window_total(
            running_balances(flows),
            0,
            flows.len() as int,
        ),
        result->Some_0.remainders@[0] < flows.len(),
{
    let r = result->Some_0;
    assert(r.sums().len() == 1);
    assert(r.sums()[0] == r.averages@[0] * r.window + r.remainders@[0]);
}

/// The series operations on a sequence of periods, which the caller supplies
/// in calendar order.
pub trait BalancesByDayExt {
    /// The periods, as a mathematical sequence.
    spec fn periods(&self) -> Seq<BalanceByTime>;

    /// The four columns of the periods: labels, incoming, outgoing, net.
    fn vectors(&self) -> (result: (Vec<String>, Vec<i64>, Vec<i64>, Vec<i64>))
        ensures
            label_seq(result.0@) == period_labels(self.periods()),
            result.1@ == Seq::new(self.periods().len(), |i: int| self.periods()[i].incoming),
            result.2@ == Seq::new(self.periods().len(), |i: int| self.periods()[i].outgoing),
            result.3@ == Seq::new(self.periods().len(), |i: int| self.periods()[i].balance),
    ;

    /// The running balance at the end of each period: a prefix sum from the
    /// first period on, under the periods' own labels. No periods give an
    /// empty result.
    fn cumsum(&self) -> (result: BalanceOverTime)
        ensures
            is_cumulative_of(self.periods(), result),
            self.periods().len() == 0 ==> result.dates@.len() == 0 && result.balances@.len()
                == 0,
            forall|i: int|
                0 <= i < self.periods().len() ==> #[trigger] result.balances@[i] == net_sum(
                    self.periods(),
                    i + 1,
                ),
    ;

    /// The moving average over `window` periods of the running balance, or
    /// `None` where there are fewer than `window` periods. The first window
    /// is averaged in full; every later average comes from the one before
    /// it, less a `window`-th of the balance that leaves and plus a
    /// `window`-th of the balance that enters.
    fn rolling_average_cumsum(&self, window: usize) -> (result: Option<RollingAverage>)
        requires
            window >= 1,
        ensures
            is_rolling_average_of(self.periods(), window, result),
    ;
}

impl BalancesByDayExt for BalancesByDay {
    open spec fn periods(&self) -> Seq<BalanceByTime> {
        self@
    }

    fn vectors(&self) -> (result: (Vec<String>, Vec<i64>, Vec<i64>, Vec<i64>)) {
        let len = self.len();
        let mut dates: Vec<String> = Vec::with_capacity(len);
        let mut incoming: Vec<i64> = Vec::with_capacity(len);
        let mut outgoing: Vec<i64> = Vec::with_capacity(len);
        let mut balance: Vec<i64> = Vec::with_capacity(len);
        let mut i: usize = 0;
        while i < len
            invariant
                len == self@.len(),
                0 <= i <= len,
                dates@.len() == i,
                incoming@.len() == i,
                outgoing@.len() == i,
                balance@.len() == i,
                forall|j: int| 0 <= j < i ==> (#[trigger] dates@[j])@ == self@[j].date@,
                forall|j: int| 0 <= j < i ==> #[trigger] incoming@[j] == self@[j].incoming,
                forall|j: int| 0 <= j < i ==> #[trigger] outgoing@[j] == self@[j].outgoing,
                forall|j: int| 0 <= j < i ==> #[trigger] balance@[j] == self@[j].balance,
            decreases len - i,
        {
            dates.push(self[i].date.clone());
            incoming.push(self[i].incoming);
            outgoing.push(self[i].outgoing);
            balance.push(self[i].balance);
            i = i + 1;
        }
        proof {
            assert(label_seq(dates@) =~= period_labels(self@));
            assert(incoming@ =~= Seq::new(self@.len(), |i: int| self@[i].incoming));
            assert(outgoing@ =~= Seq::new(self@.len(), |i: int| self@[i].outgoing));
            assert(balance@ =~= Seq::new(self@.len(), |i: int| self@[i].balance));
        }
        (dates, incoming, outgoing, balance)
    }

    fn cumsum(&self) -> (result: BalanceOverTime) {
        let len = self.len();
        let mut dates: Vec<String> = Vec::with_capacity(len);
        let mut balances: Vec<i128> = Vec::with_capacity(len);
        let mut total: i128 = 0;
        let mut i: usize = 0;
        while i < len
            invariant
                len == self@.len(),
                0 <= i <= len,
                dates@.len() == i,
                balances@.len() == i,
                total == net_sum(self@, i as int),
                forall|j: int| 0 <= j < i ==> (#[trigger] dates@[j])@ == self@[j].date@,
                forall|j: int| 0 <= j < i ==> #[trigger] balances@[j] == net_sum(self@, j + 1),
            decreases len - i,
        {
            proof {
                lemma_net_sum_bounds(self@, i as int);
                assert(i * 0x8000_0000_0000_0000 <= 0xFFFF_FFFF_FFFF_FFFF
                    * 0x8000_0000_0000_0000) by (nonlinear_arith)
                    requires
                        0 <= i <= 0xFFFF_FFFF_FFFF_FFFF,
                ;
            }
            dates.push(self[i].date.clone());
            total = total + self[i].balance as i128;
            balances.push(total);
            i = i + 1;
        }
        let result = BalanceOverTime { dates, balances };
        proof {
            assert(result.labels() =~= period_labels(self@));
            assert(result.values() =~= running_balances(self@));
        }
        result
    }

    fn rolling_average_cumsum(&self, window: usize) -> (result: Option<RollingAverage>) {
        let cumulative = self.cumsum();
        proof {
            assert(cumulative.labels().len() == self@.len());
            assert(cumulative.values().len() == self@.len());
        }
        let BalanceOverTime { dates: full_dates, balances: cum_bal } = cumulative;
        let length = self.len();
        let window_index = window - 1;

        if length <= window_index {
            return None;
        }
        let ghost values = running_balances(self@);
        let ghost bound = length * 0x8000_0000_0000_0000;
        proof {
            lemma_running_balances_bounds(self@);
            assert(0 <= bound <= i128::MAX) by (nonlinear_arith)
                requires
                    0 <= length <= 0xFFFF_FFFF_FFFF_FFFF,
                    bound == length * 0x8000_0000_0000_0000,
                    i128::MAX == 0x7FFF_FFFF_FFFF_FFFF_FFFF_FFFF_FFFF_FFFF,
            ;
            assert forall|j: int| 0 <= j < length implies cum_bal@[j] == #[trigger] values[j] by {
                assert(cum_bal@[j] == net_sum(self@, j + 1));
            }
        }

        let mut dates: Vec<String> = Vec::with_capacity(length - window_index);
        let mut d: usize = window_index;
        while d < length
            invariant
                window_index <= d <= length,
                length == full_dates@.len(),
                dates@.len() == d - window_index,
                forall|j: int|
                    0 <= j < d - window_index ==> (#[trigger] dates@[j])@ == full_dates@[j
                        + window_index]@,
            decreases length - d,
        {
            dates.push(full_dates[d].clone());
            d = d + 1;
        }

        let mut average: i128 = 0;
        let mut remainder: usize = 0;
        let mut x: usize = 0;
        while x <= window_index
            invariant
                0 <= x <= window,
                window == window_index + 1,
                window <= length,
                length == cum_bal@.len(),
                length == values.len(),
                remainder < window,
                average * window + remainder == window_total(values, 0, x as int),
                forall|j: int| 0 <= j < length ==> cum_bal@[j] == #[trigger] values[j],
                forall|j: int| 0 <= j < length ==> -bound <= #[trigger] values[j] <= bound,
                0 <= bound <= i128::MAX,
            decreases window - x,
        {
            proof {
                lemma_window_total_bounds(values, 0, x + 1, bound);
                assert((x + 1) * bound <= window * bound) by (nonlinear_arith)
                    requires
                        x + 1 <= window,
                        bound >= 0,
                ;
            }
            let parts = shifted(average, remainder, cum_bal[x], window, Ghost(bound));
            average = parts.0;
            remainder = parts.1;
            x = x + 1;
        }

        let mut averages: Vec<i128> = Vec::with_capacity(length);
        let mut remainders: Vec<usize> = Vec::with_capacity(length);
        averages.push(average);
        remainders.push(remainder);

        if length == window {
            let result = Some(RollingAverage { dates, averages, remainders, window });
            proof {
                let r = result->Some_0;
                assert(r.labels() =~= period_labels(self@).skip(window - 1));
                assert(r.sums() =~= rolling_sums(values, window as int));
            }
            return result;
        }
        let mut head_balance_index: usize = 0;
        let mut tail_balance_index: usize = window;

        while tail_balance_index != length
            invariant
                window >= 1,
                window <= tail_balance_index <= length,
                tail_balance_index == head_balance_index + window,
                length == cum_bal@.len(),
                length == values.len(),
                averages@.len() == head_balance_index + 1,
                remainders@.len() == head_balance_index + 1,
                forall|k: int|
                    0 <= k <= head_balance_index ==> #[trigger] remainders@[k] < window,
                forall|k: int|
                    0 <= k <= head_balance_index ==> (#[trigger] averages@[k]) * window
                        + remainders@[k] == window_total(values, k, window as int),
                forall|j: int| 0 <= j < length ==> cum_bal@[j] == #[trigger] values[j],
                forall|j: int| 0 <= j < length ==> -bound <= #[trigger] values[j] <= bound,
                0 <= bound <= i128::MAX,
            decreases length - tail_balance_index,
        {
            proof {
                let head = head_balance_index as int;
                assert(remainders@[head] < window);
                assert(averages@[head] * window + remainders@[head] == window_total(
                    values,
                    head,
                    window as int,
                ));
                assert(-bound <= values[head] <= bound);
                lemma_window_total_first(values, head, window as int);
                lemma_window_slides(values, head, window as int);
                lemma_window_total_bounds(values, head + 1, window - 1, bound);
                lemma_window_total_bounds(values, head + 1, window as int, bound);
                assert((window - 1) * bound <= window * bound) by (nonlinear_arith)
                    requires
                        bound >= 0,
                ;
            }
            let prev_rolling_average = averages[head_balance_index];
            let prev_remainder = remainders[head_balance_index];
            let without_head = shifted(
                prev_rolling_average,
                prev_remainder,
                -cum_bal[head_balance_index],
                window,
                Ghost(bound),
            );
            let current = shifted(
                without_head.0,
                without_head.1,
                cum_bal[tail_balance_index],
                window,
                Ghost(bound),
            );
            averages.push(current.0);
            remainders.push(current.1);

            head_balance_index = head_balance_index + 1;
            tail_balance_index = tail_balance_index + 1;
        }

        let result = Some(RollingAverage { dates, averages, remainders, window });
        proof {
            let r = result->Some_0;
            assert(r.labels() =~= period_labels(self@).skip(window - 1));
            assert(r.sums() =~= rolling_sums(values, window as int));
        }
        result
    }
}

} // verus!
