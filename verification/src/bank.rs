//! The bank: daily balance candles, spending breakdowns and the checks
//! around transfers and fines.
use vstd::prelude::*;

verus! {

/// One bank transaction: the amount moved and when it happened (Unix seconds).
#[derive(Clone, Debug)]
pub struct Transaction {
    pub amount: i32,
    pub created: i64,
}

/// One day of balance history: the day, and the balance when the day opened,
/// its highest and lowest point, and where it closed.
#[derive(Clone, Debug)]
pub struct Candle {
    pub day: String,
    pub open: i32,
    pub high: i32,
    pub low: i32,
    pub close: i32,
}

/// The earliest and latest Unix second a calendar date can be built for.
pub open spec fn valid_timestamp(t: int) -> bool {
    -377705116800 <= t <= 253402300799
}

/// The `[year]-[month]-[day]` label, in UTC, of a Unix timestamp, as the
/// `time` crate formats it (that one format is part of what is named).
pub uninterp spec fn day_label_spec(unix: i64) -> Seq<char>;

/// Calls `time::OffsetDateTime::from_unix_timestamp` and formats the result with
/// the description `[year]-[month]-[day]`. The label is named by
/// `day_label_spec`; the only fact claimed of it is that it is not empty.
/// The library calls it on the first second of a day only (see `day_start`).
#[verifier::external_body]
pub(crate) fn day_label(unix: i64) -> (r: String)
    requires
        valid_timestamp(unix as int),
    ensures
        r@ == day_label_spec(unix),
        r@.len() > 0,
{
    let format = time::format_description::parse("[year]-[month]-[day]").expect("valid format");
    time::OffsetDateTime::from_unix_timestamp(unix).expect("timestamp in range").format(
        &format,
    ).expect("date formats")
}

/// The balance after the first `k` amounts.
pub open spec fn prefix_sum(amounts: Seq<int>, k: int) -> int
    decreases k,
{
    if k <= 0 {
        0
    } else {
        prefix_sum(amounts, k - 1) + amounts[k - 1]
    }
}

/// `m` is the largest running balance among positions `s..=e`.
pub open spec fn is_range_max(amounts: Seq<int>, s: int, e: int, m: int) -> bool {
    &&& forall|k: int| s <= k <= e ==> prefix_sum(amounts, k) <= m
    &&& exists|k: int| s <= k <= e && prefix_sum(amounts, k) == m
}

/// `m` is the smallest running balance among positions `s..=e`.
pub open spec fn is_range_min(amounts: Seq<int>, s: int, e: int, m: int) -> bool {
    &&& forall|k: int| s <= k <= e ==> prefix_sum(amounts, k) >= m
    &&& exists|k: int| s <= k <= e && prefix_sum(amounts, k) == m
}

/// `b` cuts `days` into its maximal runs of one label: it starts at 0, ends
/// at the number of entries, rises strictly, keeps one label inside each
/// run, and changes label at each inner cut.
pub open spec fn is_day_runs(days: Seq<Seq<char>>, b: Seq<int>) -> bool {
    &&& b.len() >= 2
    &&& b[0] == 0
    &&& b.last() == days.len()
    &&& forall|r: int| 0 <= r < b.len() - 1 ==> #[trigger] b[r] < b[r + 1]
    &&& forall|r: int, k: int|
        #![trigger b[r], days[k]]
        0 <= r < b.len() - 1 && b[r] <= k < b[r + 1] ==> days[k] == days[b[r]]
    &&& forall|r: int| 0 < r < b.len() - 1 ==> days[#[trigger] b[r] - 1] != days[b[r]]
}

/// `c` is the candle of the run from `s` to `e` (exclusive).
pub open spec fn is_candle(
    days: Seq<Seq<char>>,
    amounts: Seq<int>,
    s: int,
    e: int,
    c: Candle,
) -> bool {
    &&& c.day@ == days[s]
    &&& c.open == prefix_sum(amounts, s)
    &&& c.close == prefix_sum(amounts, e)
    &&& is_range_max(amounts, s, e, c.high as int)
    &&& is_range_min(amounts, s, e, c.low as int)
}

/// The candles of a history given oldest first as day labels and amounts:
/// one candle per maximal run of equal labels, in order.
pub open spec fn is_candle_chart(
    days: Seq<Seq<char>>,
    amounts: Seq<int>,
    candles: Seq<Candle>,
) -> bool {
    exists|b: Seq<int>|
        is_day_runs(days, b) && b.len() == candles.len() + 1 && forall|r: int|
            0 <= r < candles.len() ==> is_candle(days, amounts, b[r], b[r + 1], #[trigger] candles[r])
}

/// The amounts of a history listed newest first, turned oldest first.
pub open spec fn oldest_first_amounts(history: Seq<Transaction>) -> Seq<int> {
    Seq::new(history.len(), |i: int| history[history.len() - 1 - i].amount as int)
}

/// The seconds of a day.
pub const DAY_SECONDS: i64 = 86400;

/// The first second of the UTC day of the Unix timestamp `t`.
pub open spec fn day_start_spec(t: int) -> int {
    (t / (DAY_SECONDS as int)) * (DAY_SECONDS as int)
}

/// The label of the UTC day a transaction happened on: the label of that
/// day's first second, so that it depends on the day alone.
pub open spec fn transaction_day(t: i64) -> Seq<char> {
    day_label_spec(day_start_spec(t as int) as i64)
}

/// The day labels of a history listed newest first, turned oldest first.
pub open spec fn oldest_first_days(history: Seq<Transaction>) -> Seq<Seq<char>> {
    Seq::new(history.len(), |i: int| transaction_day(history[history.len() - 1 - i].created))
}

/// The first second of the UTC day of `t` (see `day_start_spec`).
pub fn day_start(t: i64) -> (r: i64)
    requires
        valid_timestamp(t as int),
    ensures
        r == day_start_spec(t as int),
        valid_timestamp(r as int),
        r <= t < r + DAY_SECONDS,
{
    let q: i64 = if t >= 0 {
        t / DAY_SECONDS
    } else {
        -((-t + (DAY_SECONDS - 1)) / DAY_SECONDS)
    };
    proof {
        let d = DAY_SECONDS as int;
        if t >= 0 {
            assert(q == (t as int) / d);
        } else {
            let u = -(t as int) + d - 1;
            assert(u >= 0);
            assert(u / d * d <= u < u / d * d + d) by (nonlinear_arith)
                requires
                    u >= 0,
                    d == 86400,
            ;
            assert((t as int) / d == -(u / d)) by (nonlinear_arith)
                requires
                    u == -(t as int) + d - 1,
                    d == 86400,
                    u / d * d <= u < u / d * d + d,
            ;
        }
        assert(q * d <= t < q * d + d) by (nonlinear_arith)
            requires
                q == (t as int) / d,
                d == 86400,
        ;
    }
    q * DAY_SECONDS
}

/// Transactions on the same UTC day carry the same day label, so they fall
/// into one candle when they come one after another.
pub proof fn law_same_day_same_label(a: i64, b: i64)
    requires
        day_start_spec(a as int) == day_start_spec(b as int),
    ensures
        transaction_day(a) == transaction_day(b),
{
}

/// Every running balance of the history (oldest first) fits in an `i32`.
pub open spec fn balances_fit(amounts: Seq<int>) -> bool {
    forall|k: int| 0 <= k <= amounts.len() ==> i32::MIN <= #[trigger] prefix_sum(amounts, k) <= i32::MAX
}

proof fn lemma_prefix_step(amounts: Seq<int>, k: int)
    requires
        0 <= k,
    ensures
        prefix_sum(amounts, k + 1) == prefix_sum(amounts, k) + amounts[k],
{
}

/// The daily candles of a member's balance history. The history comes
/// newest first, as the bank lists it; the candles run oldest first, one per
/// day that saw a transaction, tracking the running balance from zero.
pub fn candlestick(history: &Vec<Transaction>) -> (candles: Vec<Candle>)
    requires
        history.len() > 0,
        forall|i: int| 0 <= i < history.len() ==> valid_timestamp(#[trigger] history[i].created as int),
        balances_fit(oldest_first_amounts(history@)),
    ensures
        is_candle_chart(oldest_first_days(history@), oldest_first_amounts(history@), candles@),
{
    let ghost amounts = oldest_first_amounts(history@);
    let ghost days = oldest_first_days(history@);
    let n = history.len();
    let mut candles: Vec<Candle> = Vec::new();
    let ghost mut b: Seq<int> = seq![0];
    let mut balance: i32 = 0;
    let first = day_label(day_start(history[n - 1].created));
    let mut current_day: String = first;
    let mut open: i32 = 0;
    let mut high: i32 = 0;
    let mut low: i32 = 0;
    let mut i: usize = 0;
    while i < n
        invariant
            n == history.len(),
            n > 0,
            i <= n,
            amounts == oldest_first_amounts(history@),
            days == oldest_first_days(history@),
            amounts.len() == n,
            days.len() == n,
            forall|j: int| 0 <= j < n ==> valid_timestamp(#[trigger] history[j].created as int),
            balances_fit(amounts),
            b.len() == candles.len() + 1,
            b[0] == 0,
            forall|r: int| 0 <= r < b.len() - 1 ==> #[trigger] b[r] < b[r + 1],
            b.last() <= i,
            i == 0 ==> b.last() == 0,
            i > 0 ==> b.last() < i,
            b.last() < n,
            current_day@ == days[b.last()],
            forall|r: int, k: int|
        #![trigger b[r], days[k]]
                0 <= r < b.len() - 1 && b[r] <= k < b[r + 1] ==> days[k] == days[b[r]],
            forall|k: int| b.last() <= k < i ==> #[trigger] days[k] == days[b.last()],
            forall|r: int| 0 < r < b.len() ==> days[#[trigger] b[r] - 1] != days[b[r]],
            forall|r: int|
                0 <= r < candles.len() ==> is_candle(days, amounts, b[r], b[r + 1], #[trigger] candles@[r]),
            balance == prefix_sum(amounts, i as int),
            open == prefix_sum(amounts, b.last()),
            is_range_max(amounts, b.last(), if i == 0 { 0 } else { i as int }, high as int),
            is_range_min(amounts, b.last(), if i == 0 { 0 } else { i as int }, low as int),
        decreases n - i,
    {
        let t = &history[n - 1 - i];
        let day = day_label(day_start(t.created));
        assert(day@ == days[i as int]);
        if i > 0 && day != current_day {
            let ghost s = b.last();
            candles.push(
                Candle { day: current_day, open, high, low, close: balance },
            );
            proof {
                b = b.push(i as int);
                assert forall|r: int, k: int|
        #![trigger b[r], days[k]]
                    0 <= r < b.len() - 1 && b[r] <= k < b[r + 1] implies days[k] == days[b[r]] by {
                    if r == b.len() - 2 {
                        assert(b[r] == s);
                    }
                }
                assert forall|r: int|
                    0 <= r < candles.len() implies is_candle(
                        days,
                        amounts,
                        b[r],
                        b[r + 1],
                        #[trigger] candles@[r],
                    ) by {
                    if r == candles.len() - 1 {
                        assert(b[r] == s);
                        assert(b[r + 1] == i);
                    }
                }
            }
            current_day = day;
            open = balance;
            high = balance;
            low = balance;
        }
        proof {
            lemma_prefix_step(amounts, i as int);
            assert(amounts[i as int] == t.amount as int);
            assert(i32::MIN <= prefix_sum(amounts, i + 1) <= i32::MAX);
        }
        balance = balance + t.amount;
        if balance > high {
            high = balance;
        }
        if balance < low {
            low = balance;
        }
        proof {
            let s = b.last();
            let e = i + 1;
            assert forall|k: int| s <= k <= e implies prefix_sum(amounts, k) <= high by {
                if k == e {
                } else if i == 0 {
                    assert(k == 0);
                } else if k == i && s == i {
                } else {
                }
            }
            assert forall|k: int| s <= k <= e implies prefix_sum(amounts, k) >= low by {
                if k == e {
                } else if i == 0 {
                    assert(k == 0);
                } else {
                }
            }
        }
        i += 1;
    }
    let ghost s = b.last();
    candles.push(Candle { day: current_day, open, high, low, close: balance });
    proof {
        b = b.push(n as int);
        assert forall|r: int, k: int|
        #![trigger b[r], days[k]]
            0 <= r < b.len() - 1 && b[r] <= k < b[r + 1] implies days[k] == days[b[r]] by {
            if r == b.len() - 2 {
                assert(b[r] == s);
            }
        }
        assert forall|r: int|
            0 <= r < candles.len() implies is_candle(
                days,
                amounts,
                b[r],
                b[r + 1],
                #[trigger] candles@[r],
            ) by {
            if r == candles.len() - 1 {
                assert(b[r] == s);
                assert(b[r + 1] == n);
            }
        }
        assert(is_day_runs(days, b));
    }
    candles
}

/// Money a member spent in one category.
#[derive(Clone, Debug)]
pub struct Spending {
    pub category: String,
    pub cost: i32,
}

fn copy_spending(s: &Spending) -> (r: Spending)
    ensures
        r == *s,
{
    Spending { category: s.category.clone(), cost: s.cost }
}

/// Entry `i` comes before entry `k` in the breakdown: it cost more, or the
/// same and it was listed earlier.
pub open spec fn spent_before(s: Seq<Spending>, i: int, k: int) -> bool {
    s[i].cost > s[k].cost || (s[i].cost == s[k].cost && i < k)
}

/// `r` lists, through the positions `idx` into `s`, exactly the entries of
/// `s` whose cost is not zero, each once, from the largest cost down, equal
/// costs in their original order.
pub open spec fn is_spent_breakdown(s: Seq<Spending>, r: Seq<Spending>, idx: Seq<int>) -> bool {
    &&& idx.len() == r.len()
    &&& forall|i: int|
        0 <= i < r.len() ==> 0 <= #[trigger] idx[i] < s.len() && s[idx[i]].cost != 0 && r[i]
            == s[idx[i]]
    &&& forall|i: int, k: int| 0 <= i < k < r.len() ==> spent_before(s, #[trigger] idx[i], #[trigger] idx[k])
    &&& forall|j: int| 0 <= j < s.len() && s[j].cost != 0 ==> exists|i: int| 0 <= i < r.len() && #[trigger] idx[i] == j
}

/// The spending breakdown shown for a member: categories with a non-zero
/// cost, the largest first, ties kept in the order the bank listed them.
pub fn spent_breakdown(spending: &Vec<Spending>) -> (r: Vec<Spending>)
    ensures
        exists|idx: Seq<int>| is_spent_breakdown(spending@, r@, idx),
{
    let mut r: Vec<Spending> = Vec::new();
    let ghost mut idx: Seq<int> = Seq::empty();
    let mut j: usize = 0;
    while j < spending.len()
        invariant
            j <= spending.len(),
            idx.len() == r.len(),
            forall|i: int|
                0 <= i < r.len() ==> 0 <= #[trigger] idx[i] < j && spending@[idx[i]].cost != 0
                    && r@[i] == spending@[idx[i]],
            forall|i: int, k: int|
                0 <= i < k < r.len() ==> spent_before(spending@, #[trigger] idx[i], #[trigger] idx[k]),
            forall|j2: int|
                0 <= j2 < j && spending@[j2].cost != 0 ==> exists|i: int|
                    0 <= i < r.len() && #[trigger] idx[i] == j2,
        decreases spending.len() - j,
    {
        let c = spending[j].cost;
        if c != 0 {
            let mut p: usize = 0;
            while p < r.len() && r[p].cost >= c
                invariant
                    p <= r.len(),
                    forall|i: int| 0 <= i < p ==> r@[i].cost >= c,
                decreases r.len() - p,
            {
                p += 1;
            }
            let ghost old_idx = idx;
            let ghost old_r = r@;
            r.insert(p, copy_spending(&spending[j]));
            proof {
                idx = idx.insert(p as int, j as int);
                assert(p < old_r.len() ==> old_r[p as int].cost < c);
                assert forall|i: int|
                    0 <= i < r.len() implies 0 <= #[trigger] idx[i] < j + 1
                        && spending@[idx[i]].cost != 0 && r@[i] == spending@[idx[i]] by {
                    if i < p {
                        assert(idx[i] == old_idx[i]);
                    } else if i > p {
                        assert(idx[i] == old_idx[i - 1]);
                    }
                }
                assert forall|i: int, k: int|
                    0 <= i < k < r.len() implies spent_before(spending@, #[trigger] idx[i], #[trigger] idx[k]) by {
                    if i < p && k < p {
                        assert(idx[i] == old_idx[i] && idx[k] == old_idx[k]);
                    } else if i < p && k == p {
                        assert(idx[i] == old_idx[i]);
                        assert(old_r[i].cost >= c);
                    } else if i < p && k > p {
                        assert(idx[i] == old_idx[i] && idx[k] == old_idx[k - 1]);
                    } else if i == p {
                        assert(idx[k] == old_idx[k - 1]);
                        assert(old_r[p as int].cost < c);
                        if k - 1 > p {
                            assert(spent_before(spending@, old_idx[p as int], old_idx[k - 1]));
                        }
                    } else {
                        assert(idx[i] == old_idx[i - 1] && idx[k] == old_idx[k - 1]);
                    }
                }
                assert forall|j2: int|
                    0 <= j2 < j + 1 && spending@[j2].cost != 0 implies exists|i: int|
                        0 <= i < r.len() && #[trigger] idx[i] == j2 by {
                    if j2 == j {
                        assert(idx[p as int] == j2);
                    } else {
                        let i0 = choose|i: int| 0 <= i < old_idx.len() && #[trigger] old_idx[i] == j2;
                        if i0 < p {
                            assert(idx[i0] == j2);
                        } else {
                            assert(idx[i0 + 1] == j2);
                        }
                    }
                }
            }
        }
        j += 1;
    }
    proof {
        assert(is_spent_breakdown(spending@, r@, idx));
    }
    r
}

/// Every candle of a chart opens and closes between its low and its high.
pub proof fn law_candle_bounds(days: Seq<Seq<char>>, amounts: Seq<int>, candles: Seq<Candle>)
    requires
        is_candle_chart(days, amounts, candles),
    ensures
        forall|r: int|
            0 <= r < candles.len() ==> (#[trigger] candles[r]).low <= candles[r].open <= candles[r].high
                && candles[r].low <= candles[r].close <= candles[r].high,
{
    let b = choose|b: Seq<int>|
        is_day_runs(days, b) && b.len() == candles.len() + 1 && forall|r: int|
            0 <= r < candles.len() ==> is_candle(days, amounts, b[r], b[r + 1], #[trigger] candles[r]);
    assert forall|r: int| 0 <= r < candles.len() implies (#[trigger] candles[r]).low <= candles[r].open
        <= candles[r].high && candles[r].low <= candles[r].close <= candles[r].high by {
        assert(is_candle(days, amounts, b[r], b[r + 1], candles[r]));
        assert(b[r] < b[r + 1]);
        let lo = b[r];
        let hi = b[r + 1];
        assert(prefix_sum(amounts, lo) <= candles[r].high);
        assert(prefix_sum(amounts, hi) <= candles[r].high);
        assert(prefix_sum(amounts, lo) >= candles[r].low);
        assert(prefix_sum(amounts, hi) >= candles[r].low);
    }
}

/// The spending breakdown runs from the largest cost down, and holds no
/// zero cost.
pub proof fn law_breakdown_descending(s: Seq<Spending>, r: Seq<Spending>, idx: Seq<int>)
    requires
        is_spent_breakdown(s, r, idx),
    ensures
        forall|i: int, k: int| 0 <= i < k < r.len() ==> (#[trigger] r[i]).cost >= (#[trigger] r[k]).cost,
        forall|i: int| 0 <= i < r.len() ==> (#[trigger] r[i]).cost != 0,
{
    assert forall|i: int, k: int| 0 <= i < k < r.len() implies (#[trigger] r[i]).cost >= (
    #[trigger] r[k]).cost by {
        assert(spent_before(s, idx[i], idx[k]));
        assert(r[i] == s[idx[i]]);
        assert(r[k] == s[idx[k]]);
    }
    assert forall|i: int| 0 <= i < r.len() implies (#[trigger] r[i]).cost != 0 by {
        assert(r[i] == s[idx[i]]);
    }
}

} // verus!
