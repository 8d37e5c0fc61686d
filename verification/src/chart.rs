//! The token chart's data: per-day totals of input, output and cache
//! tokens over the selected span of days, and the peak the bars scale to.

use vstd::prelude::*;
use crate::models::ModelType;
use crate::tui::TimeRangeSelection;
use std::collections::BTreeMap;
use vstd::std_specs::btree::{increasing_seq, axiom_increasing_seq_meaning};
use vstd::std_specs::iter::IteratorSpec;
use vstd::laws_cmp::obeys_cmp;
use vstd::std_specs::cmp::OrdSpec;

verus! {

/// The token counts of one (day, model) aggregate; `day` counts days in
/// the calendar.
#[derive(Debug, Clone, Copy, PartialEq, Eq, Structural)]
pub struct DayTokens {
    pub day: i64,
    pub model: ModelType,
    pub input: u64,
    pub output: u64,
    pub cache_read: u64,
    pub cache_write: u64,
}

/// What the chart shows for one day: input, output, and cache tokens
/// (reads and writes together), summed over models.
#[derive(Debug, Clone, Copy, PartialEq, Eq, Structural)]
pub struct DayTotals {
    pub day: i64,
    pub input: u64,
    pub output: u64,
    pub cache: u64,
}

/// Input (0), output (1) or cache (2) tokens of an aggregate.
pub open spec fn column(e: DayTokens, which: int) -> int {
    if which == 0 {
        e.input as int
    } else if which == 1 {
        e.output as int
    } else {
        e.cache_read + e.cache_write
    }
}

/// The total of one column over the aggregates of day `d`, when `d` is not
/// before `cutoff`.
pub open spec fn day_total(s: Seq<DayTokens>, d: int, cutoff: int, which: int) -> int
    decreases s.len(),
{
    if s.len() == 0 {
        0
    } else {
        day_total(s.drop_last(), d, cutoff, which) + (if s.last().day == d && d >= cutoff {
            column(s.last(), which)
        } else {
            0
        })
    }
}

/// The same column of a day's totals.
pub open spec fn totals_column(t: DayTotals, which: int) -> int {
    if which == 0 {
        t.input as int
    } else if which == 1 {
        t.output as int
    } else {
        t.cache as int
    }
}

/// Whether some aggregate of `s` falls on day `d`, not before `cutoff`.
pub open spec fn day_present(s: Seq<DayTokens>, d: int, cutoff: int) -> bool {
    d >= cutoff && exists|j: int| 0 <= j < s.len() && s[j].day == d
}

/// The chart rows for `data`: one row per day present, in increasing day
/// order, each holding that day's totals.
pub open spec fn chart_rows(data: Seq<DayTokens>, cutoff: int, rows: Seq<DayTotals>) -> bool {
    &&& forall|a: int, b: int| 0 <= a < b < rows.len() ==> rows[a].day < rows[b].day
    &&& forall|p: int, w: int|
        0 <= p < rows.len() && 0 <= w < 3 ==> #[trigger] totals_column(rows[p], w) == day_total(
            data,
            rows[p].day as int,
            cutoff,
            w,
        )
    &&& forall|p: int| 0 <= p < rows.len() ==> day_present(data, #[trigger] rows[p].day as int, cutoff)
    &&& forall|j: int|
        0 <= j < data.len() && data[j].day >= cutoff ==> exists|p: int|
            0 <= p < rows.len() && #[trigger] rows[p].day == data[j].day
}

/// No sum the chart forms overflows: each aggregate's cache tokens, and
/// each day's column totals.
pub open spec fn chart_fits(data: Seq<DayTokens>, cutoff: int) -> bool {
    &&& forall|j: int|
        0 <= j < data.len() && data[j].day >= cutoff ==> data[j].cache_read + data[j].cache_write
            <= u64::MAX
    &&& forall|d: int, w: int| 0 <= w < 3 ==> #[trigger] day_total(data, d, cutoff, w) <= u64::MAX
}

/// A prefix never totals more than the whole.
proof fn lemma_prefix_total_le(s: Seq<DayTokens>, k: int, d: int, cutoff: int, which: int)
    requires
        0 <= k <= s.len(),
        0 <= which < 3,
    ensures
        0 <= day_total(s.subrange(0, k), d, cutoff, which) <= day_total(s, d, cutoff, which),
    decreases s.len(),
{
    if k == s.len() {
        assert(s.subrange(0, k) =~= s);
        lemma_total_nonneg(s, d, cutoff, which);
    } else {
        lemma_prefix_total_le(s.drop_last(), k, d, cutoff, which);
        assert(s.drop_last().subrange(0, k) =~= s.subrange(0, k));
    }
}

proof fn lemma_total_nonneg(s: Seq<DayTokens>, d: int, cutoff: int, which: int)
    requires
        0 <= which < 3,
    ensures
        day_total(s, d, cutoff, which) >= 0,
    decreases s.len(),
{
    if s.len() > 0 {
        lemma_total_nonneg(s.drop_last(), d, cutoff, which);
    }
}

/// A map from day to that day's (input, output, cache) totals over `s`,
/// one entry for each day present from `cutoff` on.
pub open spec fn holds_day_totals(s: Seq<DayTokens>, cutoff: int, m: Map<i64, (u64, u64, u64)>) -> bool {
    &&& forall|d: i64| #[trigger] m.contains_key(d) <==> day_present(s, d as int, cutoff)
    &&& forall|d: i64|
        #[trigger] m.contains_key(d) ==> {
            &&& m[d].0 == day_total(s, d as int, cutoff, 0)
            &&& m[d].1 == day_total(s, d as int, cutoff, 1)
            &&& m[d].2 == day_total(s, d as int, cutoff, 2)
        }
}

/// The row that shows one entry of the day map.
pub open spec fn row_of(day: i64, t: (u64, u64, u64)) -> DayTotals {
    DayTotals { day, input: t.0, output: t.1, cache: t.2 }
}

/// Keys that come out of a map in increasing order are increasing days.
proof fn lemma_increasing_days(s: Seq<(&i64, &(u64, u64, u64))>)
    requires
        increasing_seq(s.map_values(|kv: (&i64, &(u64, u64, u64))| *kv.0)),
    ensures
        forall|a: int, b: int| 0 <= a < b < s.len() ==> *s[a].0 < *s[b].0,
{
    let keys = s.map_values(|kv: (&i64, &(u64, u64, u64))| *kv.0);
    broadcast use axiom_increasing_seq_meaning;
    assert(obeys_cmp::<i64>());
    assert forall|a: int, b: int| 0 <= a < b < s.len() implies *s[a].0 < *s[b].0 by {
        assert(keys[a] == *s[a].0);
        assert(keys[b] == *s[b].0);
        assert(keys[a].cmp_spec(&keys[b]) is Less);
    }
}

/// Sums the aggregates of each day not before `cutoff` into one row per
/// day, rows in increasing day order.
pub fn chart_totals(data: &[DayTokens], cutoff: i64) -> (rows: Vec<DayTotals>)
    requires
        chart_fits(data@, cutoff as int),
    ensures
        chart_rows(data@, cutoff as int, rows@),
{
    let mut daily: BTreeMap<i64, (u64, u64, u64)> = BTreeMap::new();
    let mut k: usize = 0;
    proof {
        assert(data@.subrange(0, 0) =~= Seq::<DayTokens>::empty());
    }
    while k < data.len()
        invariant
            k <= data@.len(),
            chart_fits(data@, cutoff as int),
            holds_day_totals(data@.subrange(0, k as int), cutoff as int, daily@),
        decreases data.len() - k,
    {
        let ghost pre = data@.subrange(0, k as int);
        let ghost post = data@.subrange(0, k + 1);
        assert(post.drop_last() =~= pre);
        assert(post.last() == data@[k as int]);
        let e = data[k];
        if e.day >= cutoff {
            proof {
                lemma_prefix_total_le(data@, k + 1, e.day as int, cutoff as int, 0);
                lemma_prefix_total_le(data@, k + 1, e.day as int, cutoff as int, 1);
                lemma_prefix_total_le(data@, k + 1, e.day as int, cutoff as int, 2);
                lemma_prefix_total_le(data@, k as int, e.day as int, cutoff as int, 0);
                lemma_prefix_total_le(data@, k as int, e.day as int, cutoff as int, 1);
                lemma_prefix_total_le(data@, k as int, e.day as int, cutoff as int, 2);
                assert(day_total(post, e.day as int, cutoff as int, 0) <= u64::MAX);
                assert(day_total(post, e.day as int, cutoff as int, 1) <= u64::MAX);
                assert(day_total(post, e.day as int, cutoff as int, 2) <= u64::MAX);
            }
            let cur: (u64, u64, u64) = match daily.get(&e.day) {
                Some(t) => *t,
                None => {
                    proof {
                        assert(!day_present(pre, e.day as int, cutoff as int));
                        lemma_total_zero_without_day(pre, e.day as int, cutoff as int, 0);
                        lemma_total_zero_without_day(pre, e.day as int, cutoff as int, 1);
                        lemma_total_zero_without_day(pre, e.day as int, cutoff as int, 2);
                    }
                    (0, 0, 0)
                },
            };
            let cache_add = e.cache_read + e.cache_write;
            let new_total = (cur.0 + e.input, cur.1 + e.output, cur.2 + cache_add);
            let ghost old_map = daily@;
            daily.insert(e.day, new_total);
            proof {
                assert forall|d: i64| #[trigger] daily@.contains_key(d) <==> day_present(post, d as int, cutoff as int) by {
                    if d != e.day {
                        assert(old_map.contains_key(d) <==> day_present(pre, d as int, cutoff as int));
                        if day_present(pre, d as int, cutoff as int) {
                            let j = choose|j: int| 0 <= j < pre.len() && pre[j].day == d;
                            assert(post[j] == pre[j]);
                        }
                        if day_present(post, d as int, cutoff as int) {
                            let j = choose|j: int| 0 <= j < post.len() && post[j].day == d;
                            assert(j < pre.len());
                            assert(post[j] == pre[j]);
                        }
                    } else {
                        assert(post[k as int].day == d);
                    }
                }
            }
        } else {
            proof {
                assert forall|d: i64| #[trigger] daily@.contains_key(d) <==> day_present(post, d as int, cutoff as int) by {
                    if day_present(pre, d as int, cutoff as int) {
                        let j = choose|j: int| 0 <= j < pre.len() && pre[j].day == d;
                        assert(post[j] == pre[j]);
                    }
                    if day_present(post, d as int, cutoff as int) {
                        let j = choose|j: int| 0 <= j < post.len() && post[j].day == d;
                        assert(j < pre.len());
                        assert(post[j] == pre[j]);
                    }
                }
            }
        }
        k = k + 1;
    }
    assert(data@.subrange(0, data@.len() as int) =~= data@);
    let ghost m = daily@;

    // Read the map out in increasing order of day.
    let iter = daily.iter();
    let ghost items = iter.remaining();
    proof {
        lemma_increasing_days(items);
    }
    let mut rows: Vec<DayTotals> = Vec::new();
    for entry in it: iter
        invariant
            it.seq() == items,
            items.len() == m.dom().len(),
            forall|i: int| 0 <= i < items.len() ==> m.contains_key(*items[i].0) && m[*items[i].0] == *items[i].1,
            forall|d: i64| #[trigger] m.contains_key(d) ==> items.contains((&d, &m[d])),
            forall|a: int, b: int| 0 <= a < b < items.len() ==> *items[a].0 < *items[b].0,
            rows@.len() == it.index(),
            forall|p: int| 0 <= p < rows@.len() ==> rows@[p] == row_of(*items[p].0, *items[p].1),
    {
        rows.push(DayTotals { day: *entry.0, input: entry.1.0, output: entry.1.1, cache: entry.1.2 });
    }
    proof {
        assert forall|p: int, w: int|
            0 <= p < rows@.len() && 0 <= w < 3 implies #[trigger] totals_column(rows@[p], w) == day_total(
            data@,
            rows@[p].day as int,
            cutoff as int,
            w,
        ) by {
            assert(m.contains_key(*items[p].0));
        }
        assert forall|p: int| 0 <= p < rows@.len() implies day_present(data@, #[trigger] rows@[p].day as int, cutoff as int) by {
            assert(m.contains_key(*items[p].0));
        }
        assert forall|j: int| 0 <= j < data@.len() && data@[j].day >= cutoff implies exists|p: int|
            0 <= p < rows@.len() && #[trigger] rows@[p].day == data@[j].day by {
            let d = data@[j].day;
            assert(day_present(data@, d as int, cutoff as int));
            assert(m.contains_key(d));
            assert(items.contains((&d, &m[d])));
            let p = choose|p: int| 0 <= p < items.len() && items[p] == (&d, &m[d]);
            assert(rows@[p].day == d);
        }
    }
    rows
}

proof fn lemma_total_zero_without_day(s: Seq<DayTokens>, d: int, cutoff: int, which: int)
    requires
        forall|j: int| 0 <= j < s.len() ==> s[j].day != d,
    ensures
        day_total(s, d, cutoff, which) == 0,
    decreases s.len(),
{
    if s.len() > 0 {
        lemma_total_zero_without_day(s.drop_last(), d, cutoff, which);
    }
}

/// The first day the chart shows: `days` before today.
pub fn chart_cutoff(today: i64, range: TimeRangeSelection) -> (r: i64)
    requires
        -1_000_000_000 <= today <= 1_000_000_000,
    ensures
        r == today - range.spec_days(),
{
    today - range.days()
}

/// The height the bars scale to: the largest day's total of all three
/// columns, or 1 when there is no day.
pub fn chart_peak(rows: &[DayTotals]) -> (r: u64)
    requires
        forall|p: int| 0 <= p < rows@.len() ==> rows@[p].input + rows@[p].output + rows@[p].cache <= u64::MAX,
    ensures
        rows@.len() == 0 ==> r == 1,
        rows@.len() > 0 ==> (exists|p: int| 0 <= p < rows@.len() && r == rows@[p].input + rows@[p].output
            + rows@[p].cache),
        rows@.len() > 0 ==> (forall|p: int| 0 <= p < rows@.len() ==> rows@[p].input + rows@[p].output
            + rows@[p].cache <= r),
{
    if rows.len() == 0 {
        return 1;
    }
    let mut best: u64 = rows[0].input + rows[0].output + rows[0].cache;
    let mut i: usize = 1;
    while i < rows.len()
        invariant
            1 <= i <= rows@.len(),
            forall|p: int| 0 <= p < rows@.len() ==> rows@[p].input + rows@[p].output + rows@[p].cache <= u64::MAX,
            exists|p: int| 0 <= p < i && best == rows@[p].input + rows@[p].output + rows@[p].cache,
            forall|p: int| 0 <= p < i ==> rows@[p].input + rows@[p].output + rows@[p].cache <= best,
        decreases rows.len() - i,
    {
        let t = rows[i].input + rows[i].output + rows[i].cache;
        if t > best {
            best = t;
        }
        i = i + 1;
    }
    best
}

/// Input plus output tokens of the aggregates of day `d`, of model `m`
/// when one is given, of all models otherwise.
pub open spec fn day_tokens(s: Seq<DayTokens>, d: int, m: Option<ModelType>) -> int
    decreases s.len(),
{
    if s.len() == 0 {
        0
    } else {
        day_tokens(s.drop_last(), d, m) + (if s.last().day == d && (m is None || m == Some(
            s.last().model,
        )) {
            s.last().input + s.last().output
        } else {
            0
        })
    }
}

/// A prefix never holds more of a day's tokens than the whole.
proof fn lemma_prefix_tokens_le(s: Seq<DayTokens>, k: int, d: int, m: Option<ModelType>)
    requires
        0 <= k <= s.len(),
    ensures
        0 <= day_tokens(s.subrange(0, k), d, m) <= day_tokens(s, d, m),
    decreases s.len(),
{
    if k == s.len() {
        assert(s.subrange(0, k) =~= s);
        if s.len() > 0 {
            lemma_prefix_tokens_le(s.drop_last(), k - 1, d, m);
        }
    } else {
        lemma_prefix_tokens_le(s.drop_last(), k, d, m);
        assert(s.drop_last().subrange(0, k) =~= s.subrange(0, k));
    }
}

/// The input and output tokens of day `day` summed over the aggregates, of
/// one model when `model` names one.
pub fn tokens_on_day(data: &[DayTokens], day: i64, model: Option<ModelType>) -> (r: u64)
    requires
        day_tokens(data@, day as int, model) <= u64::MAX,
    ensures
        r == day_tokens(data@, day as int, model),
{
    let mut total: u64 = 0;
    let mut k: usize = 0;
    while k < data.len()
        invariant
            k <= data@.len(),
            day_tokens(data@, day as int, model) <= u64::MAX,
            total == day_tokens(data@.subrange(0, k as int), day as int, model),
        decreases data.len() - k,
    {
        proof {
            lemma_prefix_tokens_le(data@, k + 1, day as int, model);
            assert(data@.subrange(0, k + 1).drop_last() =~= data@.subrange(0, k as int));
        }
        let e = data[k];
        let of_model = match model {
            None => true,
            Some(m) => m == e.model,
        };
        if e.day == day && of_model {
            total = total + e.input + e.output;
        }
        k = k + 1;
    }
    assert(data@.subrange(0, data@.len() as int) =~= data@);
    total
}

/// A day's tokens count exactly that day's aggregates: none on an empty
/// list, and one more aggregate adds its input and output tokens to the
/// day it falls on, to the all-models total and to the total of its own
/// model, and to no other day or model.
pub proof fn law_day_tokens_count_own(s: Seq<DayTokens>, e: DayTokens, d: int, m: ModelType)
    ensures
        day_tokens(Seq::<DayTokens>::empty(), d, None) == 0,
        day_tokens(Seq::<DayTokens>::empty(), d, Some(m)) == 0,
        day_tokens(s.push(e), d, None) == day_tokens(s, d, None) + (if e.day == d {
            e.input + e.output
        } else {
            0
        }),
        day_tokens(s.push(e), d, Some(m)) == day_tokens(s, d, Some(m)) + (if e.day == d && e.model
            == m {
            e.input + e.output
        } else {
            0
        }),
{
    assert(s.push(e).drop_last() =~= s);
}

/// A day's tokens are shared out among the three models: the per-model
/// totals add up to the total over all models.
pub proof fn law_model_tokens_partition_day(s: Seq<DayTokens>, d: int)
    ensures
        day_tokens(s, d, None) == day_tokens(s, d, Some(ModelType::Opus)) + day_tokens(
            s,
            d,
            Some(ModelType::Sonnet),
        ) + day_tokens(s, d, Some(ModelType::Haiku)),
    decreases s.len(),
{
    if s.len() > 0 {
        law_model_tokens_partition_day(s.drop_last(), d);
    }
}

} // verus!
