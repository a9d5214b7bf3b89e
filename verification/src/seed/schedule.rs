//! The calendar of bulk data: which days carry events and how heavily, and
//! the draw of a receipt instant from it.
//!
//! Each day of the span gets a weight from its weekday, from campaign days
//! of the month and from noise, and an activity score; about a fifth of the
//! days, those of lowest score, carry no events, except that the last day
//! of the span always does.

use vstd::prelude::*;
use crate::seed::rng::{SeededRng, lcg_next};
use crate::time::{
    UtcTimestamp, day_of_month, day_of_month_of, weekday_number, weekday_from_monday, jst_datetime,
    jst_instant_seconds, MIN_DAY, MAX_DAY, jst_day_spec, lemma_jst_day_of_instant,
};

verus! {

/// The state after `n` steps of the generator from `s`.
pub open spec fn lcg_iter(s: u64, n: nat) -> u64
    decreases n,
{
    if n == 0 {
        s
    } else {
        lcg_next(lcg_iter(s, (n - 1) as nat))
    }
}

/// The activity weight of a weekday (1 for Monday to 7 for Sunday).
pub open spec fn weekly_weight_spec(weekday: int) -> u32 {
    if weekday == 1 {
        105
    } else if weekday == 2 {
        120
    } else if weekday == 3 {
        115
    } else if weekday == 4 {
        110
    } else if weekday == 5 {
        90
    } else if weekday == 6 {
        35
    } else {
        25
    }
}

/// The extra weight of campaign days of the month: 80 on the 4th to 6th,
/// 14th to 16th and 24th to 26th, 35 on the 9th, 10th, 19th and 20th.
pub open spec fn campaign_weight_spec(day_of_month: u32) -> u32 {
    if (4 <= day_of_month <= 6) || (14 <= day_of_month <= 16) || (24 <= day_of_month <= 26) {
        80
    } else if day_of_month == 9 || day_of_month == 10 || day_of_month == 19 || day_of_month == 20 {
        35
    } else {
        0
    }
}

/// Returns the activity weight of a calendar day's weekday.
pub fn weekly_activity_weight(day: i64) -> (w: u32)
    requires
        MIN_DAY <= day <= MAX_DAY,
    ensures
        w == weekly_weight_spec(weekday_from_monday(day as int)),
{
    let weekday = weekday_number(day);
    if weekday == 1 {
        105
    } else if weekday == 2 {
        120
    } else if weekday == 3 {
        115
    } else if weekday == 4 {
        110
    } else if weekday == 5 {
        90
    } else if weekday == 6 {
        35
    } else {
        25
    }
}

/// Returns the campaign weight of a calendar day.
pub fn campaign_activity_weight(day: i64) -> (w: u32)
    requires
        MIN_DAY <= day <= MAX_DAY,
    ensures
        w == campaign_weight_spec(day_of_month_of(day)),
{
    let d = day_of_month(day);
    if (4 <= d && d <= 6) || (14 <= d && d <= 16) || (24 <= d && d <= 26) {
        80
    } else if d == 9 || d == 10 || d == 19 || d == 20 {
        35
    } else {
        0
    }
}

/// A day of the span with its weight and activity score.
#[derive(Clone, Copy, Debug, PartialEq, Eq, Structural)]
pub struct BulkDayCandidate {
    pub date: i64,
    pub weight: u32,
    pub active_score: u32,
}

/// The candidate for day `k` of a span starting at `start`, drawn by a
/// generator starting in state `s`: two draws per day, noise below 35 for
/// the weight, then below 80 for the score.
pub open spec fn candidate_spec(s: u64, start: i64, k: int) -> BulkDayCandidate {
    let date = start + k;
    let w = weekly_weight_spec(weekday_from_monday(date));
    let c = campaign_weight_spec(day_of_month_of(date as i64));
    BulkDayCandidate {
        date: date as i64,
        weight: (w + c + lcg_iter(s, (2 * k + 1) as nat) % 35) as u32,
        active_score: (w + 2 * c + lcg_iter(s, (2 * k + 2) as nat) % 80) as u32,
    }
}

/// Candidate `a` comes before `b` by score, then by date.
pub open spec fn key_less(a: BulkDayCandidate, b: BulkDayCandidate) -> bool {
    a.active_score < b.active_score || (a.active_score == b.active_score && a.date < b.date)
}

/// How many of the first `n` candidates come before `c`.
pub open spec fn count_before(cands: Seq<BulkDayCandidate>, c: BulkDayCandidate, n: int) -> nat
    decreases n,
{
    if n <= 0 {
        0
    } else {
        count_before(cands, c, n - 1) + if key_less(cands[n - 1], c) { 1nat } else { 0nat }
    }
}

/// The place of candidate `k` in score order.
pub open spec fn rank_spec(cands: Seq<BulkDayCandidate>, k: int) -> nat {
    count_before(cands, cands[k], cands.len() as int)
}

/// Whether day `k` carries events: the days below place `zero` in score
/// order carry none, unless the last day is among them, in which case it
/// carries events and the day at place `zero` does not.
pub open spec fn day_selected(cands: Seq<BulkDayCandidate>, zero: nat, k: int) -> bool {
    let end = cands.len() - 1;
    if rank_spec(cands, end) >= zero {
        rank_spec(cands, k) >= zero
    } else {
        rank_spec(cands, k) > zero || k == end
    }
}

/// A day that carries events, with its weight.
#[derive(Clone, Copy, Debug, PartialEq, Eq, Structural)]
pub struct WeightedBulkDay {
    pub date: i64,
    pub weight: u32,
}

/// The event days among the first `n` candidates, in date order, each
/// weighted at least 1.
pub open spec fn schedule_prefix(cands: Seq<BulkDayCandidate>, zero: nat, n: int) -> Seq<WeightedBulkDay>
    decreases n,
{
    if n <= 0 {
        Seq::empty()
    } else {
        schedule_prefix(cands, zero, n - 1) + if day_selected(cands, zero, n - 1) {
            seq![WeightedBulkDay {
                date: cands[n - 1].date,
                weight: if cands[n - 1].weight >= 1 { cands[n - 1].weight } else { 1 },
            }]
        } else {
            Seq::empty()
        }
    }
}

/// The number of days without events in a span of `days` days: a fifth of
/// them, rounded to nearest, but never all of them.
pub open spec fn zero_day_count(days: u32) -> nat {
    let z = (days as nat + 2) / 5;
    if z <= days as nat - 1 { z } else { (days as nat - 1) as nat }
}

/// The candidates of a span of `days` days starting at `start`.
pub open spec fn candidates_spec(s: u64, start: i64, days: u32) -> Seq<BulkDayCandidate> {
    Seq::new(days as nat, |k: int| candidate_spec(s, start, k))
}

/// The event days of a span.
pub open spec fn schedule_spec(s: u64, start: i64, days: u32) -> Seq<WeightedBulkDay> {
    schedule_prefix(candidates_spec(s, start, days), zero_day_count(days), days as int)
}

/// The days of a span that carry events.
#[derive(Clone, Debug)]
pub struct BulkDaySchedule {
    pub days: Vec<WeightedBulkDay>,
}

impl BulkDaySchedule {
    /// A usable schedule: at least one day, no more days than a span holds,
    /// every weight at least 1 and every day a representable date.
    pub open spec fn wf(&self) -> bool {
        &&& 0 < self.days@.len() <= u32::MAX
        &&& forall|i: int| 0 <= i < self.days@.len() ==> (#[trigger] self.days@[i]).weight >= 1
            && MIN_DAY <= self.days@[i].date <= MAX_DAY
    }

    /// Every day of the schedule starts after the first representable
    /// instant, so every JST time on it is representable.
    pub open spec fn after_first_day(&self) -> bool {
        forall|i: int| 0 <= i < self.days@.len() ==> MIN_DAY < (#[trigger] self.days@[i]).date
    }

    /// Returns the last day of the schedule.
    pub fn latest_date(&self) -> (d: i64)
        requires
            self.days@.len() > 0,
        ensures
            d == self.days@.last().date,
    {
        self.days[self.days.len() - 1].date
    }
}

fn rank_of(cands: &Vec<BulkDayCandidate>, k: usize) -> (r: u32)
    requires
        k < cands@.len() <= u32::MAX,
    ensures
        r == rank_spec(cands@, k as int),
{
    let c = cands[k];
    let mut count: u32 = 0;
    let mut j: usize = 0;
    while j < cands.len()
        invariant
            k < cands@.len() <= u32::MAX,
            c == cands@[k as int],
            j <= cands.len(),
            count == count_before(cands@, c, j as int),
            count <= j,
        decreases cands.len() - j,
    {
        let d = cands[j];
        if d.active_score < c.active_score || (d.active_score == c.active_score && d.date < c.date) {
            count = count + 1;
        }
        j = j + 1;
    }
    count
}

/// Every day of a span is a representable date.
pub open spec fn span_in_range(start: i64, days: u32) -> bool {
    MIN_DAY <= start && start + days - 1 <= MAX_DAY
}

/// Builds the schedule of a span of `days` days starting at `start`,
/// drawing two values per day from the generator.
pub fn build_realistic_bulk_day_schedule(rng: &mut SeededRng, start_date: i64, days: u32) -> (r: BulkDaySchedule)
    requires
        days >= 1,
        span_in_range(start_date, days),
    ensures
        r.days@ == schedule_spec(old(rng)@, start_date, days),
        final(rng)@ == lcg_iter(old(rng)@, 2 * days as nat),
        r.wf(),
        r.days@.len() == days - zero_day_count(days),
        forall|i: int| 0 <= i < r.days@.len() ==> start_date <= (#[trigger] r.days@[i]).date < start_date + days,
        forall|i: int, j: int| 0 <= i < j < r.days@.len() ==> r.days@[i].date < r.days@[j].date,
        r.days@.last().date == start_date + days - 1,
        forall|i: int| 0 <= i < r.days@.len() ==> (#[trigger] r.days@[i]).weight >= 25,
{
    let ghost s0 = rng@;
    let mut candidates: Vec<BulkDayCandidate> = Vec::new();
    let mut offset: u32 = 0;
    while offset < days
        invariant
            s0 == old(rng)@,
            span_in_range(start_date, days),
            offset <= days,
            rng@ == lcg_iter(s0, 2 * offset as nat),
            candidates@.len() == offset,
            forall|k: int| 0 <= k < offset ==> #[trigger] candidates@[k] == candidate_spec(s0, start_date, k),
        decreases days - offset,
    {
        let date = start_date + offset as i64;
        let weekly_weight = weekly_activity_weight(date);
        let campaign_weight = campaign_activity_weight(date);
        let noise = rng.next_u32(35);
        let weight = weekly_weight + campaign_weight + noise;
        let extra = rng.next_u32(80);
        let active_score = weekly_weight + campaign_weight * 2 + extra;
        proof {
            assert(lcg_iter(s0, (2 * offset + 1) as nat) == lcg_next(lcg_iter(s0, 2 * offset as nat)));
            assert(lcg_iter(s0, (2 * offset + 2) as nat) == lcg_next(lcg_iter(s0, (2 * offset + 1) as nat)));
        }
        candidates.push(BulkDayCandidate { date, weight, active_score });
        offset = offset + 1;
    }
    let ghost cands = candidates@;
    assert(cands =~= candidates_spec(s0, start_date, days));
    let fifth: u32 = ((days as u64 + 2) / 5) as u32;
    let zero_days: u32 = if fifth <= days - 1 { fifth } else { days - 1 };
    let end_rank = rank_of(&candidates, (days - 1) as usize);
    let mut schedule: Vec<WeightedBulkDay> = Vec::new();
    let mut k: usize = 0;
    while k < candidates.len()
        invariant
            cands == candidates@,
            cands =~= candidates_spec(s0, start_date, days),
            candidates@.len() == days,
            span_in_range(start_date, days),
            zero_days == zero_day_count(days),
            end_rank == rank_spec(cands, days - 1),
            k <= days,
            schedule@ == schedule_prefix(cands, zero_days as nat, k as int),
            schedule@.len() <= k,
            forall|i: int| 0 <= i < schedule@.len() ==> (#[trigger] schedule@[i]).weight >= 1
                && start_date <= schedule@[i].date < start_date + days,
        decreases candidates.len() - k,
    {
        let rank = rank_of(&candidates, k);
        let selected = if end_rank >= zero_days {
            rank >= zero_days
        } else {
            rank > zero_days || k == (days - 1) as usize
        };
        if selected {
            let c = candidates[k];
            let weight = if c.weight >= 1 { c.weight } else { 1 };
            schedule.push(WeightedBulkDay { date: c.date, weight });
        }
        k = k + 1;
    }
    proof {
        lemma_schedule_nonempty(cands, zero_days as nat);
        lemma_schedule_day_count(s0, start_date, days);
        lemma_schedule_keeps_last_day(s0, start_date, days);
    }
    BulkDaySchedule { days: schedule }
}

/// Some day of every span carries events: the last day when it is below
/// place `zero`, and otherwise the day of lowest place at or above it.
proof fn lemma_schedule_nonempty(cands: Seq<BulkDayCandidate>, zero: nat)
    requires
        cands.len() >= 1,
        zero <= cands.len() - 1,
    ensures
        schedule_prefix(cands, zero, cands.len() as int).len() > 0,
{
    let n = cands.len() as int;
    let end = n - 1;
    if rank_spec(cands, end) >= zero {
        assert(day_selected(cands, zero, end));
    } else {
        assert(day_selected(cands, zero, end));
    }
    assert(schedule_prefix(cands, zero, n).len() == schedule_prefix(cands, zero, n - 1).len() + 1);
}

/// Every event day among the first `n` candidates weighs at least 25 when
/// every candidate does.
proof fn lemma_prefix_weights(cands: Seq<BulkDayCandidate>, zero: nat, n: int)
    requires
        0 <= n <= cands.len(),
        forall|k: int| 0 <= k < cands.len() ==> (#[trigger] cands[k]).weight >= 25,
    ensures
        forall|i: int| 0 <= i < schedule_prefix(cands, zero, n).len()
            ==> (#[trigger] schedule_prefix(cands, zero, n)[i]).weight >= 25,
    decreases n,
{
    if n > 0 {
        lemma_prefix_weights(cands, zero, n - 1);
        let before = schedule_prefix(cands, zero, n - 1);
        assert forall|i: int| 0 <= i < schedule_prefix(cands, zero, n).len()
            implies (#[trigger] schedule_prefix(cands, zero, n)[i]).weight >= 25 by {
            if i < before.len() {
                assert(schedule_prefix(cands, zero, n)[i] == before[i]);
            } else {
                assert(cands[n - 1].weight >= 25);
            }
        }
    }
}

/// The last day of every span carries events, and every event day weighs
/// at least 25 (the lowest weekday weight, before campaign days and noise).
pub proof fn lemma_schedule_keeps_last_day(s: u64, start: i64, days: u32)
    requires
        days >= 1,
        span_in_range(start, days),
    ensures
        schedule_spec(s, start, days).len() > 0,
        schedule_spec(s, start, days).last().date == start + days - 1,
        forall|i: int| 0 <= i < schedule_spec(s, start, days).len()
            ==> (#[trigger] schedule_spec(s, start, days)[i]).weight >= 25,
{
    let cands = candidates_spec(s, start, days);
    let zero = zero_day_count(days);
    lemma_schedule_nonempty(cands, zero);
    assert(day_selected(cands, zero, days - 1));
    assert(cands[days - 1] == candidate_spec(s, start, days - 1));
    assert forall|k: int| 0 <= k < cands.len() implies (#[trigger] cands[k]).weight >= 25 by {
        assert(cands[k] == candidate_spec(s, start, k));
        let w = weekly_weight_spec(weekday_from_monday(start + k));
        let c = campaign_weight_spec(day_of_month_of((start + k) as i64));
        assert(25 <= w <= 120 && c <= 80);
        assert(lcg_iter(s, (2 * k + 1) as nat) % 35 < 35);
    }
    lemma_prefix_weights(cands, zero, days as int);
}

proof fn lemma_count_bound(cands: Seq<BulkDayCandidate>, c: BulkDayCandidate, m: int, k: int)
    requires
        0 <= m <= cands.len(),
    ensures
        count_before(cands, c, m) <= m,
        0 <= k < m && cands[k] == c ==> count_before(cands, c, m) < m,
    decreases m,
{
    if m > 0 {
        lemma_count_bound(cands, c, m - 1, k);
    }
}

proof fn lemma_count_strict(cands: Seq<BulkDayCandidate>, c1: BulkDayCandidate, c2: BulkDayCandidate, m: int, j: int)
    requires
        0 <= m <= cands.len(),
        key_less(c1, c2),
    ensures
        count_before(cands, c1, m) <= count_before(cands, c2, m),
        0 <= j < m && cands[j] == c1 ==> count_before(cands, c1, m) < count_before(cands, c2, m),
    decreases m,
{
    if m > 0 {
        lemma_count_strict(cands, c1, c2, m - 1, j);
    }
}

/// Candidates of different days have different places in score order.
proof fn lemma_ranks_distinct(cands: Seq<BulkDayCandidate>, j: int, k: int)
    requires
        0 <= j < cands.len(),
        0 <= k < cands.len(),
        cands[j].date != cands[k].date,
    ensures
        rank_spec(cands, j) != rank_spec(cands, k),
{
    let n = cands.len() as int;
    if key_less(cands[j], cands[k]) {
        lemma_count_strict(cands, cands[j], cands[k], n, j);
    } else {
        lemma_count_strict(cands, cands[k], cands[j], n, k);
    }
}

/// The candidates placed at `t` or later in score order.
pub open spec fn placed_from(cands: Seq<BulkDayCandidate>, t: int) -> Set<int> {
    Set::new(|k: int| 0 <= k < cands.len() && rank_spec(cands, k) >= t)
}

/// When all days differ, the places are a permutation, so exactly `n - t`
/// candidates are placed at `t` or later.
proof fn lemma_placed_from_len(cands: Seq<BulkDayCandidate>, t: int)
    requires
        0 <= t <= cands.len(),
        forall|j: int, k: int| 0 <= j < k < cands.len() ==> cands[j].date != cands[k].date,
    ensures
        placed_from(cands, t).finite(),
        placed_from(cands, t).len() == cands.len() - t,
{
    let n = cands.len() as int;
    let f = |k: int| rank_spec(cands, k) as int;
    let hi = placed_from(cands, t);
    let lo = Set::new(|k: int| 0 <= k < n && rank_spec(cands, k) < t);
    let all = vstd::set_lib::set_int_range(0, n);
    vstd::set_lib::lemma_int_range(0, n);
    vstd::set_lib::lemma_int_range(t, n);
    vstd::set_lib::lemma_int_range(0, t);
    vstd::set_lib::lemma_len_subset(hi, all);
    vstd::set_lib::lemma_len_subset(lo, all);
    assert forall|a: int, b: int| all.contains(a) && all.contains(b) && #[trigger] f(a) == #[trigger] f(b)
        implies a == b by {
        if a != b {
            if a < b {
                lemma_ranks_distinct(cands, a, b);
            } else {
                lemma_ranks_distinct(cands, b, a);
            }
        }
    }
    assert forall|k: int| 0 <= k < n implies rank_spec(cands, k) < n by {
        lemma_count_bound(cands, cands[k], n, k);
    }
    let hi_img = hi.map(f);
    let lo_img = lo.map(f);
    assert(vstd::relations::injective_on(f, hi));
    assert(vstd::relations::injective_on(f, lo));
    vstd::set_lib::lemma_map_size(hi, hi_img, f);
    vstd::set_lib::lemma_map_size(lo, lo_img, f);
    assert(hi_img.subset_of(vstd::set_lib::set_int_range(t, n)));
    assert(lo_img.subset_of(vstd::set_lib::set_int_range(0, t)));
    vstd::set_lib::lemma_len_subset(hi_img, vstd::set_lib::set_int_range(t, n));
    vstd::set_lib::lemma_len_subset(lo_img, vstd::set_lib::set_int_range(0, t));
    assert(hi + lo =~= all);
    assert(hi.disjoint(lo));
    vstd::set_lib::lemma_set_disjoint_lens(hi, lo);
}

/// The days among the first `m` candidates that carry events.
pub open spec fn selected_before(cands: Seq<BulkDayCandidate>, zero: nat, m: int) -> Set<int> {
    Set::new(|k: int| 0 <= k < m && day_selected(cands, zero, k))
}

proof fn lemma_prefix_len_counts(cands: Seq<BulkDayCandidate>, zero: nat, m: int)
    requires
        0 <= m <= cands.len(),
    ensures
        selected_before(cands, zero, m).finite(),
        schedule_prefix(cands, zero, m).len() == selected_before(cands, zero, m).len(),
    decreases m,
{
    let sm = selected_before(cands, zero, m);
    if m == 0 {
        assert(sm =~= Set::empty());
    } else {
        lemma_prefix_len_counts(cands, zero, m - 1);
        let sp = selected_before(cands, zero, m - 1);
        if day_selected(cands, zero, m - 1) {
            assert(sm =~= sp.insert(m - 1));
        } else {
            assert(sm =~= sp);
        }
    }
}

proof fn lemma_prefix_sorted(cands: Seq<BulkDayCandidate>, zero: nat, start: int, m: int)
    requires
        0 <= m <= cands.len(),
        forall|k: int| 0 <= k < cands.len() ==> #[trigger] cands[k].date == start + k,
    ensures
        forall|i: int| 0 <= i < schedule_prefix(cands, zero, m).len()
            ==> #[trigger] schedule_prefix(cands, zero, m)[i].date < start + m,
        forall|i: int, j: int| 0 <= i < j < schedule_prefix(cands, zero, m).len()
            ==> schedule_prefix(cands, zero, m)[i].date < schedule_prefix(cands, zero, m)[j].date,
    decreases m,
{
    if m > 0 {
        lemma_prefix_sorted(cands, zero, start, m - 1);
        let p = schedule_prefix(cands, zero, m - 1);
        assert(cands[m - 1].date == start + m - 1);
        if day_selected(cands, zero, m - 1) {
            let q = schedule_prefix(cands, zero, m);
            assert forall|i: int| 0 <= i < q.len() implies #[trigger] q[i].date < start + m by {
                if i < p.len() {
                    assert(q[i] == p[i]);
                }
            }
        }
    }
}

/// About four fifths of a span carry events: a span of `days` days has
/// exactly `days - zero_day_count(days)` event days, listed in increasing
/// date order.
pub proof fn lemma_schedule_day_count(s: u64, start: i64, days: u32)
    requires
        days >= 1,
        span_in_range(start, days),
    ensures
        schedule_spec(s, start, days).len() == days - zero_day_count(days),
        forall|i: int, j: int| 0 <= i < j < schedule_spec(s, start, days).len()
            ==> schedule_spec(s, start, days)[i].date < schedule_spec(s, start, days)[j].date,
{
    let cands = candidates_spec(s, start, days);
    let zero = zero_day_count(days);
    let n = days as int;
    let end = n - 1;
    assert forall|k: int| 0 <= k < cands.len() implies #[trigger] cands[k].date == start + k by {
        assert(cands[k] == candidate_spec(s, start, k));
    }
    lemma_prefix_sorted(cands, zero, start as int, n);
    lemma_prefix_len_counts(cands, zero, n);
    let sel = selected_before(cands, zero, n);
    if rank_spec(cands, end) >= zero {
        lemma_placed_from_len(cands, zero as int);
        assert(sel =~= placed_from(cands, zero as int));
    } else {
        lemma_placed_from_len(cands, zero + 1int);
        let above = placed_from(cands, zero + 1int);
        assert(sel =~= above.insert(end));
        assert(!above.contains(end));
    }
}

/// The total weight of a schedule.
pub open spec fn total_weight(days: Seq<WeightedBulkDay>) -> nat
    decreases days.len(),
{
    if days.len() == 0 {
        0
    } else {
        total_weight(days.drop_last()) + days.last().weight as nat
    }
}

/// The day a draw `r` below the total weight lands on: the first day whose
/// cumulative weight exceeds it.
pub open spec fn pick_day(days: Seq<WeightedBulkDay>, r: int) -> Option<i64>
    decreases days.len(),
{
    if days.len() == 0 {
        None
    } else if r < days[0].weight {
        Some(days[0].date)
    } else {
        pick_day(days.drop_first(), r - days[0].weight)
    }
}

/// The day drawn from a schedule by a generator in state `s`, and the
/// state after: one draw, reduced modulo the total weight.
pub open spec fn weighted_day_spec(s: u64, days: Seq<WeightedBulkDay>) -> (i64, u64) {
    let total = total_weight(days);
    if total == 0 {
        (days.last().date, s)
    } else {
        let s1 = lcg_next(s);
        match pick_day(days, (s1 % (total as u64)) as int) {
            Some(d) => (d, s1),
            None => (days.last().date, s1),
        }
    }
}

proof fn lemma_total_weight_bound(days: Seq<WeightedBulkDay>)
    ensures
        total_weight(days) <= days.len() * 0xffff_ffff,
    decreases days.len(),
{
    if days.len() > 0 {
        lemma_total_weight_bound(days.drop_last());
    }
}

/// Draws a day from the schedule, weighted by the days' weights.
pub fn weighted_random_day(rng: &mut SeededRng, schedule: &BulkDaySchedule) -> (d: i64)
    requires
        schedule.wf(),
    ensures
        (d, final(rng)@) == weighted_day_spec(old(rng)@, schedule.days@),
{
    let ghost days = schedule.days@;
    let mut total: u64 = 0;
    let mut i: usize = 0;
    proof {
        lemma_total_weight_bound(days);
    }
    while i < schedule.days.len()
        invariant
            days == schedule.days@,
            rng@ == old(rng)@,
            days.len() <= u32::MAX,
            i <= days.len(),
            total == total_weight(days.subrange(0, i as int)),
            total <= i * 0xffff_ffff,
        decreases days.len() - i,
    {
        assert(days.subrange(0, i + 1).drop_last() =~= days.subrange(0, i as int));
        assert(total + days[i as int].weight <= (i + 1) * 0xffff_ffff) by (nonlinear_arith)
            requires total <= i * 0xffff_ffff, days[i as int].weight <= 0xffff_ffff;
        assert((i + 1) * 0xffff_ffff <= 0xffff_ffff * 0xffff_ffff) by (nonlinear_arith)
            requires i + 1 <= 0xffff_ffff;
        total = total + schedule.days[i].weight as u64;
        i = i + 1;
    }
    assert(days.subrange(0, days.len() as int) =~= days);
    if total == 0 {
        return schedule.latest_date();
    }
    let r = rng.next_u64() % total;
    let mut remaining: u64 = r;
    let mut i: usize = 0;
    assert(days.subrange(0, days.len() as int) =~= days);
    while i < schedule.days.len()
        invariant
            days == schedule.days@,
            days.len() > 0,
            total == total_weight(days),
            total > 0,
            rng@ == lcg_next(old(rng)@),
            r == rng@ % total,
            i <= days.len(),
            pick_day(days, r as int) == pick_day(days.subrange(i as int, days.len() as int), remaining as int),
        decreases days.len() - i,
    {
        let w = schedule.days[i].weight as u64;
        let ghost rest = days.subrange(i as int, days.len() as int);
        assert(rest[0] == days[i as int]);
        if remaining < w {
            return schedule.days[i].date;
        }
        assert(rest.drop_first() =~= days.subrange(i + 1, days.len() as int));
        remaining = remaining - w;
        i = i + 1;
    }
    schedule.latest_date()
}

/// The hour an event is drawn at on a day, and the state after: a draw
/// below 100 picks office hours (three quarters of weekday events, 70% on
/// weekends), the evening (15%) or any hour, and a second draw picks the
/// hour within the band.
pub open spec fn event_hour_spec(s: u64, day: int) -> (u32, u64) {
    let s1 = lcg_next(s);
    let sample = s1 % 100;
    let s2 = lcg_next(s1);
    let hour = if weekday_from_monday(day) <= 5 {
        if sample <= 74 {
            9 + (s2 % 9) as int
        } else if sample <= 89 {
            18 + (s2 % 4) as int
        } else {
            (s2 % 24) as int
        }
    } else {
        if sample <= 69 {
            10 + (s2 % 8) as int
        } else if sample <= 84 {
            18 + (s2 % 3) as int
        } else {
            (s2 % 24) as int
        }
    };
    (hour as u32, s2)
}

/// Draws the hour of an event on a day.
pub fn realistic_event_hour(rng: &mut SeededRng, day: i64) -> (h: u32)
    requires
        MIN_DAY <= day <= MAX_DAY,
    ensures
        (h, final(rng)@) == event_hour_spec(old(rng)@, day as int),
        h < 24,
{
    let sample = rng.next_u32(100);
    let is_weekday = weekday_number(day) <= 5;
    if is_weekday {
        if sample <= 74 {
            9 + rng.next_u32(9)
        } else if sample <= 89 {
            18 + rng.next_u32(4)
        } else {
            rng.next_u32(24)
        }
    } else {
        if sample <= 69 {
            10 + rng.next_u32(8)
        } else if sample <= 84 {
            18 + rng.next_u32(3)
        } else {
            rng.next_u32(24)
        }
    }
}

/// The receipt instant drawn from a schedule, and the state after: a day,
/// an hour on it, then a minute and a second, in JST.
#[verifier::opaque]
pub open spec fn received_at_spec(s: u64, days: Seq<WeightedBulkDay>) -> (UtcTimestamp, u64) {
    let (day, s1) = weighted_day_spec(s, days);
    let (hour, s2) = event_hour_spec(s1, day as int);
    let s3 = lcg_next(s2);
    let s4 = lcg_next(s3);
    (
        UtcTimestamp {
            seconds: jst_instant_seconds(day as int, hour as int, (s3 % 60) as int, (s4 % 60) as int) as i64,
            nanos: 0,
        },
        s4,
    )
}

proof fn lemma_pick_day_in_schedule(days: Seq<WeightedBulkDay>, r: int)
    ensures
        pick_day(days, r) matches Some(d) ==> exists|i: int| 0 <= i < days.len() && days[i].date == d,
    decreases days.len(),
{
    if days.len() > 0 && r >= days[0].weight {
        lemma_pick_day_in_schedule(days.drop_first(), r - days[0].weight);
        if pick_day(days, r) is Some {
            let d = pick_day(days, r)->0;
            let i = choose|i: int| 0 <= i < days.drop_first().len() && days.drop_first()[i].date == d;
            assert(days[i + 1].date == d);
        }
    }
}

/// A drawn day is one of the schedule's days.
pub proof fn lemma_weighted_day_in_schedule(s: u64, days: Seq<WeightedBulkDay>)
    requires
        days.len() > 0,
    ensures
        exists|i: int| 0 <= i < days.len() && days[i].date == weighted_day_spec(s, days).0,
{
    let total = total_weight(days);
    if total > 0 {
        let s1 = lcg_next(s);
        lemma_pick_day_in_schedule(days, (s1 % (total as u64)) as int);
    }
    assert(days[days.len() - 1] == days.last());
}

/// Draws the receipt instant of an event from the schedule.
pub fn random_received_at_on_schedule(rng: &mut SeededRng, schedule: &BulkDaySchedule) -> (t: UtcTimestamp)
    requires
        schedule.wf(),
        schedule.after_first_day(),
    ensures
        (t, final(rng)@) == received_at_spec(old(rng)@, schedule.days@),
        t.valid(),
        t.nanos == 0,
        exists|i: int| 0 <= i < schedule.days@.len() && jst_day_spec(t.seconds as int) == #[trigger] schedule.days@[i].date,
{
    let day = weighted_random_day(rng, schedule);
    proof {
        lemma_weighted_day_in_schedule(old(rng)@, schedule.days@);
    }
    let hour = realistic_event_hour(rng, day);
    let minute = rng.next_u32(60);
    let second = rng.next_u32(60);
    proof {
        lemma_jst_day_of_instant(day as int, hour as int, minute as int, second as int);
        reveal(received_at_spec);
    }
    jst_datetime(day, hour, minute, second)
}

} // verus!
