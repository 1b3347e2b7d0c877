use crate::text::{
    decimal_digits, decimal_text, digit_char, labeled, lemma_decimal_digits_nonempty,
    lemma_digit_char_not_point, lemma_digits_hold_no_point,
};
use vstd::prelude::*;

verus! {

/// Half-even rounding of `num / den` to two decimal places, in hundredths.
pub open spec fn rounded_hundredths(num: nat, den: nat) -> nat
    recommends
        den > 0,
{
    let q = (num * 100) / den;
    let r = (num * 100) % den;
    if 2 * r > den {
        q + 1
    } else if 2 * r < den {
        q
    } else if q % 2 == 0 {
        q
    } else {
        q + 1
    }
}

/// Relies on bigdecimal: `BigDecimal` division of two integers, then
/// `with_scale_round(2, RoundingMode::HalfEven)`; the digits of a value of scale 2
/// are its hundredths. The division carries the quotient to 100 significant
/// digits, far more than a denominator below 2^128 needs for the rounding at two
/// places to come out as the exact quotient's.
#[verifier::external_body]
fn decimal_quotient_hundredths(num: u128, den: u128) -> (r: Option<u128>)
    requires
        den > 0,
        num <= u128::MAX / 100,
    ensures
        r == Some(rounded_hundredths(num as nat, den as nat) as u128),
{
    let q = bigdecimal::BigDecimal::from(num) / bigdecimal::BigDecimal::from(den);
    let (digits, _scale) = q.with_scale_round(2, bigdecimal::RoundingMode::HalfEven).into_bigint_and_exponent();
    bigdecimal::ToPrimitive::to_u128(&digits)
}


/// What one unit of work left behind: how long it took and whether it succeeded.
#[derive(Clone, Copy, Debug, PartialEq, Eq, Structural)]
pub struct Outcome {
    pub duration_ms: u64,
    pub success: bool,
}

/// A non-negative decimal with exactly two places, held as hundredths.
#[derive(Clone, Copy, Debug, PartialEq, Eq, Structural)]
pub struct Decimal2 {
    pub hundredths: u128,
}

/// Notation of a two-place decimal of `h` hundredths: whole part, point, two digits.
pub open spec fn fixed2_text(h: nat) -> Seq<char> {
    decimal_digits(h / 100) + seq!['.'] + seq![digit_char((h % 100) / 10), digit_char(h % 10)]
}

impl Decimal2 {
    /// The value written with exactly two decimal places.
    pub fn to_text(&self) -> (r: String)
        ensures
            r@ == fixed2_text(self.hundredths as nat),
    {
        let mut s = decimal_text(self.hundredths / 100);
        proof {
            reveal_strlit(".");
        }
        s.append(".");
        let frac = decimal_text(100 + self.hundredths % 100);
        assert(decimal_digits((100 + self.hundredths % 100) as nat) == seq![
            digit_char(1),
            digit_char(((self.hundredths % 100) / 10) as nat),
            digit_char((self.hundredths % 10) as nat),
        ]) by {
            let m = (self.hundredths % 100) as nat;
            let t = (100 + self.hundredths % 100) as nat;
            assert(t == 100 + m);
            assert(t / 10 == 10 + m / 10);
            assert((t / 10) % 10 == m / 10);
            assert((t / 10) / 10 == 1);
            assert(t % 10 == m % 10);
            assert(m % 10 == self.hundredths % 10);
            assert(decimal_digits(1) == seq![digit_char(1)]);
            assert(decimal_digits(t / 10) == decimal_digits(1).push(digit_char(m / 10)));
            assert(decimal_digits(t) == decimal_digits(t / 10).push(digit_char(m % 10)));
            assert(decimal_digits(t) =~= seq![digit_char(1), digit_char(m / 10), digit_char(m % 10)]);
        }
        let tail = frac.as_str().substring_char(1, 3);
        s.append(tail);
        s
    }
}

/// Number of failed outcomes.
pub open spec fn failures(s: Seq<Outcome>) -> nat
    decreases s.len(),
{
    if s.len() == 0 {
        0
    } else {
        failures(s.drop_last()) + if s.last().success {
            0nat
        } else {
            1nat
        }
    }
}

/// Number of successful outcomes.
pub open spec fn successes(s: Seq<Outcome>) -> nat
    decreases s.len(),
{
    if s.len() == 0 {
        0
    } else {
        successes(s.drop_last()) + if s.last().success {
            1nat
        } else {
            0nat
        }
    }
}

/// Sum of all durations.
pub open spec fn duration_total(s: Seq<Outcome>) -> nat
    decreases s.len(),
{
    if s.len() == 0 {
        0
    } else {
        duration_total(s.drop_last()) + s.last().duration_ms as nat
    }
}

/// Smallest duration; zero for no outcomes.
pub open spec fn shortest(s: Seq<Outcome>) -> nat
    decreases s.len(),
{
    if s.len() == 0 {
        0
    } else if s.len() == 1 {
        s[0].duration_ms as nat
    } else if (s.last().duration_ms as nat) < shortest(s.drop_last()) {
        s.last().duration_ms as nat
    } else {
        shortest(s.drop_last())
    }
}

/// Largest duration; zero for no outcomes.
pub open spec fn longest(s: Seq<Outcome>) -> nat
    decreases s.len(),
{
    if s.len() == 0 {
        0
    } else if (s.last().duration_ms as nat) > longest(s.drop_last()) {
        s.last().duration_ms as nat
    } else {
        longest(s.drop_last())
    }
}

/// Aggregate figures of a run.
#[derive(Clone, Copy, Debug)]
pub struct RunStats {
    pub total: u32,
    pub succeeded: u32,
    pub failed: u32,
    pub min_ms: u64,
    pub avg_ms: Decimal2,
    pub max_ms: u64,
    pub success_rate: Decimal2,
    pub throughput: Decimal2,
}

/// Mean duration in hundredths of a millisecond; zero when nothing ran.
pub open spec fn average_hundredths(s: Seq<Outcome>) -> nat {
    if s.len() == 0 {
        0
    } else {
        rounded_hundredths(duration_total(s), s.len())
    }
}

/// Percentage of successes in hundredths of a percent; zero when nothing ran.
pub open spec fn success_rate_hundredths(s: Seq<Outcome>) -> nat {
    if s.len() == 0 {
        0
    } else {
        rounded_hundredths(100 * successes(s), s.len())
    }
}

/// Outcomes per second over `elapsed_ms`, in hundredths; zero when nothing ran
/// or no time was measured.
pub open spec fn throughput_hundredths(count: nat, elapsed_ms: nat) -> nat {
    if count == 0 || elapsed_ms == 0 {
        0
    } else {
        rounded_hundredths(1000 * count, elapsed_ms)
    }
}

impl RunStats {
    /// The figures that `s`, dispatched over `elapsed_ms`, gives.
    pub open spec fn summarizes(self, s: Seq<Outcome>, elapsed_ms: nat) -> bool {
        &&& self.total == s.len()
        &&& self.succeeded == successes(s)
        &&& self.failed == failures(s)
        &&& self.min_ms == shortest(s)
        &&& self.max_ms == longest(s)
        &&& self.avg_ms.hundredths == average_hundredths(s)
        &&& self.success_rate.hundredths == success_rate_hundredths(s)
        &&& self.throughput.hundredths == throughput_hundredths(s.len(), elapsed_ms)
    }
}

/// Every outcome is either a success or a failure.
pub proof fn lemma_outcomes_partition(s: Seq<Outcome>)
    ensures
        successes(s) + failures(s) == s.len(),
    decreases s.len(),
{
    if s.len() > 0 {
        lemma_outcomes_partition(s.drop_last());
    }
}

/// The durations lie between the smallest and the largest one.
pub proof fn lemma_duration_bounds(s: Seq<Outcome>)
    ensures
        shortest(s) * s.len() <= duration_total(s) <= longest(s) * s.len(),
        duration_total(s) <= s.len() * (u64::MAX as nat),
        longest(s) <= u64::MAX,
        shortest(s) <= longest(s),
    decreases s.len(),
{
    if s.len() > 0 {
        let p = s.drop_last();
        lemma_duration_bounds(p);
        let d = s.last().duration_ms as nat;
        let n = p.len();
        if s.len() == 1 {
            assert(p.len() == 0);
        } else {
            let lo = shortest(s);
            let hi = longest(s);
            assert(lo <= shortest(p) && lo <= d);
            assert(hi >= longest(p) && hi >= d);
            assert(lo * n <= shortest(p) * n) by (nonlinear_arith)
                requires lo <= shortest(p);
            assert(longest(p) * n <= hi * n) by (nonlinear_arith)
                requires longest(p) <= hi;
            assert(lo * (n + 1) == lo * n + lo) by (nonlinear_arith);
            assert(hi * (n + 1) == hi * n + hi) by (nonlinear_arith);
        }
        assert((n + 1) * (u64::MAX as nat) == n * (u64::MAX as nat) + u64::MAX) by (nonlinear_arith);
    }
}

/// Rounding keeps a quotient between integer bounds.
pub proof fn lemma_rounding_between(num: nat, den: nat, lo: nat, hi: nat)
    requires
        den > 0,
        lo * den <= num <= hi * den,
    ensures
        lo * 100 <= rounded_hundredths(num, den) <= hi * 100,
{
    let q = (num * 100) / den;
    let r = (num * 100) % den;
    assert(num * 100 == q * den + r) by (nonlinear_arith)
        requires
            den > 0,
            q == (num * 100) / den,
            r == (num * 100) % den;
    assert(0 <= r < den);
    assert(lo * 100 * den <= num * 100) by (nonlinear_arith)
        requires lo * den <= num;
    assert(num * 100 <= hi * 100 * den) by (nonlinear_arith)
        requires num <= hi * den;
    assert(q >= lo * 100) by (nonlinear_arith)
        requires
            lo * 100 * den <= q * den + r,
            r < den,
            den > 0,
    ;
    assert(q <= hi * 100) by (nonlinear_arith)
        requires
            q * den + r <= hi * 100 * den,
            r >= 0,
            den > 0,
    ;
    if q == hi * 100 {
        assert(r == 0) by (nonlinear_arith)
            requires
                q * den + r <= hi * 100 * den,
                q == hi * 100,
                r >= 0,
        ;
    }
}

/// For a non-empty batch the smallest duration, the mean and the largest
/// duration come in that order.
pub proof fn lemma_average_between_extremes(s: Seq<Outcome>)
    requires
        s.len() > 0,
    ensures
        shortest(s) * 100 <= average_hundredths(s) <= longest(s) * 100,
{
    lemma_duration_bounds(s);
    lemma_rounding_between(duration_total(s), s.len(), shortest(s), longest(s));
}

/// The success rate lies between 0 and 100 percent.
pub proof fn lemma_success_rate_bounded(s: Seq<Outcome>)
    ensures
        success_rate_hundredths(s) <= 10000,
{
    if s.len() > 0 {
        lemma_outcomes_partition(s);
        assert(100 * successes(s) <= 100 * s.len());
        lemma_rounding_between(100 * successes(s), s.len(), 0, 100);
    }
}

/// Successes and failures of a run add up to its total.
pub proof fn lemma_run_counts_add_up(r: RunStats, s: Seq<Outcome>, elapsed_ms: nat)
    requires
        r.summarizes(s, elapsed_ms),
    ensures
        r.succeeded + r.failed == r.total,
{
    lemma_outcomes_partition(s);
}

/// In a run with outcomes, the minimum, the mean and the maximum duration come
/// in that order.
pub proof fn lemma_run_average_between_extremes(r: RunStats, s: Seq<Outcome>, elapsed_ms: nat)
    requires
        r.summarizes(s, elapsed_ms),
        s.len() > 0,
    ensures
        r.min_ms * 100 <= r.avg_ms.hundredths <= r.max_ms * 100,
{
    lemma_average_between_extremes(s);
}

/// A run's success rate lies between 0 and 100 percent.
pub proof fn lemma_run_success_rate_bounded(r: RunStats, s: Seq<Outcome>, elapsed_ms: nat)
    requires
        r.summarizes(s, elapsed_ms),
    ensures
        r.success_rate.hundredths <= 10000,
{
    lemma_success_rate_bounded(s);
}

/// A run without outcomes reports every figure as zero.
pub proof fn lemma_empty_run_is_zero(r: RunStats, elapsed_ms: nat)
    requires
        r.summarizes(Seq::<Outcome>::empty(), elapsed_ms),
    ensures
        r.total == 0 && r.succeeded == 0 && r.failed == 0,
        r.min_ms == 0 && r.max_ms == 0,
        r.avg_ms.hundredths == 0 && r.success_rate.hundredths == 0 && r.throughput.hundredths == 0,
{
}

/// A two-place decimal is written with exactly two digits after its point.
pub proof fn lemma_two_places(h: nat)
    ensures
        fixed2_text(h).len() >= 4,
        fixed2_text(h)[fixed2_text(h).len() - 3] == '.',
        forall|i: int|
            0 <= i < fixed2_text(h).len() && i != fixed2_text(h).len() - 3 ==> #[trigger] fixed2_text(h)[i] != '.',
{
    lemma_decimal_digits_nonempty(h / 100);
    lemma_digits_hold_no_point(h / 100);
    lemma_digit_char_not_point((h % 100) / 10);
    lemma_digit_char_not_point(h % 10);
    let w = decimal_digits(h / 100);
    let t = fixed2_text(h);
    assert(t.len() == w.len() + 3);
    assert forall|i: int| 0 <= i < t.len() && i != t.len() - 3 implies #[trigger] t[i] != '.' by {
        if i < w.len() {
            assert(t[i] == w[i]);
        }
    }
}

/// Counts and sums of two batches taken together.
pub proof fn lemma_concat_totals(a: Seq<Outcome>, b: Seq<Outcome>)
    ensures
        failures(a + b) == failures(a) + failures(b),
        successes(a + b) == successes(a) + successes(b),
        duration_total(a + b) == duration_total(a) + duration_total(b),
        longest(a + b) == if longest(a) >= longest(b) {
            longest(a)
        } else {
            longest(b)
        },
        shortest(a + b) == if a.len() == 0 {
            shortest(b)
        } else if b.len() == 0 {
            shortest(a)
        } else if shortest(a) <= shortest(b) {
            shortest(a)
        } else {
            shortest(b)
        },
    decreases b.len(),
{
    if b.len() == 0 {
        assert(a + b == a);
    } else {
        lemma_concat_totals(a, b.drop_last());
        assert((a + b).drop_last() == a + b.drop_last());
        assert((a + b).last() == b.last());
        if a.len() == 0 {
            assert(a + b == b);
        } else if b.len() == 1 {
            assert(b.drop_last().len() == 0);
            assert(a + b.drop_last() == a);
        }
    }
}

/// The figures of a run do not depend on the order in which two batches were
/// recorded.
pub proof fn lemma_batch_order(a: Seq<Outcome>, b: Seq<Outcome>, r: RunStats, elapsed_ms: nat)
    ensures
        r.summarizes(a + b, elapsed_ms) <==> r.summarizes(b + a, elapsed_ms),
{
    lemma_concat_totals(a, b);
    lemma_concat_totals(b, a);
}

/// Folds outcomes, one at a time, into run figures.
pub struct StatsAggregator {
    total: u32,
    succeeded: u32,
    failed: u32,
    sum_ms: u128,
    min_ms: u64,
    max_ms: u64,
    seen: Ghost<Seq<Outcome>>,
}

impl View for StatsAggregator {
    type V = Seq<Outcome>;

    closed spec fn view(&self) -> Seq<Outcome> {
        self.seen@
    }
}

impl StatsAggregator {
    /// The counters agree with the outcomes recorded so far.
    pub closed spec fn wf(&self) -> bool {
        &&& self.total == self.seen@.len()
        &&& self.succeeded == successes(self.seen@)
        &&& self.failed == failures(self.seen@)
        &&& self.sum_ms == duration_total(self.seen@)
        &&& self.min_ms == shortest(self.seen@)
        &&& self.max_ms == longest(self.seen@)
    }

    pub fn new() -> (r: StatsAggregator)
        ensures
            r.wf(),
            r@ == Seq::<Outcome>::empty(),
    {
        StatsAggregator {
            total: 0,
            succeeded: 0,
            failed: 0,
            sum_ms: 0,
            min_ms: 0,
            max_ms: 0,
            seen: Ghost(Seq::empty()),
        }
    }

    /// Number of outcomes recorded.
    pub fn count(&self) -> (r: u32)
        requires
            self.wf(),
        ensures
            r == self@.len(),
    {
        self.total
    }

    /// Adds one outcome.
    pub fn record(&mut self, o: Outcome)
        requires
            old(self).wf(),
            old(self)@.len() < u32::MAX,
        ensures
            final(self).wf(),
            final(self)@ == old(self)@.push(o),
    {
        let ghost s = self.seen@;
        let ghost t = s.push(o);
        assert(t.drop_last() == s);
        proof {
            lemma_outcomes_partition(s);
            lemma_duration_bounds(s);
            assert(s.len() * (u64::MAX as nat) <= (u32::MAX as nat) * (u64::MAX as nat)) by (nonlinear_arith)
                requires s.len() <= u32::MAX;
        }
        if self.total == 0 || o.duration_ms < self.min_ms {
            self.min_ms = o.duration_ms;
        }
        if o.duration_ms > self.max_ms {
            self.max_ms = o.duration_ms;
        }
        if o.success {
            self.succeeded = self.succeeded + 1;
        } else {
            self.failed = self.failed + 1;
        }
        self.total = self.total + 1;
        self.sum_ms = self.sum_ms + o.duration_ms as u128;
        self.seen = Ghost(t);
    }

    /// The run figures of the outcomes recorded, dispatched over `elapsed_ms`.
    pub fn summary(&self, elapsed_ms: u64) -> (r: RunStats)
        requires
            self.wf(),
        ensures
            r.summarizes(self@, elapsed_ms as nat),
    {
        let ghost s = self.seen@;
        proof {
            lemma_outcomes_partition(s);
            lemma_duration_bounds(s);
            assert(s.len() * (u64::MAX as nat) <= (u32::MAX as nat) * (u64::MAX as nat)) by (nonlinear_arith)
                requires s.len() <= u32::MAX;
        }
        let zero = Decimal2 { hundredths: 0 };
        if self.total == 0 {
            return RunStats {
                total: 0,
                succeeded: 0,
                failed: 0,
                min_ms: 0,
                avg_ms: zero,
                max_ms: 0,
                success_rate: zero,
                throughput: zero,
            };
        }
        let total = self.total as u128;
        let avg = decimal_quotient_hundredths(self.sum_ms, total);
        let rate = decimal_quotient_hundredths(100 * self.succeeded as u128, total);
        let avg_ms = Decimal2 { hundredths: avg.unwrap() };
        let success_rate = Decimal2 { hundredths: rate.unwrap() };
        let throughput = if elapsed_ms == 0 {
            zero
        } else {
            let rps = decimal_quotient_hundredths(1000 * total, elapsed_ms as u128);
            Decimal2 { hundredths: rps.unwrap() }
        };
        RunStats {
            total: self.total,
            succeeded: self.succeeded,
            failed: self.failed,
            min_ms: self.min_ms,
            avg_ms,
            max_ms: self.max_ms,
            success_rate,
            throughput,
        }
    }
}

impl StatsAggregator {
    /// Adds the outcomes of a whole batch, in order.
    pub fn record_batch(&mut self, batch: &Vec<Outcome>)
        requires
            old(self).wf(),
            old(self)@.len() + batch@.len() < u32::MAX,
        ensures
            final(self).wf(),
            final(self)@ == old(self)@ + batch@,
    {
        let ghost start = self@;
        let mut i: usize = 0;
        while i < batch.len()
            invariant
                i <= batch@.len(),
                start.len() + batch@.len() < u32::MAX,
                self.wf(),
                self@ == start + batch@.subrange(0, i as int),
            decreases batch@.len() - i,
        {
            self.record(batch[i]);
            assert(batch@.subrange(0, i as int).push(batch@[i as int]) == batch@.subrange(0, i + 1));
            i = i + 1;
        }
        assert(batch@.subrange(0, i as int) == batch@);
    }
}

/// The run figures of `outcomes`, dispatched over `elapsed_ms`.
pub fn aggregate(outcomes: &Vec<Outcome>, elapsed_ms: u64) -> (r: RunStats)
    requires
        outcomes@.len() < u32::MAX,
    ensures
        r.summarizes(outcomes@, elapsed_ms as nat),
{
    let mut acc = StatsAggregator::new();
    acc.record_batch(outcomes);
    assert(Seq::<Outcome>::empty() + outcomes@ == outcomes@);
    acc.summary(elapsed_ms)
}

/// A batch in which a single unit failed counts exactly one failure, and every
/// other unit as a success.
pub proof fn lemma_single_failure(s: Seq<Outcome>, k: int)
    requires
        0 <= k < s.len(),
        !s[k].success,
        forall|j: int| 0 <= j < s.len() && j != k ==> #[trigger] s[j].success,
    ensures
        failures(s) == 1,
        successes(s) == s.len() - 1,
    decreases s.len(),
{
    lemma_outcomes_partition(s);
    if k == s.len() - 1 {
        lemma_no_failures(s.drop_last());
    } else {
        lemma_single_failure(s.drop_last(), k);
    }
}

/// A batch without failed units counts no failure.
pub proof fn lemma_no_failures(s: Seq<Outcome>)
    requires
        forall|j: int| 0 <= j < s.len() ==> #[trigger] s[j].success,
    ensures
        failures(s) == 0,
    decreases s.len(),
{
    if s.len() > 0 {
        lemma_no_failures(s.drop_last());
    }
}

impl RunStats {
    /// The report's lines: each figure under its label, durations in
    /// milliseconds, `run_ms` the duration of the whole run.
    pub fn report_lines(&self, run_ms: u64) -> (r: Vec<String>)
        ensures
            r@.len() == 9,
            r@[0]@ == "Total requests: "@ + decimal_digits(self.total as nat),
            r@[1]@ == "Succeed: "@ + decimal_digits(self.succeeded as nat),
            r@[2]@ == "Failed: "@ + decimal_digits(self.failed as nat),
            r@[3]@ == "Success rate: "@ + fixed2_text(self.success_rate.hundredths as nat) + "%"@,
            r@[4]@ == "Min: "@ + decimal_digits(self.min_ms as nat) + " ms"@,
            r@[5]@ == "Avg: "@ + fixed2_text(self.avg_ms.hundredths as nat) + " ms"@,
            r@[6]@ == "Max: "@ + decimal_digits(self.max_ms as nat) + " ms"@,
            r@[7]@ == "Requests per second: "@ + fixed2_text(self.throughput.hundredths as nat),
            r@[8]@ == "Run duration: "@ + decimal_digits(run_ms as nat) + " ms"@,
    {
        proof {
            reveal_strlit("");
        }
        let mut lines: Vec<String> = Vec::new();
        lines.push(labeled("Total requests: ", decimal_text(self.total as u128).as_str(), ""));
        lines.push(labeled("Succeed: ", decimal_text(self.succeeded as u128).as_str(), ""));
        lines.push(labeled("Failed: ", decimal_text(self.failed as u128).as_str(), ""));
        lines.push(labeled("Success rate: ", self.success_rate.to_text().as_str(), "%"));
        lines.push(labeled("Min: ", decimal_text(self.min_ms as u128).as_str(), " ms"));
        lines.push(labeled("Avg: ", self.avg_ms.to_text().as_str(), " ms"));
        lines.push(labeled("Max: ", decimal_text(self.max_ms as u128).as_str(), " ms"));
        lines.push(labeled("Requests per second: ", self.throughput.to_text().as_str(), ""));
        lines.push(labeled("Run duration: ", decimal_text(run_ms as u128).as_str(), " ms"));
        assert(""@ == Seq::<char>::empty());
        lines
    }
}

} // verus!
