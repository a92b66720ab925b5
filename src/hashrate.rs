use vstd::prelude::*;

verus! {

/// A hash rate in thousandths of a hash per second.
#[derive(Clone, Copy, Debug, Default, PartialEq, Eq)]
pub struct Hashrate(pub u64);

/// Number of hash attempts between two samples of a worker's rate.
pub const HASH_PER_ROUND: u64 = 512;

/// The exponential moving average step: the mean of the old value and the new rate.
pub open spec fn ema(old_value: nat, rate: nat) -> nat {
    (old_value + rate) / 2
}

/// The value reached after `n` averaging steps toward a constant `rate`, from `start`.
pub open spec fn ema_iter(start: nat, rate: nat, n: nat) -> nat
    decreases n,
{
    if n == 0 {
        start
    } else {
        ema(ema_iter(start, rate, (n - 1) as nat), rate)
    }
}

/// `hashes` attempts over `elapsed_ms` milliseconds, in thousandths of a hash per second.
pub open spec fn rate_of(hashes: nat, elapsed_ms: nat) -> nat
    recommends
        elapsed_ms > 0,
{
    hashes * 1_000_000 / elapsed_ms
}

/// Folds one instantaneous rate into a rate by the moving-average rule.
pub fn ema_update(old_value: Hashrate, rate: Hashrate) -> (r: Hashrate)
    ensures
        r.0 == ema(old_value.0 as nat, rate.0 as nat),
{
    let half_old = old_value.0 / 2;
    let half_rate = rate.0 / 2;
    let carry = (old_value.0 % 2 + rate.0 % 2) / 2;
    Hashrate(half_old + half_rate + carry)
}

/// The rate of `hashes` attempts made in `elapsed_ms` milliseconds; `None` for an
/// empty window, in which no rate can be measured.
pub fn instant_rate(hashes: u64, elapsed_ms: u64) -> (r: Option<Hashrate>)
    ensures
        elapsed_ms == 0 ==> r.is_none(),
        elapsed_ms > 0 ==> r == Some(
            Hashrate(
                if rate_of(hashes as nat, elapsed_ms as nat) <= u64::MAX as nat {
                    rate_of(hashes as nat, elapsed_ms as nat) as u64
                } else {
                    u64::MAX
                },
            ),
        ),
{
    if elapsed_ms == 0 {
        return None;
    }
    let wide: u128 = (hashes as u128) * 1_000_000u128 / (elapsed_ms as u128);
    if wide <= u64::MAX as u128 {
        Some(Hashrate(wide as u64))
    } else {
        Some(Hashrate(u64::MAX))
    }
}


/// Sum of the rates held in `v`.
pub open spec fn sum_rates(v: Seq<Hashrate>) -> nat
    decreases v.len(),
{
    if v.len() == 0 {
        0
    } else {
        sum_rates(v.drop_last()) + v.last().0 as nat
    }
}

/// Per-worker rolling estimate of the hash rate, updated once per batch of attempts.
pub struct Sampler {
    pub value: Hashrate,
    pub window_start_ms: u64,
}

impl Sampler {
    pub open spec fn new_spec(now_ms: u64) -> Sampler {
        Sampler { value: Hashrate(0), window_start_ms: now_ms }
    }

    /// A sampler at rate zero whose first window opens at `now_ms`.
    pub fn new(now_ms: u64) -> (r: Sampler)
        ensures
            r == Sampler::new_spec(now_ms),
    {
        Sampler { value: Hashrate(0), window_start_ms: now_ms }
    }

    /// Closes the current window at `now_ms`, after `hashes` attempts: the rate over the
    /// window is folded into the estimate and a new window opens. A window of no length
    /// (or a clock that went back) measures nothing and leaves the estimate as it was.
    pub fn sample(&mut self, hashes: u64, now_ms: u64) -> (r: Hashrate)
        ensures
            final(self).window_start_ms == now_ms,
            r == final(self).value,
            now_ms > old(self).window_start_ms ==> final(self).value.0 == ema(
                old(self).value.0 as nat,
                instant_rate_spec(hashes, (now_ms - old(self).window_start_ms) as u64) as nat,
            ),
            now_ms <= old(self).window_start_ms ==> final(self).value == old(self).value,
    {
        let elapsed: u64 = if now_ms > self.window_start_ms {
            now_ms - self.window_start_ms
        } else {
            0
        };
        match instant_rate(hashes, elapsed) {
            Some(rate) => {
                self.value = ema_update(self.value, rate);
            },
            None => {},
        }
        self.window_start_ms = now_ms;
        self.value
    }
}

/// The rate that `instant_rate` measures over a window of non-zero length, capped to `u64`.
pub open spec fn instant_rate_spec(hashes: u64, elapsed_ms: u64) -> u64 {
    if rate_of(hashes as nat, elapsed_ms as nat) <= u64::MAX as nat {
        rate_of(hashes as nat, elapsed_ms as nat) as u64
    } else {
        u64::MAX
    }
}

/// Interval between two reports of the total rate, in milliseconds.
pub const REPORT_INTERVAL_MS: u64 = 30_000;

/// What the aggregator emits once a reporting interval has passed.
pub struct Report {
    /// Sum of all slots, in thousandths of a hash per second.
    pub total: u128,
    /// Each worker slot at the time of the report.
    pub slots: Vec<Hashrate>,
}

/// Collects the latest sample of each worker and periodically reports their sum.
pub struct HashrateBoard {
    slots: Vec<Hashrate>,
    last_report_ms: u64,
}

impl HashrateBoard {
    pub closed spec fn slots_view(&self) -> Seq<Hashrate> {
        self.slots@
    }

    pub closed spec fn last_report(&self) -> u64 {
        self.last_report_ms
    }

    /// One slot at rate zero for each of `threads` workers; the first interval opens at `now_ms`.
    pub fn new(threads: usize, now_ms: u64) -> (r: HashrateBoard)
        ensures
            r.slots_view() == Seq::new(threads as nat, |i: int| Hashrate(0)),
            r.last_report() == now_ms,
    {
        let mut slots: Vec<Hashrate> = Vec::new();
        let mut i: usize = 0;
        while i < threads
            invariant
                i <= threads,
                slots@ == Seq::new(i as nat, |j: int| Hashrate(0)),
            decreases threads - i,
        {
            slots.push(Hashrate(0));
            i = i + 1;
            assert(slots@ =~= Seq::new(i as nat, |j: int| Hashrate(0)));
        }
        HashrateBoard { slots, last_report_ms: now_ms }
    }

    /// The latest rate of each worker slot.
    pub fn slots(&self) -> (r: &Vec<Hashrate>)
        ensures
            r@ == self.slots_view(),
    {
        &self.slots
    }

    /// Sum of all slots.
    pub fn total(&self) -> (r: u128)
        ensures
            r as nat == sum_rates(self.slots_view()),
    {
        let mut acc: u128 = 0;
        let mut i: usize = 0;
        while i < self.slots.len()
            invariant
                i <= self.slots@.len(),
                acc as nat == sum_rates(self.slots@.subrange(0, i as int)),
                acc as nat <= i as nat * (u64::MAX as nat),
            decreases self.slots@.len() - i,
        {
            let ghost prefix = self.slots@.subrange(0, i as int + 1);
            assert(prefix.drop_last() =~= self.slots@.subrange(0, i as int));
            assert(acc + self.slots[i as int].0 <= (i as nat + 1) * (u64::MAX as nat)) by (nonlinear_arith)
                requires
                    acc as nat <= i as nat * (u64::MAX as nat),
                    self.slots[i as int].0 <= u64::MAX,
            ;
            assert((i as nat + 1) * (u64::MAX as nat) <= u128::MAX) by (nonlinear_arith)
                requires
                    i < usize::MAX,
            ;
            acc = acc + self.slots[i].0 as u128;
            i = i + 1;
        }
        assert(self.slots@.subrange(0, i as int) =~= self.slots@);
        acc
    }

    /// Stores `rate` as the latest sample of `worker_id` (a sample of a worker without a
    /// slot is dropped), then, if more than the reporting interval has passed since the
    /// last report, reports the sum of all slots and opens a new interval at `now_ms`.
    pub fn record(&mut self, worker_id: u32, rate: Hashrate, now_ms: u64) -> (r: Option<Report>)
        ensures
            final(self).slots_view() == (if (worker_id as int) < old(self).slots_view().len() {
                old(self).slots_view().update(worker_id as int, rate)
            } else {
                old(self).slots_view()
            }),
            report_due(old(self).last_report(), now_ms) ==> r is Some && r->0.total as nat
                == sum_rates(final(self).slots_view()) && r->0.slots@ == final(self).slots_view()
                && final(self).last_report() == now_ms,
            !report_due(old(self).last_report(), now_ms) ==> r is None && final(self).last_report()
                == old(self).last_report(),
    {
        if (worker_id as usize) < self.slots.len() {
            self.slots.set(worker_id as usize, rate);
        }
        if now_ms > self.last_report_ms && now_ms - self.last_report_ms > REPORT_INTERVAL_MS {
            self.last_report_ms = now_ms;
            let total = self.total();
            let slots = self.slots.clone();
            Some(Report { total, slots })
        } else {
            None
        }
    }
}

/// A report is due once strictly more than the reporting interval has passed.
pub open spec fn report_due(last_ms: u64, now_ms: u64) -> bool {
    now_ms > last_ms && now_ms - last_ms > REPORT_INTERVAL_MS
}


/// Number of unit prefixes above the plain unit (k, M, G, T, P, E, Z, Y).
pub const UNIT_COUNT: usize = 8;

/// A rate in thousandths, brought to the largest unit (each a thousand times the last,
/// at most `UNIT_COUNT` steps up) at which it does not exceed a thousand: the scaled
/// value in thousandths of that unit, and the number of steps taken.
pub open spec fn scaled(milli: nat, unit: nat) -> (nat, nat)
    decreases UNIT_COUNT - unit,
{
    if unit < UNIT_COUNT && milli > 1_000_000 {
        scaled(milli / 1000, unit + 1)
    } else {
        (milli, unit)
    }
}

/// Brings a rate given in thousandths to a displayable unit, as `scaled` describes.
pub fn scale_rate(milli: u128) -> (r: (u128, usize))
    ensures
        (r.0 as nat, r.1 as nat) == scaled(milli as nat, 0),
        r.1 <= UNIT_COUNT,
{
    let mut value = milli;
    let mut unit: usize = 0;
    while unit < UNIT_COUNT && value > 1_000_000
        invariant
            unit <= UNIT_COUNT,
            scaled(value as nat, unit as nat) == scaled(milli as nat, 0),
        decreases UNIT_COUNT - unit,
    {
        value = value / 1000;
        unit = unit + 1;
    }
    (value, unit)
}

/// `2` to the power `n`.
pub open spec fn two_pow(n: nat) -> nat
    decreases n,
{
    if n == 0 {
        1
    } else {
        2 * two_pow((n - 1) as nat)
    }
}

proof fn lemma_ema_gap(rate: nat, n: nat)
    ensures
        ema_iter(0, rate, n) <= ema_iter(0, rate, n + 1),
        ema_iter(0, rate, n + 1) <= rate,
        ((rate - ema_iter(0, rate, n)) as nat) * two_pow(n) <= rate + two_pow(n) - 1,
        two_pow(n) >= 1,
    decreases n,
{
    if n > 0 {
        lemma_ema_gap(rate, (n - 1) as nat);
    }
    let v = ema_iter(0, rate, n);
    let g = (rate - v) as nat;
    let p = two_pow(n);
    assert(ema_iter(0, rate, n + 1) == (v + rate) / 2);
    if n > 0 {
        let pv = ema_iter(0, rate, (n - 1) as nat);
        let pg = (rate - pv) as nat;
        let pp = two_pow((n - 1) as nat);
        assert(v == (pv + rate) / 2);
        assert(g == (pg + 1) / 2);
        assert(p == 2 * pp);
        assert(g * p <= rate + p - 1) by (nonlinear_arith)
            requires
                g == (pg + 1) / 2,
                p == 2 * pp,
                pg * pp <= rate + pp - 1,
                pp >= 1,
        ;
    } else {
        assert(v == 0 && p == 1);
        assert(g * p == g) by (nonlinear_arith)
            requires
                p == 1,
        ;
    }
}

/// Fed a constant rate from zero, the moving average never decreases and never
/// passes the rate.
pub proof fn lemma_ema_monotone(rate: nat, n: nat)
    ensures
        ema_iter(0, rate, n) <= ema_iter(0, rate, n + 1),
        ema_iter(0, rate, n + 1) <= rate,
{
    lemma_ema_gap(rate, n);
}

/// Fed a constant rate from zero, the moving average is within one percent of the rate
/// after ten updates. With whole thousandths, rates from 1 to 99 stay one unit short
/// of the rate, which is more than one percent of it.
pub proof fn lemma_ema_within_one_percent(rate: nat)
    requires
        rate == 0 || rate >= 100,
    ensures
        100 * ((rate - ema_iter(0, rate, 10)) as nat) <= rate,
{
    lemma_ema_gap(rate, 10);
    lemma_ema_gap(rate, 9);
    reveal_with_fuel(two_pow, 11);
    assert(two_pow(10) == 1024);
    let g = (rate - ema_iter(0, rate, 10)) as nat;
    assert(100 * g <= rate) by (nonlinear_arith)
        requires
            g * 1024 <= rate + 1023,
            rate == 0 || rate >= 100,
    ;
}

} // verus!
