use vstd::prelude::*;

use crate::probe::ProbeResult;

verus! {

/// Sum of the samples.
pub open spec fn sum_of(s: Seq<u32>) -> int
    decreases s.len(),
{
    if s.len() == 0 {
        0
    } else {
        sum_of(s.drop_last()) + s.last()
    }
}

/// Sum of the squared samples.
pub open spec fn sum_sq_of(s: Seq<u32>) -> int
    decreases s.len(),
{
    if s.len() == 0 {
        0
    } else {
        sum_sq_of(s.drop_last()) + s.last() * s.last()
    }
}

/// Sum of the squared distances of the samples from `x`.
pub open spec fn spread_of(s: Seq<u32>, x: int) -> int
    decreases s.len(),
{
    if s.len() == 0 {
        0
    } else {
        spread_of(s.drop_last(), x) + (s.last() - x) * (s.last() - x)
    }
}

/// Mean of the samples, rounded down; zero for no samples.
pub open spec fn average_of(s: Seq<u32>) -> int {
    if s.len() == 0 {
        0
    } else {
        sum_of(s) / (s.len() as int)
    }
}

/// Sample variance (divided by `n - 1`), rounded down; zero below two samples.
pub open spec fn variance_of(s: Seq<u32>) -> int {
    let n = s.len() as int;
    if n < 2 {
        0
    } else {
        (n * sum_sq_of(s) - sum_of(s) * sum_of(s)) / (n * (n - 1))
    }
}

/// Whether `d` is the integer square root of `v`.
pub open spec fn is_isqrt(d: int, v: int) -> bool {
    d >= 0 && d * d <= v && v < (d + 1) * (d + 1)
}

/// Lost share of the sent probes in hundredths of a percent, rounded up, so
/// that this value is above zero whenever anything was lost; zero before
/// anything was sent.
pub open spec fn loss_bp_of(lost: nat, sent: nat) -> int {
    if sent == 0 {
        0
    } else {
        (10000 * lost + sent - 1) as int / (sent as int)
    }
}

/// Lost share of the sent probes in tenths of a percent, rounded to the
/// nearest tenth (half up): the figure that is shown with one decimal. A
/// loss below a twentieth of a percent shows as zero.
pub open spec fn loss_tenths_of(lost: nat, sent: nat) -> int {
    if sent == 0 {
        0
    } else {
        (2000 * lost + sent) as int / ((2 * sent) as int)
    }
}

pub proof fn lemma_sums_bounded(s: Seq<u32>)
    ensures
        0 <= sum_of(s) <= s.len() * (u32::MAX as int),
        0 <= sum_sq_of(s) <= s.len() * ((u32::MAX as int) * (u32::MAX as int)),
    decreases s.len(),
{
    if s.len() > 0 {
        lemma_sums_bounded(s.drop_last());
        let x = s.last() as int;
        assert(0 <= x * x <= (u32::MAX as int) * (u32::MAX as int)) by (nonlinear_arith)
            requires
                0 <= x <= u32::MAX as int,
        ;
    }
}

pub proof fn lemma_spread(s: Seq<u32>, x: int)
    ensures
        spread_of(s, x) >= 0,
        spread_of(s, x) == sum_sq_of(s) - 2 * x * sum_of(s) + s.len() * x * x,
    decreases s.len(),
{
    if s.len() > 0 {
        let t = s.drop_last();
        lemma_spread(t, x);
        let l = s.last() as int;
        let n = t.len() as int;
        assert((l - x) * (l - x) >= 0) by (nonlinear_arith);
        assert(spread_of(t, x) + (l - x) * (l - x) == (sum_sq_of(t) + l * l) - 2 * x * (sum_of(t)
            + l) + (n + 1) * x * x) by (nonlinear_arith)
            requires
                spread_of(t, x) == sum_sq_of(t) - 2 * x * sum_of(t) + n * x * x,
        ;
    }
}

/// The sum of the samples squared never exceeds `n` times the sum of their squares.
pub proof fn lemma_cauchy_schwarz(s: Seq<u32>)
    ensures
        sum_of(s) * sum_of(s) <= s.len() * sum_sq_of(s),
    decreases s.len(),
{
    if s.len() > 0 {
        let t = s.drop_last();
        lemma_cauchy_schwarz(t);
        let x = s.last() as int;
        lemma_spread(t, x);
        let n = t.len() as int;
        let a = sum_of(t);
        let q = sum_sq_of(t);
        assert((a + x) * (a + x) <= (n + 1) * (q + x * x)) by (nonlinear_arith)
            requires
                a * a <= n * q,
                q - 2 * x * a + n * x * x >= 0,
        ;
    }
}

/// The rounded-down variance from the quotient `q` and remainder `r` of the
/// sum by the count: with `a = Q - S*q - q*r` and `c` the rounded-up
/// `r*r / n`, it is `(a - c) / (n - 1)`, and every part stays small.
pub proof fn lemma_variance_parts(n: int, sum: int, sq: int, q: int, r: int, a: int, c: int)
    requires
        n >= 2,
        sum == n * q + r,
        0 <= r < n,
        a == sq - sum * q - q * r,
        c == (r * r + n - 1) / n,
        n * sq - sum * sum >= 0,
    ensures
        0 <= c <= a,
        (n * sq - sum * sum) / (n * (n - 1)) == (a - c) / (n - 1),
{
    assert(n * sq - sum * sum == n * a - r * r) by (nonlinear_arith)
        requires
            sum == n * q + r,
            a == sq - sum * q - q * r,
    ;
    let t = (r * r + n - 1) % n;
    assert(r * r + n - 1 == n * c + t && 0 <= t < n) by (nonlinear_arith)
        requires
            c == (r * r + n - 1) / n,
            t == (r * r + n - 1) % n,
            n > 0,
    ;
    let e = n * c - r * r;
    assert(0 <= e <= n - 1);
    assert(r * r >= 0) by (nonlinear_arith);
    assert(0 <= c <= a) by (nonlinear_arith)
        requires
            n * c == r * r + e,
            0 <= e <= n - 1,
            r * r >= 0,
            n * a - r * r >= 0,
            n >= 2,
    ;
    let b = a - c;
    let k = b / (n - 1);
    let m = b % (n - 1);
    assert(b == (n - 1) * k + m && 0 <= m < n - 1) by (nonlinear_arith)
        requires
            k == b / (n - 1),
            m == b % (n - 1),
            n >= 2,
    ;
    let x = n * a - r * r;
    assert(x == k * (n * (n - 1)) + (n * m + e) && 0 <= n * m + e < n * (n - 1))
        by (nonlinear_arith)
        requires
            x == n * a - r * r,
            n * c == r * r + e,
            b == a - c,
            b == (n - 1) * k + m,
            0 <= m < n - 1,
            0 <= e <= n - 1,
            n >= 2,
    ;
    vstd::arithmetic::div_mod::lemma_fundamental_div_mod_converse(x, n * (n - 1), k, n * m + e);
}

/// Integer square root.
pub fn isqrt(v: u128) -> (d: u64)
    ensures
        is_isqrt(d as int, v as int),
{
    let top: u128 = u64::MAX as u128;
    if v >= top * top {
        assert((top + 1) * (top + 1) > u128::MAX) by (nonlinear_arith)
            requires
                top == u64::MAX,
        ;
        return u64::MAX;
    }
    let mut lo: u128 = 0;
    let mut hi: u128 = top;
    while hi - lo > 1
        invariant
            lo < hi <= top,
            lo * lo <= v,
            v < hi * hi,
            top == u64::MAX as u128,
        decreases hi - lo,
    {
        let mid: u128 = lo + (hi - lo) / 2;
        assert(mid * mid <= top * top) by (nonlinear_arith)
            requires
                mid <= top,
        ;
        if mid * mid <= v {
            lo = mid;
        } else {
            hi = mid;
        }
    }
    assert(hi == lo + 1);
    lo as u64
}

/// Abstract state of the statistics: the counters, the running extrema and
/// every successful latency in arrival order.
pub struct StatsView {
    pub sent: nat,
    pub received: nat,
    pub lost: nat,
    pub min_us: nat,
    pub max_us: nat,
    pub samples: Seq<u32>,
}

impl StatsView {
    /// The state after one more tick with outcome `r`.
    pub open spec fn after(self, r: ProbeResult) -> StatsView {
        if r.success {
            StatsView {
                sent: self.sent + 1,
                received: self.received + 1,
                lost: self.lost,
                min_us: if (r.latency_us as nat) < self.min_us {
                    r.latency_us as nat
                } else {
                    self.min_us
                },
                max_us: if (r.latency_us as nat) > self.max_us {
                    r.latency_us as nat
                } else {
                    self.max_us
                },
                samples: self.samples.push(r.latency_us),
            }
        } else {
            StatsView { sent: self.sent + 1, lost: self.lost + 1, ..self }
        }
    }

    /// What holds of the statistics after any sequence of ticks: every tick is
    /// received or lost; the extrema bound every sample and are samples
    /// themselves, and keep their start values until the first success.
    pub open spec fn consistent(self) -> bool {
        &&& self.sent == self.received + self.lost
        &&& self.received == self.samples.len()
        &&& forall|i: int|
            0 <= i < self.samples.len() ==> self.min_us <= #[trigger] self.samples[i]
                <= self.max_us
        &&& self.received == 0 ==> self.min_us == u32::MAX && self.max_us == 0
        &&& self.received > 0 ==> (exists|i: int|
            0 <= i < self.samples.len() && #[trigger] self.samples[i] == self.min_us)
        &&& self.received > 0 ==> (exists|i: int|
            0 <= i < self.samples.len() && #[trigger] self.samples[i] == self.max_us)
    }
}

/// Every tick keeps the statistics consistent.
pub proof fn lemma_after_consistent(v: StatsView, r: ProbeResult)
    requires
        v.consistent(),
    ensures
        v.after(r).consistent(),
{
    let w = v.after(r);
    if r.success {
        let s = w.samples;
        let k = v.samples.len() as int;
        assert(s[k] == r.latency_us);
        if v.received > 0 {
            let i = choose|i: int| 0 <= i < v.samples.len() && #[trigger] v.samples[i] == v.min_us;
            let j = choose|j: int| 0 <= j < v.samples.len() && #[trigger] v.samples[j] == v.max_us;
            assert(s[i] == v.samples[i]);
            assert(s[j] == v.samples[j]);
            if w.min_us != r.latency_us {
                assert(s[i] == w.min_us);
            }
            if w.max_us != r.latency_us {
                assert(s[j] == w.max_us);
            }
        }
        assert(w.min_us == r.latency_us ==> s[k] == w.min_us);
        assert(w.max_us == r.latency_us ==> s[k] == w.max_us);
        assert forall|i: int| 0 <= i < s.len() implies w.min_us <= #[trigger] s[i] <= w.max_us by {
            if i < k {
                assert(s[i] == v.samples[i]);
            }
        }
    }
}

/// The statistics before the first tick.
pub open spec fn initial_view() -> StatsView {
    StatsView {
        sent: 0,
        received: 0,
        lost: 0,
        min_us: u32::MAX as nat,
        max_us: 0,
        samples: Seq::empty(),
    }
}

/// The statistics after the ticks `rs`, in order, from the start.
pub open spec fn run(rs: Seq<ProbeResult>) -> StatsView
    decreases rs.len(),
{
    if rs.len() == 0 {
        initial_view()
    } else {
        run(rs.drop_last()).after(rs.last())
    }
}

/// After any sequence of ticks, every tick has been counted as sent and as
/// exactly one of received or lost, and the statistics are consistent.
pub proof fn lemma_ticks_balanced(rs: Seq<ProbeResult>)
    ensures
        run(rs).sent == rs.len(),
        run(rs).sent == run(rs).received + run(rs).lost,
        run(rs).consistent(),
    decreases rs.len(),
{
    if rs.len() > 0 {
        lemma_ticks_balanced(rs.drop_last());
        lemma_after_consistent(run(rs.drop_last()), rs.last());
    }
}

/// The loss lies between none and all of the sent probes, and is zero
/// exactly when nothing was sent or nothing was lost.
pub proof fn lemma_loss_range(lost: nat, sent: nat)
    requires
        lost <= sent,
    ensures
        0 <= loss_bp_of(lost, sent) <= 10000,
        (loss_bp_of(lost, sent) == 0) == (sent == 0 || lost == 0),
{
    if sent > 0 {
        let x = (10000 * lost + sent - 1) as int;
        let d = sent as int;
        assert(0 <= x / d <= 10000) by (nonlinear_arith)
            requires
                x == 10000 * lost + sent - 1,
                d == sent,
                lost <= sent,
                d > 0,
        ;
        if lost > 0 {
            assert(x / d >= 1) by (nonlinear_arith)
                requires
                    x == 10000 * lost + sent - 1,
                    d == sent,
                    lost >= 1,
                    d > 0,
            ;
        } else {
            assert(x / d == 0) by (nonlinear_arith)
                requires
                    x == sent - 1,
                    d == sent,
                    d > 0,
            ;
        }
    }
}

/// Once a probe succeeded, the extrema bound every successful latency;
/// before that, they hold their start values.
pub proof fn lemma_extrema(v: StatsView)
    requires
        v.consistent(),
    ensures
        v.received > 0 ==> forall|i: int|
            0 <= i < v.samples.len() ==> v.min_us <= #[trigger] v.samples[i] <= v.max_us,
        v.received == 0 ==> v.min_us == u32::MAX && v.max_us == 0,
{
}

/// Fewer than two successes give a zero variance.
pub proof fn lemma_variance_few(s: Seq<u32>)
    requires
        s.len() < 2,
    ensures
        variance_of(s) == 0,
        is_isqrt(0, variance_of(s)),
{
}

/// Read-only summary of the statistics, as handed to the renderer.
#[derive(Clone, Copy, Debug, PartialEq, Eq)]
pub struct Snapshot {
    pub sent: u64,
    pub received: u64,
    pub lost: u64,
    pub min_us: u32,
    pub max_us: u32,
    pub average_us: u32,
    pub loss_bp: u64,
    pub loss_tenths: u64,
    pub stddev_us: u64,
}

/// Cumulative statistics of the monitoring session.
///
/// Instead of keeping every successful latency, the running sum and sum of
/// squares are kept, which gives the same average and deviation in constant
/// memory; the samples themselves live on only in the abstract state.
pub struct Stats {
    sent: u64,
    received: u64,
    lost: u64,
    min_us: u32,
    max_us: u32,
    total_us: u128,
    total_sq: u128,
    samples: Ghost<Seq<u32>>,
}

impl View for Stats {
    type V = StatsView;

    closed spec fn view(&self) -> StatsView {
        StatsView {
            sent: self.sent as nat,
            received: self.received as nat,
            lost: self.lost as nat,
            min_us: self.min_us as nat,
            max_us: self.max_us as nat,
            samples: self.samples@,
        }
    }
}

impl Stats {
    /// Internal invariant: the abstract state is consistent and the running
    /// totals are those of the samples.
    pub closed spec fn inv(&self) -> bool {
        &&& self@.consistent()
        &&& self.total_us as int == sum_of(self.samples@)
        &&& self.total_sq as int == sum_sq_of(self.samples@)
    }

    /// Fresh statistics: nothing sent, the minimum at its "infinite" start value.
    pub fn new() -> (s: Stats)
        ensures
            s.inv(),
            s@ == initial_view(),
    {
        Stats {
            sent: 0,
            received: 0,
            lost: 0,
            min_us: u32::MAX,
            max_us: 0,
            total_us: 0,
            total_sq: 0,
            samples: Ghost(Seq::empty()),
        }
    }

    pub proof fn lemma_consistent(&self)
        requires
            self.inv(),
        ensures
            self@.consistent(),
    {
    }

    /// Folds one tick's outcome into the statistics.
    pub fn record(&mut self, r: &ProbeResult)
        requires
            old(self).inv(),
            old(self)@.sent < u64::MAX,
        ensures
            final(self).inv(),
            final(self)@ == old(self)@.after(*r),
            final(self)@.sent == final(self)@.received + final(self)@.lost,
    {
        let ghost before = self@;
        proof {
            lemma_sums_bounded(self.samples@);
        }
        self.sent = self.sent + 1;
        if r.success {
            let x: u32 = r.latency_us;
            let ghost n = self.received as int;
            let ghost xs = x as int;
            assert(self.total_us + xs <= u128::MAX) by (nonlinear_arith)
                requires
                    self.total_us <= n * (u32::MAX as int),
                    n < u64::MAX,
                    xs <= u32::MAX,
            ;
            assert(self.total_sq + xs * xs <= u128::MAX) by (nonlinear_arith)
                requires
                    self.total_sq <= n * ((u32::MAX as int) * (u32::MAX as int)),
                    n < u64::MAX,
                    0 <= xs <= u32::MAX,
            ;
            self.received = self.received + 1;
            if x < self.min_us {
                self.min_us = x;
            }
            if x > self.max_us {
                self.max_us = x;
            }
            self.total_us = self.total_us + x as u128;
            self.total_sq = self.total_sq + (x as u128) * (x as u128);
            self.samples = Ghost(self.samples@.push(x));
            proof {
                let s = self.samples@;
                assert(s.drop_last() =~= before.samples);
                assert(s.last() == x);
                assert(sum_of(s) == sum_of(before.samples) + x);
                assert(sum_sq_of(s) == sum_sq_of(before.samples) + x * x);
            }
        } else {
            self.lost = self.lost + 1;
        }
        assert(self@ =~= before.after(*r));
        proof {
            lemma_after_consistent(before, *r);
        }
    }

    /// Mean successful latency in microseconds, rounded down; zero before the
    /// first success.
    pub fn average_us(&self) -> (r: u32)
        requires
            self.inv(),
        ensures
            r as int == average_of(self@.samples),
    {
        if self.received == 0 {
            0
        } else {
            proof {
                lemma_sums_bounded(self.samples@);
                let ghost n = self.received as int;
                assert(sum_of(self.samples@) / n <= u32::MAX) by (nonlinear_arith)
                    requires
                        n > 0,
                        0 <= sum_of(self.samples@) <= n * (u32::MAX as int),
                ;
            }
            (self.total_us / (self.received as u128)) as u32
        }
    }

    /// Packet loss in hundredths of a percent, rounded up; zero exactly when
    /// nothing was sent or nothing was lost.
    pub fn loss_basis_points(&self) -> (r: u64)
        requires
            self.inv(),
        ensures
            r as int == loss_bp_of(self@.lost, self@.sent),
            r <= 10000,
            (r == 0) == (self@.sent == 0 || self@.lost == 0),
    {
        proof {
            lemma_loss_range(self@.lost, self@.sent);
        }
        if self.sent == 0 {
            0
        } else {
            let lost: u128 = self.lost as u128;
            let sent: u128 = self.sent as u128;
            ((10000 * lost + (sent - 1)) / sent) as u64
        }
    }

    /// Packet loss in tenths of a percent, rounded to the nearest tenth
    /// (half up); zero before anything was sent.
    pub fn loss_tenths(&self) -> (r: u64)
        requires
            self.inv(),
        ensures
            r as int == loss_tenths_of(self@.lost, self@.sent),
            r <= 1000,
    {
        if self.sent == 0 {
            0
        } else {
            let lost: u128 = self.lost as u128;
            let sent: u128 = self.sent as u128;
            assert((2000 * lost + sent) as int / ((2 * sent) as int) <= 1000) by (nonlinear_arith)
                requires
                    lost <= sent,
                    sent > 0,
            ;
            ((2000 * lost + sent) / (2 * sent)) as u64
        }
    }

    /// Sample standard deviation of the successful latencies in microseconds,
    /// rounded down: the integer square root of the rounded-down sample
    /// variance, zero below two samples.
    pub fn stddev_us(&self) -> (r: u64)
        requires
            self.inv(),
        ensures
            is_isqrt(r as int, variance_of(self@.samples)),
            self@.received < 2 ==> r == 0,
    {
        if self.received < 2 {
            return 0;
        }
        proof {
            lemma_cauchy_schwarz(self.samples@);
            lemma_sums_bounded(self.samples@);
        }
        let n: u128 = self.received as u128;
        let total: u128 = self.total_us;
        let sq: u128 = self.total_sq;
        let q: u128 = total / n;
        let r: u128 = total % n;
        assert(total == n * q + r) by (nonlinear_arith)
            requires
                q == total / n,
                r == total % n,
                n > 0,
        ;
        let ghost u = u32::MAX as int;
        assert(q <= u && total * q <= n * (u * u) && q * r < n * u) by (nonlinear_arith)
            requires
                q == total / n,
                r == total % n,
                n >= 2,
                0 <= total <= n * u,
                u == u32::MAX,
        ;
        assert(n * (u * u) <= u128::MAX) by (nonlinear_arith)
            requires
                n <= u64::MAX,
                u == u32::MAX,
        ;
        let sq_part: u128 = total * q;
        let qr: u128 = q * r;
        let ghost a_int = sq - sum_of(self.samples@) * q - q * r;
        assert(n * a_int >= 0 && a_int >= 0) by (nonlinear_arith)
            requires
                total == n * q + r,
                a_int == sq - total * q - q * r,
                n * sq - total * total >= 0,
                n >= 2,
        ;
        let a: u128 = sq - sq_part - qr;
        assert(r * r + n - 1 <= n * (n - 1) && n * (n - 1) <= u128::MAX) by (nonlinear_arith)
            requires
                r < n,
                n <= u64::MAX,
        ;
        let c: u128 = (r * r + (n - 1)) / n;
        proof {
            lemma_variance_parts(n as int, total as int, sq as int, q as int, r as int, a as int, c as int);
        }
        isqrt((a - c) / (n - 1))
    }

    /// The current figures, each as its own query gives it.
    pub fn snapshot(&self) -> (r: Snapshot)
        requires
            self.inv(),
        ensures
            r.sent == self@.sent,
            r.received == self@.received,
            r.lost == self@.lost,
            r.min_us == self@.min_us,
            r.max_us == self@.max_us,
            r.average_us == average_of(self@.samples),
            r.loss_bp == loss_bp_of(self@.lost, self@.sent),
            r.loss_tenths == loss_tenths_of(self@.lost, self@.sent),
            is_isqrt(r.stddev_us as int, variance_of(self@.samples)),
    {
        Snapshot {
            sent: self.sent,
            received: self.received,
            lost: self.lost,
            min_us: self.min_us,
            max_us: self.max_us,
            average_us: self.average_us(),
            loss_bp: self.loss_basis_points(),
            loss_tenths: self.loss_tenths(),
            stddev_us: self.stddev_us(),
        }
    }

    pub fn sent(&self) -> (r: u64)
        ensures
            r == self@.sent,
    {
        self.sent
    }

    pub fn received(&self) -> (r: u64)
        ensures
            r == self@.received,
    {
        self.received
    }

    pub fn lost(&self) -> (r: u64)
        ensures
            r == self@.lost,
    {
        self.lost
    }

    /// Smallest successful latency; `u32::MAX` before the first success.
    pub fn min_us(&self) -> (r: u32)
        ensures
            r == self@.min_us,
    {
        self.min_us
    }

    /// Largest successful latency; zero before the first success.
    pub fn max_us(&self) -> (r: u32)
        ensures
            r == self@.max_us,
    {
        self.max_us
    }
}

} // verus!
