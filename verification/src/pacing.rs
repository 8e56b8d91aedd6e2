//! Frame pacing: a rolling-window frames-per-second counter and the guarded
//! conversion from a rate to a per-frame render time.
//!
//! The counter is fed one timestamp per finished frame, in milliseconds from
//! any fixed origin, and keeps only the samples that still fall inside its
//! window. The rate is the number of retained samples scaled to one second.

use vstd::prelude::*;

verus! {

/// The samples of `s` that are still inside the window: the longest suffix
/// whose timestamps are newer than `now - window`.
pub open spec fn prune(s: Seq<u64>, now: u64, window: u64) -> Seq<u64>
    decreases s.len(),
{
    if s.len() == 0 {
        s
    } else if s[0] + window <= now {
        prune(s.subrange(1, s.len() as int), now, window)
    } else {
        s
    }
}

/// Timestamps in `s` never decrease.
pub open spec fn sorted(s: Seq<u64>) -> bool {
    forall|i: int, j: int| 0 <= i <= j < s.len() ==> s[i] <= s[j]
}

/// Counts frame-end timestamps over a fixed rolling window.
pub struct FpsCounter {
    /// Window length in milliseconds; never zero.
    pub window_ms: u64,
    /// Frame-end timestamps inside the window, oldest first.
    pub samples: Vec<u64>,
}

impl FpsCounter {
    /// The counter's window is positive and its samples are in order.
    pub open spec fn wf(self) -> bool {
        &&& self.window_ms >= 1
        &&& sorted(self.samples@)
    }

    /// The smoothed rate the counter reports: retained samples scaled from
    /// the window length to one second, in integer arithmetic.
    pub open spec fn spec_fps(self) -> int {
        (self.samples@.len() as int) * 1000 / (self.window_ms as int)
    }

    /// A counter with the given window and no samples yet.
    pub fn new(window_ms: u64) -> (c: FpsCounter)
        requires
            window_ms >= 1,
        ensures
            c.wf(),
            c.window_ms == window_ms,
            c.samples@ =~= Seq::<u64>::empty(),
    {
        FpsCounter { window_ms, samples: Vec::new() }
    }

    /// Records that a frame ended at `now_ms` and drops every sample that has
    /// left the window. Timestamps must be fed in nondecreasing order.
    pub fn end_frame(&mut self, now_ms: u64)
        requires
            old(self).wf(),
            old(self).samples@.len() > 0 ==> old(self).samples@.last() <= now_ms,
        ensures
            final(self).wf(),
            final(self).window_ms == old(self).window_ms,
            final(self).samples@ == prune(old(self).samples@, now_ms, old(self).window_ms)
                .push(now_ms),
    {
        proof {
            assert(forall|i: int| 0 <= i < old(self).samples@.len()
                ==> #[trigger] old(self).samples@[i] <= now_ms);
        }
        loop
            invariant
                self.window_ms == old(self).window_ms,
                self.window_ms >= 1,
                sorted(self.samples@),
                forall|i: int| 0 <= i < self.samples@.len()
                    ==> #[trigger] self.samples@[i] <= now_ms,
                prune(self.samples@, now_ms, self.window_ms)
                    == prune(old(self).samples@, now_ms, self.window_ms),
            ensures
                self.window_ms == old(self).window_ms,
                sorted(self.samples@),
                forall|i: int| 0 <= i < self.samples@.len()
                    ==> #[trigger] self.samples@[i] <= now_ms,
                self.samples@ == prune(old(self).samples@, now_ms, self.window_ms),
            decreases self.samples@.len(),
        {
            if self.samples.len() == 0 {
                break;
            }
            let head: u64 = self.samples[0];
            if now_ms - head < self.window_ms {
                break;
            }
            let ghost before = self.samples@;
            self.samples.remove(0);
            proof {
                assert(self.samples@ =~= before.subrange(1, before.len() as int));
            }
        }
        self.samples.push(now_ms);
    }

    /// The current frames-per-second figure: zero while no sample is inside
    /// the window, and otherwise the retained count scaled to one second
    /// (clamped at the largest representable value).
    pub fn current_fps(&self) -> (fps: u64)
        requires
            self.wf(),
        ensures
            fps as int == if self.spec_fps() <= u64::MAX as int {
                self.spec_fps()
            } else {
                u64::MAX as int
            },
            self.samples@.len() == 0 ==> fps == 0,
    {
        let n: u128 = self.samples.len() as u128;
        let scaled: u128 = n * 1000 / (self.window_ms as u128);
        if scaled > u64::MAX as u128 {
            u64::MAX
        } else {
            scaled as u64
        }
    }
}

/// The samples a counter holds after feeding `times` one frame at a time:
/// each step prunes and then records, exactly as `end_frame` does.
pub open spec fn fed(window: u64, times: Seq<u64>) -> Seq<u64>
    decreases times.len(),
{
    if times.len() == 0 {
        Seq::empty()
    } else {
        prune(fed(window, times.drop_last()), times.last(), window).push(times.last())
    }
}

/// Pruning twice, the second time at a later instant, is pruning once at
/// the later instant.
proof fn lemma_prune_twice(s: Seq<u64>, now1: u64, now2: u64, window: u64)
    requires
        now1 <= now2,
    ensures
        prune(prune(s, now1, window), now2, window) == prune(s, now2, window),
    decreases s.len(),
{
    if s.len() > 0 && s[0] + window <= now1 {
        lemma_prune_twice(s.subrange(1, s.len() as int), now1, now2, window);
    }
}

/// A sample still inside the window passes through a pruning at its own
/// recording instant untouched, at the end of the sequence.
proof fn lemma_prune_push(s: Seq<u64>, x: u64, now: u64, window: u64)
    requires
        x + window > now,
    ensures
        prune(s.push(x), now, window) == prune(s, now, window).push(x),
    decreases s.len(),
{
    if s.len() > 0 && s[0] + window <= now {
        assert(s.push(x).subrange(1, s.push(x).len() as int) =~= s.subrange(
            1,
            s.len() as int,
        ).push(x));
        lemma_prune_push(s.subrange(1, s.len() as int), x, now, window);
    }
}

/// The rolling window law: feeding a nondecreasing series of frame-end
/// timestamps one at a time leaves exactly the samples that a single
/// pruning of the whole series at the last instant leaves — the counter
/// never under- or over-retains across iterations.
pub proof fn lemma_feeding_equals_one_pruning(window: u64, times: Seq<u64>)
    requires
        window >= 1,
        times.len() > 0,
        sorted(times),
    ensures
        fed(window, times) == prune(times, times.last(), window),
    decreases times.len(),
{
    let last = times.last();
    let prefix = times.drop_last();
    assert(times =~= prefix.push(last));
    lemma_prune_push(prefix, last, last, window);
    if prefix.len() == 0 {
        reveal_with_fuel(fed, 2);
        assert(times =~= seq![last]);
    } else {
        assert(sorted(prefix));
        lemma_feeding_equals_one_pruning(window, prefix);
        lemma_prune_twice(prefix, prefix.last(), last, window);
    }
    assert(prune(times, last, window) =~= prune(prefix, last, window).push(last));
}

/// The series of `n` frame-end timestamps spaced ten milliseconds apart,
/// starting at `t0`.
pub open spec fn ten_ms_cadence(t0: u64, n: int) -> Seq<u64> {
    Seq::new(n as nat, |i: int| (t0 + 10 * i) as u64)
}

/// In a ten-millisecond cadence ending at instant `t0 + 10(n-1)`, exactly
/// the last ten samples are within a hundred milliseconds of the end.
proof fn lemma_cadence_prune(t0: u64, n: int)
    requires
        n >= 10,
        t0 + 10 * (n - 1) <= u64::MAX,
    ensures
        prune(ten_ms_cadence(t0, n), (t0 + 10 * (n - 1)) as u64, 100) == ten_ms_cadence(
            (t0 + 10 * (n - 10)) as u64,
            10,
        ),
    decreases n,
{
    let times = ten_ms_cadence(t0, n);
    let last = (t0 + 10 * (n - 1)) as u64;
    if n == 10 {
        assert(times[0] + 100 > last);
        assert(times =~= ten_ms_cadence(t0, 10));
    } else {
        assert(times[0] + 100 <= last);
        assert(times.subrange(1, n) =~= ten_ms_cadence((t0 + 10) as u64, n - 1));
        lemma_cadence_prune((t0 + 10) as u64, n - 1);
    }
}

/// The steady-cadence law: however many frames end ten milliseconds apart,
/// once at least ten have, the hundred-millisecond window holds exactly
/// ten samples, and ten samples scaled from that window to one second read
/// one hundred frames per second.
pub proof fn lemma_steady_cadence_reads_one_hundred(t0: u64, n: int)
    requires
        n >= 10,
        t0 + 10 * (n - 1) <= u64::MAX,
    ensures
        fed(100, ten_ms_cadence(t0, n)).len() == 10,
        (fed(100, ten_ms_cadence(t0, n)).len() as int) * 1000 / 100 == 100,
{
    let times = ten_ms_cadence(t0, n);
    assert(sorted(times));
    assert(times.last() == (t0 + 10 * (n - 1)) as u64);
    lemma_feeding_equals_one_pruning(100, times);
    lemma_cadence_prune(t0, n);
}

/// Milliseconds of render time per frame at `fps` frames per second; zero
/// when `fps` is zero, so no division by zero is ever attempted.
pub fn render_time_ms(fps: u64) -> (ms: u64)
    ensures
        fps == 0 ==> ms == 0,
        fps != 0 ==> ms as int == 1000int / (fps as int),
{
    if fps == 0 {
        0
    } else {
        1000 / fps
    }
}

} // verus!
