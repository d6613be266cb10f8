//! The windowed stats aggregator.
//!
//! `AppState` keeps cumulative counters and two bounded, time-ordered
//! windows of samples. Sample times are microseconds since the aggregator
//! was created; the rendering side turns them into fractional seconds, and
//! turns a sample's byte count into KiB, when it draws.

use std::collections::VecDeque;
use std::time::Instant;
use vstd::prelude::*;

verus! {

/// One recorded observation: the size in bytes of a packet, stamped with
/// the time it was recorded.
#[derive(Clone, Copy, Debug, PartialEq, Eq, Structural)]
pub struct DataPoint {
    pub time_micros: u64,
    pub bytes: usize,
}

/// Cumulative counters over the whole run.
pub struct NetworkStats {
    pub total_bytes: usize,
    pub current_throughput: usize,
    pub packets_captured: usize,
}

impl Default for NetworkStats {
    fn default() -> (s: Self)
        ensures
            s.total_bytes == 0,
            s.current_throughput == 0,
            s.packets_captured == 0,
    {
        Self { total_bytes: 0, current_throughput: 0, packets_captured: 0 }
    }
}

/// The sample times of `s`, oldest first, never decrease.
pub open spec fn times_sorted(s: Seq<DataPoint>) -> bool {
    forall|i: int, j: int|
        #![trigger s[i], s[j]]
        0 <= i <= j < s.len() ==> s[i].time_micros <= s[j].time_micros
}

/// The sum of all packet sizes in `s`.
pub open spec fn sum_sizes(s: Seq<usize>) -> int
    decreases s.len(),
{
    if s.len() == 0 {
        0
    } else {
        sum_sizes(s.drop_last()) + s.last()
    }
}

/// `s` with samples dropped from the front until at most `w` remain.
pub open spec fn trim_to(s: Seq<DataPoint>, w: nat) -> Seq<DataPoint> {
    if s.len() <= w {
        s
    } else {
        s.skip(s.len() - w)
    }
}

/// The time of the newest sample of `s`, or 0 if there is none.
pub open spec fn seq_latest(s: Seq<DataPoint>) -> u64 {
    if s.len() == 0 {
        0
    } else {
        s.last().time_micros
    }
}

/// What one recorded packet of size `size`, stamped at time `t`, does to
/// the aggregator: it raises the counters, appends one sample to each
/// window, and trims both windows from the front down to the window bound.
pub open spec fn records_at(pre: AppState, post: AppState, size: usize, t: u64) -> bool {
    &&& t >= pre.latest_time()
    &&& post.throughput_history@ == trim_to(
        pre.throughput_history@.push(DataPoint { time_micros: t, bytes: size }),
        pre.window_size as nat,
    )
    &&& post.packet_size_history@ == trim_to(
        pre.packet_size_history@.push(DataPoint { time_micros: t, bytes: size }),
        pre.window_size as nat,
    )
    &&& post.stats.total_bytes == pre.stats.total_bytes + size
    &&& post.stats.packets_captured == pre.stats.packets_captured + 1
    &&& post.stats.current_throughput == size
    &&& post.window_size == pre.window_size
    &&& post.running == pre.running
    &&& post.start_time == pre.start_time
    &&& post.recorded_sizes@ == pre.recorded_sizes@.push(size)
}

/// The window bound after a request to change it by `delta`: it saturates
/// at `usize::MAX` above and never falls below the floor of 10.
pub open spec fn adjusted_window(ws: int, delta: int) -> int {
    let raw = ws + delta;
    let capped = if raw > usize::MAX as int {
        usize::MAX as int
    } else {
        raw
    };
    if capped < 10 {
        10
    } else {
        capped
    }
}

/// The state after a window adjustment: only the window bound changes.
pub open spec fn resize_model(a: AppState, delta: int) -> AppState {
    AppState { window_size: adjusted_window(a.window_size as int, delta) as usize, ..a }
}

/// The state after a stop request: only the liveness flag changes.
pub open spec fn stop_model(a: AppState) -> AppState {
    AppState { running: false, ..a }
}

/// The shared state of the dashboard: counters, the two sample windows,
/// the window bound, and the liveness flag. `recorded_sizes` is the ghost
/// log of every packet size ever recorded, in order; the counters are tied
/// to it by `valid`.
#[verifier::ext_equal]
pub struct AppState {
    pub stats: NetworkStats,
    pub throughput_history: VecDeque<DataPoint>,
    pub packet_size_history: VecDeque<DataPoint>,
    pub start_time: Instant,
    pub last_update: Instant,
    pub running: bool,
    pub window_size: usize,
    pub recorded_sizes: Ghost<Seq<usize>>,
}

impl AppState {
    /// The time of the newest sample over both windows.
    pub open spec fn latest_time(self) -> u64 {
        let a = seq_latest(self.throughput_history@);
        let b = seq_latest(self.packet_size_history@);
        if a >= b {
            a
        } else {
            b
        }
    }

    /// Well-formedness: both windows are in time order, and the counters
    /// agree with the log of recorded sizes.
    pub open spec fn valid(self) -> bool {
        &&& times_sorted(self.throughput_history@)
        &&& times_sorted(self.packet_size_history@)
        &&& self.stats.total_bytes == sum_sizes(self.recorded_sizes@)
        &&& self.stats.packets_captured == self.recorded_sizes@.len()
        &&& self.stats.current_throughput == (if self.recorded_sizes@.len() == 0 {
            0usize
        } else {
            self.recorded_sizes@.last()
        })
    }
}

impl Default for AppState {
    fn default() -> (s: Self)
        ensures
            s.valid(),
            s.stats.total_bytes == 0,
            s.stats.packets_captured == 0,
            s.stats.current_throughput == 0,
            s.throughput_history@ == Seq::<DataPoint>::empty(),
            s.packet_size_history@ == Seq::<DataPoint>::empty(),
            s.running,
            s.window_size == 60,
            s.recorded_sizes@ == Seq::<usize>::empty(),
    {
        let now = Instant::now();
        Self {
            stats: NetworkStats::default(),
            throughput_history: VecDeque::with_capacity(100),
            packet_size_history: VecDeque::with_capacity(100),
            start_time: now,
            last_update: now,
            running: true,
            window_size: 60,
            recorded_sizes: Ghost(Seq::empty()),
        }
    }
}

proof fn lemma_sum_push(s: Seq<usize>, x: usize)
    ensures
        sum_sizes(s.push(x)) == sum_sizes(s) + x,
{
    assert(s.push(x).drop_last() =~= s);
    assert(s.push(x).last() == x);
}

proof fn lemma_push_sorted(s: Seq<DataPoint>, p: DataPoint)
    requires
        times_sorted(s),
        s.len() == 0 || s.last().time_micros <= p.time_micros,
    ensures
        times_sorted(s.push(p)),
{
    assert forall|i: int, j: int|
        #![trigger s.push(p)[i], s.push(p)[j]]
        0 <= i <= j < s.push(p).len() implies s.push(p)[i].time_micros
        <= s.push(p)[j].time_micros by {
        if j < s.len() {
            assert(s.push(p)[i] == s[i]);
            assert(s.push(p)[j] == s[j]);
        } else {
            assert(s.push(p)[j] == p);
            if i < s.len() {
                assert(s.push(p)[i] == s[i]);
                assert(s[i].time_micros <= s[s.len() - 1].time_micros);
            } else {
                assert(s.push(p)[i] == p);
            }
        }
    }
}

proof fn lemma_skip_sorted(s: Seq<DataPoint>, n: int)
    requires
        times_sorted(s),
        0 <= n <= s.len(),
    ensures
        times_sorted(s.skip(n)),
{
    assert forall|i: int, j: int|
        #![trigger s.skip(n)[i], s.skip(n)[j]]
        0 <= i <= j < s.skip(n).len() implies s.skip(n)[i].time_micros
        <= s.skip(n)[j].time_micros by {
        assert(s.skip(n)[i] == s[i + n]);
        assert(s.skip(n)[j] == s[j + n]);
        assert(s[i + n].time_micros <= s[j + n].time_micros);
    }
}

proof fn lemma_trim_sorted(s: Seq<DataPoint>, w: nat)
    requires
        times_sorted(s),
    ensures
        times_sorted(trim_to(s, w)),
{
    if s.len() > w {
        lemma_skip_sorted(s, s.len() - w);
    }
}

proof fn lemma_trim_drop_front(s: Seq<DataPoint>, w: nat)
    requires
        s.len() > w,
    ensures
        trim_to(s.subrange(1, s.len() as int), w) == trim_to(s, w),
{
    let n = s.len() as int;
    if n - 1 <= w {
        assert(s.subrange(1, n) =~= s.skip(n - w));
    } else {
        assert(s.subrange(1, n).skip(n - 1 - w) =~= s.skip(n - w));
    }
}

/// Drops samples from the front of `q` until at most `w` remain.
fn trim_front(q: &mut VecDeque<DataPoint>, w: usize)
    ensures
        final(q)@ == trim_to(old(q)@, w as nat),
{
    while q.len() > w
        invariant
            trim_to(q@, w as nat) == trim_to(old(q)@, w as nat),
        decreases q@.len(),
    {
        let ghost pre = q@;
        let _ = q.pop_front();
        proof {
            lemma_trim_drop_front(pre, w as nat);
        }
    }
}

impl AppState {
    pub fn new() -> (s: Self)
        ensures
            s.valid(),
            s.stats.total_bytes == 0,
            s.stats.packets_captured == 0,
            s.stats.current_throughput == 0,
            s.throughput_history@ == Seq::<DataPoint>::empty(),
            s.packet_size_history@ == Seq::<DataPoint>::empty(),
            s.running,
            s.window_size == 60,
            s.recorded_sizes@ == Seq::<usize>::empty(),
    {
        Self::default()
    }

    /// The time of the newest sample over both windows, 0 if both are empty.
    pub fn newest_time(&self) -> (r: u64)
        ensures
            r == self.latest_time(),
    {
        let a: u64 = if self.throughput_history.len() == 0 {
            0
        } else {
            self.throughput_history[self.throughput_history.len() - 1].time_micros
        };
        let b: u64 = if self.packet_size_history.len() == 0 {
            0
        } else {
            self.packet_size_history[self.packet_size_history.len() - 1].time_micros
        };
        if a >= b {
            a
        } else {
            b
        }
    }

    /// Records one packet of `packet_size` bytes, stamped `now_micros`
    /// microseconds after the aggregator's creation. After the call, both
    /// windows hold at most `window_size` samples.
    pub fn update_stats_at(&mut self, packet_size: usize, now_micros: u64)
        requires
            old(self).valid(),
            now_micros >= old(self).latest_time(),
            old(self).stats.total_bytes + packet_size <= usize::MAX,
            old(self).stats.packets_captured < usize::MAX,
        ensures
            final(self).valid(),
            records_at(*old(self), *final(self), packet_size, now_micros),
            final(self).throughput_history@.len() <= final(self).window_size,
            final(self).packet_size_history@.len() <= final(self).window_size,
            final(self).last_update == old(self).last_update,
    {
        self.stats.total_bytes = self.stats.total_bytes + packet_size;
        self.stats.packets_captured = self.stats.packets_captured + 1;
        self.stats.current_throughput = packet_size;
        let dp = DataPoint { time_micros: now_micros, bytes: packet_size };
        self.throughput_history.push_back(dp);
        self.packet_size_history.push_back(dp);
        self.recorded_sizes = Ghost(self.recorded_sizes@.push(packet_size));
        let w = self.window_size;
        trim_front(&mut self.throughput_history, w);
        trim_front(&mut self.packet_size_history, w);
        proof {
            lemma_sum_push(old(self).recorded_sizes@, packet_size);
            lemma_push_sorted(old(self).throughput_history@, dp);
            lemma_push_sorted(old(self).packet_size_history@, dp);
            lemma_trim_sorted(old(self).throughput_history@.push(dp), old(self).window_size as nat);
            lemma_trim_sorted(
                old(self).packet_size_history@.push(dp),
                old(self).window_size as nat,
            );
        }
    }

    /// Records one packet of `packet_size` bytes, stamped with the
    /// monotonic clock. The stamp is clamped so that it never precedes the
    /// newest sample already recorded.
    pub fn update_stats(&mut self, packet_size: usize)
        requires
            old(self).valid(),
            old(self).stats.total_bytes + packet_size <= usize::MAX,
            old(self).stats.packets_captured < usize::MAX,
        ensures
            final(self).valid(),
            exists|t: u64| #[trigger] records_at(*old(self), *final(self), packet_size, t),
            final(self).throughput_history@.len() <= final(self).window_size,
            final(self).packet_size_history@.len() <= final(self).window_size,
            final(self).stats.total_bytes == old(self).stats.total_bytes + packet_size,
            final(self).stats.packets_captured == old(self).stats.packets_captured + 1,
            final(self).stats.current_throughput == packet_size,
            final(self).window_size == old(self).window_size,
            final(self).running == old(self).running,
            final(self).recorded_sizes@ == old(self).recorded_sizes@.push(packet_size),
    {
        let now = Instant::now();
        let d = now.duration_since(self.start_time);
        let micros = d.as_micros();
        let m: u64 = if micros > u64::MAX as u128 {
            u64::MAX
        } else {
            micros as u64
        };
        let latest = self.newest_time();
        let t = if m >= latest {
            m
        } else {
            latest
        };
        self.update_stats_at(packet_size, t);
        self.last_update = now;
        proof {
            assert(records_at(*old(self), *self, packet_size, t));
        }
    }

    /// Changes the window bound by `delta`: it saturates at `usize::MAX`
    /// above and never falls below the floor of 10. The windows themselves
    /// are not trimmed here; they converge on later recording calls.
    pub fn adjust_window(&mut self, delta: i32)
        ensures
            *final(self) == resize_model(*old(self), delta as int),
            final(self).window_size == adjusted_window(old(self).window_size as int, delta as int),
            final(self).window_size >= 10,
            old(self).valid() ==> final(self).valid(),
    {
        let raw: usize = if delta >= 0 {
            let d: usize = delta as usize;
            if self.window_size <= usize::MAX - d {
                self.window_size + d
            } else {
                usize::MAX
            }
        } else {
            let m: usize = (-(delta as i64)) as usize;
            if self.window_size >= m {
                self.window_size - m
            } else {
                0
            }
        };
        self.window_size = if raw < 10 {
            10
        } else {
            raw
        };
        proof {
            assert(*self =~= resize_model(*old(self), delta as int));
        }
    }

    /// Requests termination: clears the liveness flag and changes nothing
    /// else. Idempotent.
    pub fn request_stop(&mut self)
        ensures
            *final(self) == stop_model(*old(self)),
            !final(self).running,
            old(self).valid() ==> final(self).valid(),
    {
        self.running = false;
        proof {
            assert(*self =~= stop_model(*old(self)));
        }
    }
}

/// In every well-formed state, the cumulative counters agree with the log
/// of recorded packet sizes: `total_bytes` is their sum and
/// `packets_captured` their count. Each recording call appends its size to
/// the log, so the counters follow the whole call sequence.
pub proof fn lemma_counters_match_log(a: AppState)
    requires
        a.valid(),
    ensures
        a.stats.total_bytes == sum_sizes(a.recorded_sizes@),
        a.stats.packets_captured == a.recorded_sizes@.len(),
{
}

/// In every well-formed state, sample times never decrease within either
/// history.
pub proof fn lemma_sample_times_monotone(a: AppState)
    requires
        a.valid(),
    ensures
        times_sorted(a.throughput_history@),
        times_sorted(a.packet_size_history@),
{
}

/// However the window bound is adjusted, and however often, it never
/// falls below 10.
pub proof fn lemma_window_floor(ws: int, delta: int)
    ensures
        adjusted_window(ws, delta) >= 10,
{
}

/// Requesting a stop twice leaves the state exactly as one request does.
pub proof fn lemma_stop_idempotent(a: AppState)
    ensures
        stop_model(stop_model(a)) == stop_model(a),
{
    assert(stop_model(stop_model(a)) =~= stop_model(a));
}

} // verus!
