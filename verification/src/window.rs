//! Windowed aggregation: byte counts accumulated per flow key over a
//! fixed-duration window, flushed as average byte-per-second rates.

use vstd::prelude::*;
use crate::frame::{Direction, Protocol};

verus! {

/// The identity of an aggregation bucket: remote endpoint name, traffic
/// direction, transport protocol and recorded port. Equality is structural.
#[derive(Debug)]
pub struct FlowKey {
    pub remote_name: String,
    pub direction: Direction,
    pub protocol: Protocol,
    pub port: u16,
}

/// The mathematical view of a [`FlowKey`]: the name as a character sequence.
#[verifier::ext_equal]
pub struct FlowKeyV {
    pub remote_name: Seq<char>,
    pub direction: Direction,
    pub protocol: Protocol,
    pub port: u16,
}

impl View for FlowKey {
    type V = FlowKeyV;

    open spec fn view(&self) -> FlowKeyV {
        FlowKeyV {
            remote_name: self.remote_name@,
            direction: self.direction,
            protocol: self.protocol,
            port: self.port,
        }
    }
}

impl FlowKey {
    /// Structural equality of two flow keys.
    pub fn key_eq(&self, other: &FlowKey) -> (r: bool)
        ensures
            r == (self@ == other@),
    {
        let r = self.remote_name == other.remote_name && self.direction == other.direction
            && self.protocol == other.protocol && self.port == other.port;
        proof {
            if r {
                assert(self@ =~= other@);
            }
        }
        r
    }

    /// An owned copy of this key, equal to it field for field.
    pub fn duplicate(&self) -> (r: FlowKey)
        ensures
            r == *self,
    {
        FlowKey {
            remote_name: self.remote_name.clone(),
            direction: self.direction,
            protocol: self.protocol,
            port: self.port,
        }
    }
}

/// The total byte length recorded for key `k` by the frame sequence `frames`.
pub open spec fn sum_for(frames: Seq<(FlowKeyV, u64)>, k: FlowKeyV) -> int
    decreases frames.len(),
{
    if frames.len() == 0 {
        0
    } else {
        sum_for(frames.drop_last(), k) + if frames.last().0 == k {
            frames.last().1 as int
        } else {
            0
        }
    }
}

/// Whether some frame in `frames` carries key `k`.
pub open spec fn appears(frames: Seq<(FlowKeyV, u64)>, k: FlowKeyV) -> bool {
    exists|i: int| 0 <= i < frames.len() && (#[trigger] frames[i]).0 == k
}

/// Saturation of an accumulated count at the counter's width.
pub open spec fn clamp_u64(n: int) -> int {
    if n > u64::MAX as int {
        u64::MAX as int
    } else {
        n
    }
}

pub proof fn lemma_sum_push(h: Seq<(FlowKeyV, u64)>, p: (FlowKeyV, u64), k: FlowKeyV)
    ensures
        sum_for(h.push(p), k) == sum_for(h, k) + if p.0 == k {
            p.1 as int
        } else {
            0
        },
{
    assert(h.push(p).drop_last() =~= h);
    assert(h.push(p).last() == p);
}

pub proof fn lemma_appears_push(h: Seq<(FlowKeyV, u64)>, p: (FlowKeyV, u64), k: FlowKeyV)
    ensures
        appears(h.push(p), k) <==> (appears(h, k) || p.0 == k),
{
    if appears(h, k) {
        let i = choose|i: int| 0 <= i < h.len() && (#[trigger] h[i]).0 == k;
        assert(h.push(p)[i].0 == k);
    }
    if p.0 == k {
        assert(h.push(p)[h.len() as int].0 == k);
    }
    if appears(h.push(p), k) {
        let i = choose|i: int| 0 <= i < h.push(p).len() && (#[trigger] h.push(p)[i]).0 == k;
        if i < h.len() {
            assert(h[i].0 == k);
        }
    }
}

/// A key that no frame carries has a zero total.
pub proof fn lemma_sum_absent(h: Seq<(FlowKeyV, u64)>, k: FlowKeyV)
    requires
        !appears(h, k),
    ensures
        sum_for(h, k) == 0,
    decreases h.len(),
{
    if h.len() > 0 {
        assert(forall|i: int| 0 <= i < h.len() - 1 ==> (#[trigger] h.drop_last()[i]) == h[i]);
        assert(!appears(h.drop_last(), k));
        lemma_sum_absent(h.drop_last(), k);
        assert(h.last() == h[h.len() - 1]);
    }
}

/// Recorded byte totals are never negative.
pub proof fn lemma_sum_nonneg(h: Seq<(FlowKeyV, u64)>, k: FlowKeyV)
    ensures
        sum_for(h, k) >= 0,
    decreases h.len(),
{
    if h.len() > 0 {
        lemma_sum_nonneg(h.drop_last(), k);
    }
}

/// One aggregation window: a byte count per flow key, a start timestamp and
/// a fixed duration in seconds. The ghost `history` records every
/// `(key, byte_length)` handed to [`AggregationWindow::record`] since the
/// last flush; the invariant ties each bucket to the total of its history.
pub struct AggregationWindow {
    buckets: Vec<(FlowKey, u64)>,
    window_start: u64,
    duration: u64,
    history: Ghost<Seq<(FlowKeyV, u64)>>,
}

impl AggregationWindow {
    /// The frames recorded since the last flush, in order.
    pub closed spec fn frames(self) -> Seq<(FlowKeyV, u64)> {
        self.history@
    }

    pub closed spec fn start(self) -> u64 {
        self.window_start
    }

    pub closed spec fn dur(self) -> u64 {
        self.duration
    }

    /// The accumulated count for a key: the byte total of its frames,
    /// saturated at the counter's width.
    pub open spec fn spec_count(self, k: FlowKeyV) -> int {
        clamp_u64(sum_for(self.frames(), k))
    }

    /// The rate a flush reports for a key: its count divided by the duration.
    pub open spec fn spec_rate(self, k: FlowKeyV) -> int {
        self.spec_count(k) / (self.dur() as int)
    }

    pub closed spec fn wf(self) -> bool {
        &&& self.duration > 0
        &&& (forall|i: int, j: int|
            0 <= i < j < self.buckets@.len() ==> (#[trigger] self.buckets@[i]).0@ != (
            #[trigger] self.buckets@[j]).0@)
        &&& (forall|i: int|
            0 <= i < self.buckets@.len() ==> appears(self.history@, (
            #[trigger] self.buckets@[i]).0@) && self.buckets@[i].1 as int == clamp_u64(
                sum_for(self.history@, self.buckets@[i].0@),
            ))
        &&& (forall|k: FlowKeyV|
            #[trigger] appears(self.history@, k) ==> exists|i: int|
                0 <= i < self.buckets@.len() && (#[trigger] self.buckets@[i]).0@ == k)
    }

    /// A fresh, empty window starting at `now`.
    pub fn new(now: u64, duration: u64) -> (w: AggregationWindow)
        requires
            duration > 0,
        ensures
            w.wf(),
            w.frames() == Seq::<(FlowKeyV, u64)>::empty(),
            w.start() == now,
            w.dur() == duration,
    {
        AggregationWindow {
            buckets: Vec::new(),
            window_start: now,
            duration,
            history: Ghost(Seq::empty()),
        }
    }

    /// Add `byte_len` to the bucket for `key`, creating the bucket if absent.
    /// The count saturates at the counter's width instead of wrapping.
    pub fn record(&mut self, key: FlowKey, byte_len: u64)
        requires
            old(self).wf(),
        ensures
            final(self).wf(),
            final(self).frames() == old(self).frames().push((key@, byte_len)),
            final(self).start() == old(self).start(),
            final(self).dur() == old(self).dur(),
    {
        let ghost h0 = self.history@;
        let ghost h1 = h0.push((key@, byte_len));
        let n = self.buckets.len();
        let mut i: usize = 0;
        while i < n
            invariant
                *self == *old(self),
                n == self.buckets@.len(),
                old(self).wf(),
                h0 == self.history@,
                h1 == h0.push((key@, byte_len)),
                0 <= i <= n,
                forall|j: int| 0 <= j < i ==> (#[trigger] self.buckets@[j]).0@ != key@,
            decreases n - i,
        {
            if self.buckets[i].0.key_eq(&key) {
                let k2 = self.buckets[i].0.duplicate();
                let c = self.buckets[i].1;
                let v = c.saturating_add(byte_len);
                self.buckets[i] = (k2, v);
                self.history = Ghost(h1);
                proof {
                    assert forall|k: FlowKeyV| #[trigger] sum_for(h1, k) == sum_for(h0, k) + (
                    if k == key@ {
                        byte_len as int
                    } else {
                        0
                    }) by {
                        lemma_sum_push(h0, (key@, byte_len), k);
                    }
                    assert forall|k: FlowKeyV| #[trigger] appears(h1, k) == (appears(h0, k)
                        || k == key@) by {
                        lemma_appears_push(h0, (key@, byte_len), k);
                    }
                    lemma_sum_nonneg(h0, key@);
                    assert forall|jj: int|
                        0 <= jj < self.buckets@.len() implies appears(
                        self.history@,
                        (#[trigger] self.buckets@[jj]).0@,
                    ) && self.buckets@[jj].1 as int == clamp_u64(
                        sum_for(self.history@, self.buckets@[jj].0@),
                    ) by {
                        if jj != i {
                            assert(self.buckets@[jj] == old(self).buckets@[jj]);
                            assert(self.buckets@[jj].0@ != key@);
                        }
                    }
                    assert forall|k: FlowKeyV| #[trigger]
                        appears(self.history@, k) implies exists|b: int|
                        0 <= b < self.buckets@.len() && (#[trigger] self.buckets@[b]).0@ == k by {
                        if k == key@ {
                            assert(self.buckets@[i as int].0@ == k);
                        } else {
                            assert(appears(h0, k));
                            let b = choose|b: int|
                                0 <= b < old(self).buckets@.len() && (
                                #[trigger] old(self).buckets@[b]).0@ == k;
                            assert(self.buckets@[b].0@ == k);
                        }
                    }
                }
                return ;
            }
            i += 1;
        }
        self.buckets.push((key, byte_len));
        self.history = Ghost(h1);
        proof {
            assert forall|k: FlowKeyV| #[trigger] sum_for(h1, k) == sum_for(h0, k) + (
            if k == key@ {
                byte_len as int
            } else {
                0
            }) by {
                lemma_sum_push(h0, (key@, byte_len), k);
            }
            assert forall|k: FlowKeyV| #[trigger] appears(h1, k) == (appears(h0, k) || k
                == key@) by {
                lemma_appears_push(h0, (key@, byte_len), k);
            }
            // The scanned key is in no old bucket, so its history total was zero.
            assert forall|b: int|
                0 <= b < old(self).buckets@.len() implies (#[trigger] old(
                self,
            ).buckets@[b]).0@ != key@ by {}
            if appears(h0, key@) {
                let b = choose|b: int|
                    0 <= b < old(self).buckets@.len() && (#[trigger] old(self).buckets@[b]).0@
                        == key@;
                assert(false);
            }
            lemma_sum_absent(h0, key@);
            let last = self.buckets@.len() - 1;
            assert(self.buckets@[last].0@ == key@);
            assert forall|jj: int|
                0 <= jj < self.buckets@.len() implies appears(
                self.history@,
                (#[trigger] self.buckets@[jj]).0@,
            ) && self.buckets@[jj].1 as int == clamp_u64(
                sum_for(self.history@, self.buckets@[jj].0@),
            ) by {
                if jj < last {
                    assert(self.buckets@[jj] == old(self).buckets@[jj]);
                    assert(self.buckets@[jj].0@ != key@);
                }
            }
            assert forall|k: FlowKeyV| #[trigger] appears(self.history@, k) implies exists|b: int|
                0 <= b < self.buckets@.len() && (#[trigger] self.buckets@[b]).0@ == k by {
                if k == key@ {
                    assert(self.buckets@[last].0@ == k);
                } else {
                    let b = choose|b: int|
                        0 <= b < old(self).buckets@.len() && (#[trigger] old(
                        self,
                    ).buckets@[b]).0@ == k;
                    assert(self.buckets@[b].0@ == k);
                }
            }
        }
    }

    /// True once more than the window duration has passed since the start.
    pub fn elapsed(&self, now: u64) -> (r: bool)
        ensures
            r == (now as int > self.start() as int + self.dur() as int),
    {
        now >= self.window_start && now - self.window_start > self.duration
    }

    /// Emit the window: one `(key, rate)` pair per bucket, with
    /// `rate = count / duration` (integer division), then clear every bucket
    /// and restart the window at `now`. An empty window yields an empty
    /// snapshot, not an error.
    pub fn flush(&mut self, now: u64) -> (out: Vec<(FlowKey, u64)>)
        requires
            old(self).wf(),
        ensures
            final(self).wf(),
            final(self).frames() == Seq::<(FlowKeyV, u64)>::empty(),
            final(self).start() == now,
            final(self).dur() == old(self).dur(),
            forall|i: int|
                0 <= i < out@.len() ==> appears(old(self).frames(), (#[trigger] out@[i]).0@)
                    && out@[i].1 as int == old(self).spec_rate(out@[i].0@),
            forall|k: FlowKeyV|
                #[trigger] appears(old(self).frames(), k) ==> exists|i: int|
                    0 <= i < out@.len() && (#[trigger] out@[i]).0@ == k,
            forall|i: int, j: int|
                0 <= i < j < out@.len() ==> (#[trigger] out@[i]).0@ != (#[trigger] out@[j]).0@,
    {
        let n = self.buckets.len();
        let mut out: Vec<(FlowKey, u64)> = Vec::new();
        let mut i: usize = 0;
        while i < n
            invariant
                *self == *old(self),
                old(self).wf(),
                n == self.buckets@.len(),
                0 <= i <= n,
                out@.len() == i,
                forall|j: int|
                    0 <= j < i ==> (#[trigger] out@[j]).0 == self.buckets@[j].0 && out@[j].1 as int
                        == self.buckets@[j].1 as int / (self.duration as int),
            decreases n - i,
        {
            let k2 = self.buckets[i].0.duplicate();
            let rate = self.buckets[i].1 / self.duration;
            out.push((k2, rate));
            i += 1;
        }
        self.buckets = Vec::new();
        self.window_start = now;
        self.history = Ghost(Seq::empty());
        proof {
            assert forall|j: int|
                0 <= j < out@.len() implies appears(old(self).frames(), (
            #[trigger] out@[j]).0@) && out@[j].1 as int == old(self).spec_rate(out@[j].0@) by {
                assert(out@[j].0 == old(self).buckets@[j].0);
            }
            assert forall|k: FlowKeyV| #[trigger]
                appears(old(self).frames(), k) implies exists|j: int|
                0 <= j < out@.len() && (#[trigger] out@[j]).0@ == k by {
                let b = choose|b: int|
                    0 <= b < old(self).buckets@.len() && (#[trigger] old(self).buckets@[b]).0@
                        == k;
                assert(out@[b].0@ == k);
            }
        }
        out
    }
}

/// For any sequence of frames recorded within one window, the flushed rate
/// for a key equals the total of the byte lengths recorded under that key
/// divided by the window duration, whenever that total fits the counter;
/// a key never recorded has rate zero (and appears in no flush snapshot).
pub proof fn lemma_flushed_rate(w: AggregationWindow, k: FlowKeyV)
    requires
        w.wf(),
    ensures
        sum_for(w.frames(), k) <= u64::MAX as int ==> w.spec_rate(k) == sum_for(w.frames(), k) / (
        w.dur() as int),
        !appears(w.frames(), k) ==> w.spec_rate(k) == 0,
{
    lemma_sum_nonneg(w.frames(), k);
    if !appears(w.frames(), k) {
        lemma_sum_absent(w.frames(), k);
    }
}

} // verus!
