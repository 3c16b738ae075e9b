//! The collector: one aggregation window, one per-window resolver cache and
//! the previous capture-stats snapshot, driven frame by frame.
//!
//! The surrounding loop owns the capture source, the clock and the name
//! lookups; the collector makes every decision: classification, cache
//! consultation, accounting and the flush.

use vstd::prelude::*;
use crate::decode::{classify_bytes, spec_decoded};
use crate::emit::{format_flows, format_meta_line, spec_flow_line, spec_meta_line};
use crate::frame::{spec_classify, Addr, ClassifiedFrame};
use crate::resolver::ResolverCache;
use crate::stats::{sample, spec_delta_rate, CaptureCounters};
use crate::text::spec_addr_str;
use crate::window::{appears, AggregationWindow, FlowKey, FlowKeyV};

verus! {

/// The fixed window duration, in seconds.
pub const WINDOW_SECONDS: u64 = 10;

/// The flow key a classified frame is accounted under, given the display
/// name its remote address resolved to.
pub open spec fn spec_key_of(name: Seq<char>, c: ClassifiedFrame) -> FlowKeyV {
    FlowKeyV { remote_name: name, direction: c.direction, protocol: c.protocol, port: c.port }
}

/// The whole per-interface accounting state.
pub struct Collector {
    window: AggregationWindow,
    resolver: ResolverCache,
    last_stats: CaptureCounters,
    iface: String,
    local_mac: [u8; 6],
    server_mode: bool,
}

impl Collector {
    pub closed spec fn spec_window(self) -> AggregationWindow {
        self.window
    }

    pub closed spec fn spec_resolver(self) -> ResolverCache {
        self.resolver
    }

    pub closed spec fn spec_last_stats(self) -> CaptureCounters {
        self.last_stats
    }

    pub closed spec fn spec_iface(self) -> Seq<char> {
        self.iface@
    }

    pub closed spec fn spec_local_mac(self) -> Seq<u8> {
        self.local_mac@
    }

    pub closed spec fn spec_server_mode(self) -> bool {
        self.server_mode
    }

    pub open spec fn wf(self) -> bool {
        &&& self.spec_window().wf()
        &&& self.spec_window().dur() == WINDOW_SECONDS
    }

    /// A fresh collector: empty window starting at `now`, empty cache,
    /// `initial_stats` as the previous counters snapshot.
    pub fn new(
        iface: String,
        local_mac: [u8; 6],
        resolve_names: bool,
        server_mode: bool,
        now: u64,
        initial_stats: CaptureCounters,
    ) -> (c: Collector)
        ensures
            c.wf(),
            c.spec_window().frames() == Seq::<(FlowKeyV, u64)>::empty(),
            c.spec_window().start() == now,
            c.spec_resolver().spec_resolve_names() == resolve_names,
            forall|a: Addr| c.spec_resolver().spec_find(a) is None,
            c.spec_last_stats() == initial_stats,
            c.spec_iface() == iface@,
            c.spec_local_mac() == local_mac@,
            c.spec_server_mode() == server_mode,
    {
        Collector {
            window: AggregationWindow::new(now, WINDOW_SECONDS),
            resolver: ResolverCache::new(resolve_names),
            last_stats: initial_stats,
            iface,
            local_mac,
            server_mode,
        }
    }

    /// Classify one captured frame against this collector's hardware address
    /// and mode: exactly the classification of the decoded frame when the
    /// bytes decode. `None` filters the frame out.
    pub fn classify_frame(&self, data: &[u8]) -> (r: Option<ClassifiedFrame>)
        ensures
            r == match spec_decoded(data@) {
                Some(f) => Some(
                    spec_classify(f, self.spec_local_mac(), self.spec_server_mode()),
                ),
                None => None,
            },
    {
        classify_bytes(data, &self.local_mac, self.server_mode)
    }

    /// Resolve a remote address from the cache or configuration alone:
    /// `None` exactly when an underlying lookup is still needed.
    pub fn resolve_local(&self, a: &Addr) -> (r: Option<String>)
        ensures
            r is None <==> self.spec_resolver().spec_lookup_needed(*a),
            r matches Some(n) ==> n@ == if self.spec_resolver().spec_resolve_names() {
                self.spec_resolver().spec_find(*a).unwrap()
            } else {
                spec_addr_str(*a)
            },
    {
        self.resolver.resolve_local(a)
    }

    /// Hand back the outcome of an underlying lookup for `a`; returns the
    /// display name (the resolved name, or the literal address form on
    /// failure) and caches it for the rest of the window.
    pub fn complete_resolution(&mut self, a: &Addr, looked_up: Option<String>) -> (r: String)
        ensures
            final(self).wf() == old(self).wf(),
            final(self).spec_window() == old(self).spec_window(),
            final(self).spec_last_stats() == old(self).spec_last_stats(),
            final(self).spec_iface() == old(self).spec_iface(),
            final(self).spec_local_mac() == old(self).spec_local_mac(),
            final(self).spec_server_mode() == old(self).spec_server_mode(),
            final(self).spec_resolver().spec_resolve_names() == old(
                self,
            ).spec_resolver().spec_resolve_names(),
            match old(self).spec_resolver().spec_find(*a) {
                Some(n) => r@ == n && final(self).spec_resolver() == old(self).spec_resolver(),
                None => {
                    &&& r@ == match looked_up {
                        Some(n) => n@,
                        None => spec_addr_str(*a),
                    }
                    &&& final(self).spec_resolver().spec_find(*a) == Some(r@)
                    &&& forall|b: Addr|
                        b != *a ==> #[trigger] final(self).spec_resolver().spec_find(b) == old(
                            self,
                        ).spec_resolver().spec_find(b)
                },
            },
    {
        self.resolver.complete(a, looked_up)
    }

    /// Account one classified frame under its resolved display name.
    pub fn record_frame(&mut self, name: String, c: &ClassifiedFrame)
        requires
            old(self).wf(),
        ensures
            final(self).wf(),
            final(self).spec_window().frames() == old(self).spec_window().frames().push(
                (spec_key_of(name@, *c), c.byte_len as u64),
            ),
            final(self).spec_window().start() == old(self).spec_window().start(),
            final(self).spec_resolver() == old(self).spec_resolver(),
            final(self).spec_last_stats() == old(self).spec_last_stats(),
            final(self).spec_iface() == old(self).spec_iface(),
            final(self).spec_local_mac() == old(self).spec_local_mac(),
            final(self).spec_server_mode() == old(self).spec_server_mode(),
    {
        let key = FlowKey {
            remote_name: name,
            direction: c.direction,
            protocol: c.protocol,
            port: c.port,
        };
        self.window.record(key, c.byte_len as u64);
    }

    /// Whether the current window has run out at time `now`.
    pub fn flush_due(&self, now: u64) -> (r: bool)
        ensures
            r == (now as int > self.spec_window().start() as int + self.spec_window().dur() as int),
    {
        self.window.elapsed(now)
    }

    /// Flush the window: render one metric line per flow key recorded in the
    /// window, then the meta line with the capture-counter rates between the
    /// previous snapshot and `current_stats`; clear the window and the
    /// resolver cache, restart at `now`, and retain `current_stats`.
    ///
    /// Besides the lines, the flush returns the snapshot of flushed
    /// `(key, rate)` pairs: one per key recorded in the window, each rate the
    /// key's accumulated count divided by the window duration, and line `i`
    /// renders pair `i`.
    pub fn flush(&mut self, now: u64, current_stats: CaptureCounters) -> (r: (
        Vec<String>,
        Vec<(FlowKey, u64)>,
    ))
        requires
            old(self).wf(),
        ensures
            final(self).wf(),
            final(self).spec_window().frames() == Seq::<(FlowKeyV, u64)>::empty(),
            final(self).spec_window().start() == now,
            forall|a: Addr| final(self).spec_resolver().spec_find(a) is None,
            final(self).spec_resolver().spec_resolve_names() == old(
                self,
            ).spec_resolver().spec_resolve_names(),
            final(self).spec_last_stats() == current_stats,
            final(self).spec_iface() == old(self).spec_iface(),
            final(self).spec_local_mac() == old(self).spec_local_mac(),
            final(self).spec_server_mode() == old(self).spec_server_mode(),
            forall|i: int|
                0 <= i < r.1@.len() ==> appears(old(self).spec_window().frames(), (
                #[trigger] r.1@[i]).0@) && r.1@[i].1 as int == old(self).spec_window().spec_rate(
                    r.1@[i].0@,
                ),
            forall|k: FlowKeyV|
                #[trigger] appears(old(self).spec_window().frames(), k) ==> exists|i: int|
                    0 <= i < r.1@.len() && (#[trigger] r.1@[i]).0@ == k,
            forall|i: int, j: int|
                0 <= i < j < r.1@.len() ==> (#[trigger] r.1@[i]).0@ != (#[trigger] r.1@[j]).0@,
            r.0@.len() == r.1@.len() + 1,
            forall|i: int|
                0 <= i < r.1@.len() ==> (#[trigger] r.0@[i])@ == spec_flow_line(
                    old(self).spec_iface(),
                    r.1@[i].0@,
                    r.1@[i].1,
                ),
            r.0@[r.0@.len() - 1]@ == spec_meta_line(
                old(self).spec_iface(),
                spec_delta_rate(
                    old(self).spec_last_stats().received,
                    current_stats.received,
                    WINDOW_SECONDS as u32,
                ) as u32,
                spec_delta_rate(
                    old(self).spec_last_stats().dropped,
                    current_stats.dropped,
                    WINDOW_SECONDS as u32,
                ) as u32,
                spec_delta_rate(
                    old(self).spec_last_stats().if_dropped,
                    current_stats.if_dropped,
                    WINDOW_SECONDS as u32,
                ) as u32,
            ),
    {
        let flows = self.window.flush(now);
        let mut out = format_flows(self.iface.as_str(), &flows);
        let (received_rate, dropped_rate, if_dropped_rate) = sample(
            &self.last_stats,
            &current_stats,
            WINDOW_SECONDS as u32,
        );
        let meta = format_meta_line(
            self.iface.as_str(),
            received_rate,
            dropped_rate,
            if_dropped_rate,
        );
        out.push(meta);
        self.resolver.clear();
        self.last_stats = current_stats;
        let r = (out, flows);
        proof {
            assert forall|k: FlowKeyV| #[trigger]
                appears(old(self).spec_window().frames(), k) implies exists|i: int|
                0 <= i < r.1@.len() && (#[trigger] r.1@[i]).0@ == k by {
                let b = choose|b: int| 0 <= b < r.1@.len() && (#[trigger] r.1@[b]).0@ == k;
                assert(0 <= b < r.1@.len() && r.1@[b].0@ == k);
            }
        }
        r
    }
}

} // verus!
