//! Metric-line rendering: one `packetstats` line per flow key and one
//! `packetstats_meta` line per flush.

use vstd::prelude::*;
use vstd::string::StringExecFns;
use crate::frame::{Direction, Protocol};
use crate::text::{push_dec, spec_dec};
use crate::window::{FlowKey, FlowKeyV};

verus! {

/// The word a direction is emitted as.
pub open spec fn spec_dir_str(d: Direction) -> Seq<char> {
    match d {
        Direction::Send => "send"@,
        Direction::Recv => "recv"@,
    }
}

/// The word a protocol is emitted as.
pub open spec fn spec_proto_str(p: Protocol) -> Seq<char> {
    match p {
        Protocol::Tcp => "tcp"@,
        Protocol::Udp => "udp"@,
    }
}

/// One flow metric line.
pub open spec fn spec_flow_line(iface: Seq<char>, k: FlowKeyV, rate: u64) -> Seq<char> {
    "packetstats,interface="@ + iface + ",address="@ + k.remote_name + ",counter="@ + spec_dir_str(
        k.direction,
    ) + ",protocol="@ + spec_proto_str(k.protocol) + ",port="@ + spec_dec(k.port as nat)
        + " value="@ + spec_dec(rate as nat)
}

/// The per-flush meta line with the capture-stats rates.
pub open spec fn spec_meta_line(iface: Seq<char>, received: u32, dropped: u32, if_dropped: u32) -> Seq<char> {
    "packetstats_meta,interface="@ + iface + " received="@ + spec_dec(received as nat)
        + ",dropped="@ + spec_dec(dropped as nat) + ",if_dropped="@ + spec_dec(if_dropped as nat)
}

/// The word a direction is emitted as.
pub fn dir_str(d: &Direction) -> (r: &'static str)
    ensures
        r@ == spec_dir_str(*d),
{
    match d {
        Direction::Send => "send",
        Direction::Recv => "recv",
    }
}

/// The word a protocol is emitted as.
pub fn proto_str(p: &Protocol) -> (r: &'static str)
    ensures
        r@ == spec_proto_str(*p),
{
    match p {
        Protocol::Tcp => "tcp",
        Protocol::Udp => "udp",
    }
}

/// Render one flow metric line.
pub fn format_flow_line(iface: &str, key: &FlowKey, rate: u64) -> (s: String)
    ensures
        s@ == spec_flow_line(iface@, key@, rate),
{
    let mut s = String::new();
    s.append("packetstats,interface=");
    s.append(iface);
    s.append(",address=");
    s.append(key.remote_name.as_str());
    s.append(",counter=");
    s.append(dir_str(&key.direction));
    s.append(",protocol=");
    s.append(proto_str(&key.protocol));
    s.append(",port=");
    push_dec(&mut s, key.port as u64);
    s.append(" value=");
    push_dec(&mut s, rate);
    proof {
        assert(s@ =~= spec_flow_line(iface@, key@, rate));
    }
    s
}

/// Render the per-flush meta line.
pub fn format_meta_line(iface: &str, received: u32, dropped: u32, if_dropped: u32) -> (s: String)
    ensures
        s@ == spec_meta_line(iface@, received, dropped, if_dropped),
{
    let mut s = String::new();
    s.append("packetstats_meta,interface=");
    s.append(iface);
    s.append(" received=");
    push_dec(&mut s, received as u64);
    s.append(",dropped=");
    push_dec(&mut s, dropped as u64);
    s.append(",if_dropped=");
    push_dec(&mut s, if_dropped as u64);
    proof {
        assert(s@ =~= spec_meta_line(iface@, received, dropped, if_dropped));
    }
    s
}

/// Render one line per flushed flow, in snapshot order.
pub fn format_flows(iface: &str, flows: &Vec<(FlowKey, u64)>) -> (out: Vec<String>)
    ensures
        out@.len() == flows@.len(),
        forall|i: int|
            0 <= i < flows@.len() ==> (#[trigger] out@[i])@ == spec_flow_line(
                iface@,
                flows@[i].0@,
                flows@[i].1,
            ),
{
    let mut out: Vec<String> = Vec::new();
    let n = flows.len();
    let mut i: usize = 0;
    while i < n
        invariant
            n == flows@.len(),
            0 <= i <= n,
            out@.len() == i,
            forall|j: int|
                0 <= j < i ==> (#[trigger] out@[j])@ == spec_flow_line(
                    iface@,
                    flows@[j].0@,
                    flows@[j].1,
                ),
        decreases n - i,
    {
        let line = format_flow_line(iface, &flows[i].0, flows[i].1);
        out.push(line);
        i += 1;
    }
    out
}

} // verus!
