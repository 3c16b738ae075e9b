//! Frame classification: turning one decoded frame into a flow description.
//!
//! A captured frame is first decoded into a [`DecodedFrame`] (link-layer
//! source address, network header, transport header) and then classified
//! into a [`ClassifiedFrame`]: traffic direction, remote address, transport
//! protocol, recorded port and byte length.

use vstd::prelude::*;

verus! {

/// Direction of a frame relative to the local interface.
#[derive(Clone, Copy, PartialEq, Eq, Structural, Debug)]
pub enum Direction {
    Send,
    Recv,
}

/// Transport protocol of a classified frame.
#[derive(Clone, Copy, PartialEq, Eq, Structural, Debug)]
pub enum Protocol {
    Tcp,
    Udp,
}

/// A network-layer address, held as plain bytes.
#[derive(Clone, Copy, Debug)]
pub enum Addr {
    V4([u8; 4]),
    V6([u8; 16]),
}

/// Network header fields that classification reads: the source and
/// destination addresses and the length the packet is carried with
/// (the IPv4 total length, or the IPv6 payload length).
#[allow(inconsistent_fields)]
#[derive(Clone, Copy, Debug)]
pub enum NetHeader {
    V4 { source: [u8; 4], destination: [u8; 4], total_len: u16 },
    V6 { source: [u8; 16], destination: [u8; 16], payload_len: u16 },
}

/// Transport header fields that classification reads: the two ports.
#[derive(Clone, Copy, Debug)]
pub enum TransportHeader {
    Tcp { source_port: u16, destination_port: u16 },
    Udp { source_port: u16, destination_port: u16 },
}

/// A decoded frame of a recognized shape: Ethernet II link layer,
/// IPv4 or IPv6 network layer, TCP or UDP transport layer.
/// Frames of any other shape are unclassifiable and never reach this type.
#[derive(Clone, Copy, Debug)]
pub struct DecodedFrame {
    pub src_mac: [u8; 6],
    pub net: NetHeader,
    pub transport: TransportHeader,
}

/// The classification of one frame: what the aggregation window records.
/// `byte_len` is the length of the IP packet as carried, which for IPv6
/// includes the 40-byte fixed header on top of the payload length.
#[derive(Clone, Copy, Debug)]
pub struct ClassifiedFrame {
    pub direction: Direction,
    pub remote: Addr,
    pub protocol: Protocol,
    pub port: u16,
    pub byte_len: u32,
}

/// A frame whose link-layer source equals the local hardware address was
/// sent by this host; every other recognized frame was received.
pub open spec fn spec_direction(src_mac: Seq<u8>, local_mac: Seq<u8>) -> Direction {
    if src_mac == local_mac {
        Direction::Send
    } else {
        Direction::Recv
    }
}

/// The recorded port: the local port in server mode (source port when
/// sending, destination port when receiving), the remote port otherwise.
pub open spec fn spec_port(
    server_mode: bool,
    direction: Direction,
    source_port: u16,
    destination_port: u16,
) -> u16 {
    if server_mode == (direction == Direction::Send) {
        source_port
    } else {
        destination_port
    }
}

/// The remote address: the destination when sending, the source when receiving.
pub open spec fn spec_remote(net: NetHeader, direction: Direction) -> Addr {
    match net {
        NetHeader::V4 { source, destination, .. } => if direction == Direction::Send {
            Addr::V4(destination)
        } else {
            Addr::V4(source)
        },
        NetHeader::V6 { source, destination, .. } => if direction == Direction::Send {
            Addr::V6(destination)
        } else {
            Addr::V6(source)
        },
    }
}

/// The byte length a frame is accounted with: the length of the IP packet
/// as carried, not the captured buffer length. For IPv4 that is the total
/// length; for IPv6 the payload length plus the 40-byte fixed header.
pub open spec fn spec_byte_len(net: NetHeader) -> u32 {
    match net {
        NetHeader::V4 { total_len, .. } => total_len as u32,
        NetHeader::V6 { payload_len, .. } => (payload_len + 40) as u32,
    }
}

pub open spec fn spec_protocol(t: TransportHeader) -> Protocol {
    match t {
        TransportHeader::Tcp { .. } => Protocol::Tcp,
        TransportHeader::Udp { .. } => Protocol::Udp,
    }
}

pub open spec fn spec_source_port(t: TransportHeader) -> u16 {
    match t {
        TransportHeader::Tcp { source_port, .. } => source_port,
        TransportHeader::Udp { source_port, .. } => source_port,
    }
}

pub open spec fn spec_destination_port(t: TransportHeader) -> u16 {
    match t {
        TransportHeader::Tcp { destination_port, .. } => destination_port,
        TransportHeader::Udp { destination_port, .. } => destination_port,
    }
}

/// The full classification of a decoded frame.
pub open spec fn spec_classify(f: DecodedFrame, local_mac: Seq<u8>, server_mode: bool) -> ClassifiedFrame {
    let direction = spec_direction(f.src_mac@, local_mac);
    ClassifiedFrame {
        direction,
        remote: spec_remote(f.net, direction),
        protocol: spec_protocol(f.transport),
        port: spec_port(
            server_mode,
            direction,
            spec_source_port(f.transport),
            spec_destination_port(f.transport),
        ),
        byte_len: spec_byte_len(f.net),
    }
}

/// Compare two hardware addresses byte for byte.
pub fn mac_eq(a: &[u8; 6], b: &[u8; 6]) -> (r: bool)
    ensures
        r == (a@ == b@),
{
    let r = a[0] == b[0] && a[1] == b[1] && a[2] == b[2] && a[3] == b[3] && a[4] == b[4]
        && a[5] == b[5];
    proof {
        if r {
            assert(a@ =~= b@);
        }
    }
    r
}

/// Classify a decoded frame: decide direction, remote address, protocol,
/// recorded port and byte length.
pub fn classify(f: &DecodedFrame, local_mac: &[u8; 6], server_mode: bool) -> (r: ClassifiedFrame)
    ensures
        r == spec_classify(*f, local_mac@, server_mode),
{
    let direction = if mac_eq(&f.src_mac, local_mac) {
        Direction::Send
    } else {
        Direction::Recv
    };
    let outbound = direction == Direction::Send;
    let (remote, byte_len) = match &f.net {
        NetHeader::V4 { source, destination, total_len } => (
            Addr::V4(if outbound {
                *destination
            } else {
                *source
            }),
            *total_len as u32,
        ),
        NetHeader::V6 { source, destination, payload_len } => (
            Addr::V6(if outbound {
                *destination
            } else {
                *source
            }),
            *payload_len as u32 + 40,
        ),
    };
    let (protocol, source_port, destination_port) = match &f.transport {
        TransportHeader::Tcp { source_port, destination_port } => (
            Protocol::Tcp,
            *source_port,
            *destination_port,
        ),
        TransportHeader::Udp { source_port, destination_port } => (
            Protocol::Udp,
            *source_port,
            *destination_port,
        ),
    };
    let port = if server_mode == outbound {
        source_port
    } else {
        destination_port
    };
    ClassifiedFrame { direction, remote, protocol, port, byte_len }
}

/// Direction is deterministic: a frame whose link-layer source equals the
/// local hardware address is always classified as sent, any other recognized
/// frame as received.
pub proof fn lemma_direction_deterministic(f: DecodedFrame, local_mac: Seq<u8>, server_mode: bool)
    ensures
        f.src_mac@ == local_mac ==> spec_classify(f, local_mac, server_mode).direction
            == Direction::Send,
        f.src_mac@ != local_mac ==> spec_classify(f, local_mac, server_mode).direction
            == Direction::Recv,
{
}

/// Port selection is a pure function of the mode, the direction and the two
/// transport ports: in server mode the local port is recorded, otherwise the
/// remote port.
pub proof fn lemma_port_selection(
    server_mode: bool,
    direction: Direction,
    source_port: u16,
    destination_port: u16,
)
    ensures
        !server_mode && direction == Direction::Send ==> spec_port(
            server_mode,
            direction,
            source_port,
            destination_port,
        ) == destination_port,
        !server_mode && direction == Direction::Recv ==> spec_port(
            server_mode,
            direction,
            source_port,
            destination_port,
        ) == source_port,
        server_mode && direction == Direction::Send ==> spec_port(
            server_mode,
            direction,
            source_port,
            destination_port,
        ) == source_port,
        server_mode && direction == Direction::Recv ==> spec_port(
            server_mode,
            direction,
            source_port,
            destination_port,
        ) == destination_port,
{
}

} // verus!
