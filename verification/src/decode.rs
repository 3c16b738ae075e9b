//! Decoding raw captured frames into [`DecodedFrame`] values.
//!
//! The byte-level header parsing is done by the external frame decoder
//! (etherparse); this module only carries its results over into the
//! library's own plain-value types. The decode is a pure function of the
//! byte buffer, so its result carries a name, [`spec_decoded`]; everything
//! done with a decoded frame afterwards — classification, aggregation,
//! rendering — is verified for every value the decoder can hand back.

use vstd::prelude::*;
use crate::frame::{
    classify,
    spec_classify,
    ClassifiedFrame,
    DecodedFrame,
    NetHeader,
    TransportHeader,
};

verus! {

/// What the external decoder finds in a byte buffer: `Some` exactly on
/// frames of the recognized shape (Ethernet II carrying IPv4 or IPv6
/// carrying TCP or UDP), with the fields the classifier reads. The decode
/// depends on the bytes alone; nothing more is assumed of it here.
pub uninterp spec fn spec_decoded(data: Seq<u8>) -> Option<DecodedFrame>;

/// The external decoder's sliced-frame type, opaque to verification; the
/// wrappers below read its layers out into the library's own types.
#[verifier::external_type_specification]
#[verifier::external_body]
pub struct ExSlicedPacket<'a>(etherparse::SlicedPacket<'a>);

/// Relies on etherparse::SlicedPacket::from_ethernet: slices a captured
/// Ethernet frame into link, network and transport layers, or fails on
/// bytes it cannot decode.
#[verifier::external_body]
fn slice_ethernet<'a>(data: &'a [u8]) -> (r: Option<etherparse::SlicedPacket<'a>>) {
    etherparse::SlicedPacket::from_ethernet(data).ok()
}

/// Relies on etherparse::Ethernet2Slice::source: the six bytes of the
/// link-layer source address. A frame whose link layer is not Ethernet II
/// yields nothing.
#[verifier::external_body]
fn link_source(p: &etherparse::SlicedPacket) -> (r: Option<[u8; 6]>) {
    match &p.link {
        Some(etherparse::LinkSlice::Ethernet2(e)) => Some(e.source()),
        _ => None,
    }
}

/// Relies on etherparse::Ipv4HeaderSlice::source, destination and total_len,
/// and etherparse::Ipv6HeaderSlice::source, destination and payload_length:
/// the network-layer addresses as plain bytes and the lengths the carried
/// length is computed from. A frame whose network layer is neither IPv4 nor
/// IPv6 yields nothing.
#[verifier::external_body]
fn net_header(p: &etherparse::SlicedPacket) -> (r: Option<NetHeader>) {
    match &p.net {
        Some(etherparse::NetSlice::Ipv4(v)) => {
            let h = v.header();
            Some(NetHeader::V4 { source: h.source(), destination: h.destination(), total_len: h.total_len() })
        },
        Some(etherparse::NetSlice::Ipv6(v)) => {
            let h = v.header();
            Some(NetHeader::V6 { source: h.source(), destination: h.destination(), payload_len: h.payload_length() })
        },
        _ => None,
    }
}

/// Relies on etherparse::TcpSlice::source_port and destination_port, and
/// etherparse::UdpSlice::source_port and destination_port. A frame whose
/// transport layer is neither TCP nor UDP yields nothing.
#[verifier::external_body]
fn transport_header(p: &etherparse::SlicedPacket) -> (r: Option<TransportHeader>) {
    match &p.transport {
        Some(etherparse::TransportSlice::Tcp(t)) => {
            Some(TransportHeader::Tcp { source_port: t.source_port(), destination_port: t.destination_port() })
        },
        Some(etherparse::TransportSlice::Udp(u)) => {
            Some(TransportHeader::Udp { source_port: u.source_port(), destination_port: u.destination_port() })
        },
        _ => None,
    }
}

/// Relies on the wrappers above, and so on etherparse's slicing being a
/// pure function of the byte buffer: [`spec_decoded`] names the frame this
/// composition decodes, and this call returns exactly that.
#[verifier::external_body]
fn decode_raw(data: &[u8]) -> (r: Option<DecodedFrame>)
    ensures
        r == spec_decoded(data@),
{
    let p = slice_ethernet(data)?;
    let src_mac = link_source(&p)?;
    let net = net_header(&p)?;
    let transport = transport_header(&p)?;
    Some(DecodedFrame { src_mac, net, transport })
}

/// Decode one captured frame, keeping only frames of a recognized shape:
/// Ethernet II carrying IPv4 or IPv6 carrying TCP or UDP. A malformed or
/// unrecognized frame yields `None` — filtering, not an error.
pub fn decode_frame(data: &[u8]) -> (r: Option<DecodedFrame>)
    ensures
        r == spec_decoded(data@),
{
    decode_raw(data)
}

/// Decode and classify one captured frame: exactly the classification of
/// the decoded frame when the bytes decode, and `None` when they do not.
pub fn classify_bytes(data: &[u8], local_mac: &[u8; 6], server_mode: bool) -> (r: Option<
    ClassifiedFrame,
>)
    ensures
        r == match spec_decoded(data@) {
            Some(f) => Some(spec_classify(f, local_mac@, server_mode)),
            None => None,
        },
{
    match decode_frame(data) {
        Some(f) => Some(classify(&f, local_mac, server_mode)),
        None => None,
    }
}

} // verus!
