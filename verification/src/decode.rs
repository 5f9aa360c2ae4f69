//! The layer decoder: strict top-down decode of one raw frame, each layer
//! consuming the remainder left by the previous one. A parse failure at any
//! layer leaves that layer and all deeper layers absent; decoding itself
//! never fails. A frame too short even for a link header carries no link
//! header at all (the "silently absent" policy).

use vstd::prelude::*;

use crate::parse::{parse_ipv4, parse_ipv6, parse_link, parse_tcp, parse_udp, spec_ipv4,
    spec_ipv6, spec_link, spec_tcp_fields, spec_udp, tcp_accepts, ether_kind_of, ip_proto_of, be16};
use crate::record::{CapturedRecord, EtherKind, FrameMeta, IpProto, NetworkLayer, NetworkLayerV,
    RawFrame, RecordV, TransportLayer};

verus! {

/// The transport layer decoded from `b`, given the network layer's
/// upper-layer protocol identifier.
pub open spec fn spec_transport(proto: IpProto, b: Seq<u8>) -> Option<TransportLayer> {
    match proto {
        IpProto::Tcp => if tcp_accepts(b) {
            Some(TransportLayer::Tcp(spec_tcp_fields(b)))
        } else {
            None
        },
        IpProto::Udp => match spec_udp(b) {
            Some(h) => Some(TransportLayer::Udp(h)),
            None => None,
        },
        IpProto::Other => None,
    }
}

/// The record that decoding a frame with bytes `data` and metadata `meta`
/// yields. This is the decoder's whole behaviour, as a function of the bytes.
pub open spec fn spec_decode(data: Seq<u8>, meta: FrameMeta) -> RecordV {
    match spec_link(data) {
        None => RecordV { meta, link: None, network: None, transport: None },
        Some(lh) => {
            let rest = data.skip(14);
            match lh.kind {
                EtherKind::IPv4 => match spec_ipv4(rest) {
                    None => RecordV { meta, link: Some(lh), network: None, transport: None },
                    Some(nh) => RecordV {
                        meta,
                        link: Some(lh),
                        network: Some(NetworkLayerV::V4(nh)),
                        transport: spec_transport(nh.protocol, rest.skip(20)),
                    },
                },
                EtherKind::IPv6 => match spec_ipv6(rest) {
                    None => RecordV { meta, link: Some(lh), network: None, transport: None },
                    Some(nh) => RecordV {
                        meta,
                        link: Some(lh),
                        network: Some(NetworkLayerV::V6(nh)),
                        transport: spec_transport(nh.next_header, rest.skip(40)),
                    },
                },
                EtherKind::Other => RecordV { meta, link: Some(lh), network: None, transport: None },
            }
        },
    }
}

/// Decode one raw frame through the link, network and transport layers.
/// The result is exactly `spec_decode` of the frame's bytes: decoding is a
/// pure function of the frame, so decoding the same bytes twice yields the
/// same record.
pub fn decode(frame: &RawFrame) -> (r: CapturedRecord)
    ensures
        r@ == spec_decode(frame.data@, frame.meta),
        r@.wf(),
{
    proof {
        lemma_decode_wf(frame.data@, frame.meta);
    }
    let meta = frame.meta;
    let link = parse_link(frame.data.as_slice());
    match link {
        None => CapturedRecord { meta, link: None, network: None, transport: None },
        Some((rest, lh)) => {
            match lh.kind {
                EtherKind::IPv4 => match parse_ipv4(rest.as_slice()) {
                    None => CapturedRecord {
                        meta,
                        link: Some(lh),
                        network: None,
                        transport: None,
                    },
                    Some((rest2, nh)) => {
                        let transport = decode_transport(nh.protocol, rest2.as_slice());
                        CapturedRecord {
                            meta,
                            link: Some(lh),
                            network: Some(NetworkLayer::V4(nh)),
                            transport,
                        }
                    },
                },
                EtherKind::IPv6 => match parse_ipv6(rest.as_slice()) {
                    None => CapturedRecord {
                        meta,
                        link: Some(lh),
                        network: None,
                        transport: None,
                    },
                    Some((rest2, nh)) => {
                        let transport = decode_transport(nh.next_header, rest2.as_slice());
                        CapturedRecord {
                            meta,
                            link: Some(lh),
                            network: Some(NetworkLayer::V6(nh)),
                            transport,
                        }
                    },
                },
                EtherKind::Other => CapturedRecord {
                    meta,
                    link: Some(lh),
                    network: None,
                    transport: None,
                },
            }
        },
    }
}

/// Decode the transport layer from the bytes the network layer left over.
fn decode_transport(proto: IpProto, b: &[u8]) -> (r: Option<TransportLayer>)
    ensures
        r == spec_transport(proto, b@),
{
    match proto {
        IpProto::Tcp => match parse_tcp(b) {
            Some(h) => Some(TransportLayer::Tcp(h)),
            None => None,
        },
        IpProto::Udp => match parse_udp(b) {
            Some(h) => Some(TransportLayer::Udp(h)),
            None => None,
        },
        IpProto::Other => None,
    }
}

/// Every record the decoder yields is well formed: the addresses it carries
/// have the lengths their layers prescribe.
pub proof fn lemma_decode_wf(data: Seq<u8>, meta: FrameMeta)
    ensures
        spec_decode(data, meta).wf(),
{
}

/// Idempotence law: any two records that decoding one and the same frame
/// yields are identical — the decoder's contract pins its result to a
/// function of the frame's bytes and metadata alone.
pub proof fn lemma_decode_deterministic(data: Seq<u8>, meta: FrameMeta, r1: RecordV, r2: RecordV)
    requires
        r1 == spec_decode(data, meta),
        r2 == spec_decode(data, meta),
    ensures
        r1 == r2,
{
}

/// The decoder never proceeds past a layer it could not positively identify:
/// a record without a link layer carries no network layer, and one without a
/// network layer carries no transport layer.
pub proof fn lemma_no_layer_skipped(data: Seq<u8>, meta: FrameMeta)
    ensures
        spec_decode(data, meta).link is None ==> spec_decode(data, meta).network is None,
        spec_decode(data, meta).network is None ==> spec_decode(data, meta).transport is None,
{
}

/// A frame shorter than the minimal link header decodes to a record with no
/// layer at all, so in particular no network and no transport layer.
pub proof fn lemma_short_frame(data: Seq<u8>, meta: FrameMeta)
    requires
        data.len() < 14,
    ensures
        spec_decode(data, meta).link is None,
        spec_decode(data, meta).network is None,
        spec_decode(data, meta).transport is None,
{
}

/// A frame whose link-layer discriminator names neither IPv4 nor IPv6
/// decodes to a record with no network and no transport layer.
pub proof fn lemma_unsupported_network(data: Seq<u8>, meta: FrameMeta)
    requires
        data.len() >= 14,
        ether_kind_of(be16(data, 12)) == EtherKind::Other,
    ensures
        spec_decode(data, meta).link is Some,
        spec_decode(data, meta).network is None,
        spec_decode(data, meta).transport is None,
{
}

/// A frame with a valid IPv4 header whose upper-layer protocol is neither
/// TCP nor UDP decodes to a record with a network layer but no transport
/// layer.
pub proof fn lemma_ipv4_unsupported_transport(data: Seq<u8>, meta: FrameMeta)
    requires
        data.len() >= 34,
        ether_kind_of(be16(data, 12)) == EtherKind::IPv4,
        spec_ipv4(data.skip(14)) matches Some(nh) && nh.protocol == IpProto::Other,
    ensures
        spec_decode(data, meta).network matches Some(n) && n is V4,
        spec_decode(data, meta).transport is None,
{
}

/// A frame with a valid IPv6 header whose next-header protocol is neither
/// TCP nor UDP decodes to a record with a network layer but no transport
/// layer.
pub proof fn lemma_ipv6_unsupported_transport(data: Seq<u8>, meta: FrameMeta)
    requires
        data.len() >= 54,
        ether_kind_of(be16(data, 12)) == EtherKind::IPv6,
        spec_ipv6(data.skip(14)) matches Some(nh) && nh.next_header == IpProto::Other,
    ensures
        spec_decode(data, meta).network matches Some(n) && n is V6,
        spec_decode(data, meta).transport is None,
{
}

/// A frame with a valid IPv4 header carrying TCP, whose TCP header the
/// transport parser accepts, decodes completely, to exactly the TCP fields
/// at their fixed offsets in the remainder.
pub proof fn lemma_ipv4_tcp_decodes_completely(data: Seq<u8>, meta: FrameMeta)
    requires
        data.len() >= 34,
        ether_kind_of(be16(data, 12)) == EtherKind::IPv4,
        ip_proto_of(data.skip(14)[9]) == IpProto::Tcp,
        tcp_accepts(data.skip(14).skip(20)),
    ensures
        spec_decode(data, meta).is_complete(),
        spec_decode(data, meta).transport == Some(TransportLayer::Tcp(spec_tcp_fields(
            data.skip(14).skip(20),
        ))),
{
}

/// A frame with a valid IPv4 header carrying UDP, with a whole UDP header in
/// the remainder, decodes completely, to exactly the UDP fields.
pub proof fn lemma_ipv4_udp_decodes_completely(data: Seq<u8>, meta: FrameMeta)
    requires
        data.len() >= 42,
        ether_kind_of(be16(data, 12)) == EtherKind::IPv4,
        ip_proto_of(data.skip(14)[9]) == IpProto::Udp,
    ensures
        spec_decode(data, meta).is_complete(),
        spec_decode(data, meta).transport == Some(TransportLayer::Udp(
            spec_udp(data.skip(14).skip(20)).unwrap(),
        )),
{
}

} // verus!

