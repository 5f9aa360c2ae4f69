//! Per-layer header parsers. The byte-level grammar is the parsing crate's
//! business; each exec wrapper here calls one of its parse functions, and its
//! contract states, over the spec functions below, exactly what that parse
//! function returns on the bytes it was given.

use vstd::prelude::*;

use crate::record::{EtherKind, IpProto, Ipv4Header, Ipv4HeaderV, Ipv6Header, Ipv6HeaderV,
    LinkHeader, LinkHeaderV, TcpHeader, UdpHeader};

verus! {

/// The big-endian 16-bit value at offset `i`.
pub open spec fn be16(b: Seq<u8>, i: int) -> u16 {
    ((b[i] as int) * 0x100 + (b[i + 1] as int)) as u16
}

/// The big-endian 32-bit value at offset `i`.
pub open spec fn be32(b: Seq<u8>, i: int) -> u32 {
    ((b[i] as int) * 0x1000000 + (b[i + 1] as int) * 0x10000 + (b[i + 2] as int) * 0x100
        + (b[i + 3] as int)) as u32
}

/// How the decoder classifies a link-layer ethertype value.
pub open spec fn ether_kind_of(ethertype: u16) -> EtherKind {
    if ethertype == 0x0800 {
        EtherKind::IPv4
    } else if ethertype == 0x86DD {
        EtherKind::IPv6
    } else {
        EtherKind::Other
    }
}

/// How the decoder classifies an IP upper-layer protocol number.
pub open spec fn ip_proto_of(protocol: u8) -> IpProto {
    if protocol == 6 {
        IpProto::Tcp
    } else if protocol == 17 {
        IpProto::Udp
    } else {
        IpProto::Other
    }
}

/// What parsing a link-layer header from `b` yields: fourteen bytes holding
/// the destination address, the source address and a big-endian ethertype.
pub open spec fn spec_link(b: Seq<u8>) -> Option<LinkHeaderV> {
    if b.len() < 14 {
        None
    } else {
        Some(LinkHeaderV {
            destination: b.subrange(0, 6),
            source: b.subrange(6, 12),
            kind: ether_kind_of(be16(b, 12)),
        })
    }
}

/// What parsing an IPv4 header from `b` yields: twenty bytes, with the
/// upper-layer protocol number at offset 9, the time-to-live at offset 8,
/// and the two addresses in the last eight bytes.
pub open spec fn spec_ipv4(b: Seq<u8>) -> Option<Ipv4HeaderV> {
    if b.len() < 20 {
        None
    } else {
        Some(Ipv4HeaderV {
            source: b.subrange(12, 16),
            destination: b.subrange(16, 20),
            protocol: ip_proto_of(b[9]),
            ttl: b[8],
        })
    }
}

/// What parsing an IPv6 header from `b` yields: forty bytes, with the
/// next-header protocol number at offset 6, the hop limit at offset 7,
/// and the two addresses in the last thirty-two bytes.
pub open spec fn spec_ipv6(b: Seq<u8>) -> Option<Ipv6HeaderV> {
    if b.len() < 40 {
        None
    } else {
        Some(Ipv6HeaderV {
            source: b.subrange(8, 24),
            destination: b.subrange(24, 40),
            next_header: ip_proto_of(b[6]),
            hop_limit: b[7],
        })
    }
}

/// The fixed-offset TCP fields: ports, sequence and acknowledgment numbers.
pub open spec fn spec_tcp_fields(b: Seq<u8>) -> TcpHeader {
    TcpHeader {
        source_port: be16(b, 0),
        dest_port: be16(b, 2),
        sequence_no: be32(b, 4),
        ack_no: be32(b, 8),
    }
}

/// Whether the TCP parser accepts `b`: the twenty fixed bytes must be there,
/// and the data-offset field (the high nibble at offset 12) must not announce
/// more option bytes than the buffer holds. An option list that is present
/// but malformed is tolerated; this decoder drops it either way.
pub open spec fn tcp_accepts(b: Seq<u8>) -> bool {
    &&& b.len() >= 20
    &&& {
        let data_offset = (b[12] as int) / 16;
        data_offset <= 5 || (data_offset - 5) * 4 <= b.len() - 20
    }
}

/// What parsing a UDP header from `b` yields: four big-endian 16-bit fields.
pub open spec fn spec_udp(b: Seq<u8>) -> Option<UdpHeader> {
    if b.len() < 8 {
        None
    } else {
        Some(UdpHeader {
            source_port: be16(b, 0),
            dest_port: be16(b, 2),
            length: be16(b, 4),
            checksum: be16(b, 6),
        })
    }
}

/// Relies on pktparse::ethernet::parse_ethernet_frame: it takes two six-byte
/// addresses and a big-endian ethertype, succeeds exactly on fourteen or more
/// bytes, and leaves the rest of the input untouched.
#[verifier::external_body]
pub(crate) fn parse_link(b: &[u8]) -> (r: Option<(Vec<u8>, LinkHeader)>)
    ensures
        r is Some <==> b@.len() >= 14,
        r matches Some((rest, h)) ==> rest@ == b@.skip(14) && Some(h@) == spec_link(b@),
{
    match pktparse::ethernet::parse_ethernet_frame(b) {
        Ok((rest, frame)) => {
            let kind = match frame.ethertype {
                pktparse::ethernet::EtherType::IPv4 => EtherKind::IPv4,
                pktparse::ethernet::EtherType::IPv6 => EtherKind::IPv6,
                _ => EtherKind::Other,
            };
            let destination = frame.dest_mac.0.to_vec();
            let source = frame.source_mac.0.to_vec();
            Some((rest.to_vec(), LinkHeader { destination, source, kind }))
        },
        Err(_) => None,
    }
}

/// Relies on pktparse::ipv4::parse_ipv4_header: it takes exactly twenty bytes
/// at fixed offsets, succeeds exactly on twenty or more bytes, and leaves the
/// rest of the input untouched.
#[verifier::external_body]
pub(crate) fn parse_ipv4(b: &[u8]) -> (r: Option<(Vec<u8>, Ipv4Header)>)
    ensures
        r is Some <==> b@.len() >= 20,
        r matches Some((rest, h)) ==> rest@ == b@.skip(20) && Some(h@) == spec_ipv4(b@),
{
    match pktparse::ipv4::parse_ipv4_header(b) {
        Ok((rest, h)) => {
            let protocol = match h.protocol {
                pktparse::ip::IPProtocol::TCP => IpProto::Tcp,
                pktparse::ip::IPProtocol::UDP => IpProto::Udp,
                _ => IpProto::Other,
            };
            let source = h.source_addr.octets().to_vec();
            let destination = h.dest_addr.octets().to_vec();
            Some((rest.to_vec(), Ipv4Header { source, destination, protocol, ttl: h.ttl }))
        },
        Err(_) => None,
    }
}

/// Relies on pktparse::ipv6::parse_ipv6_header: it takes exactly forty bytes
/// at fixed offsets, succeeds exactly on forty or more bytes, and leaves the
/// rest of the input untouched.
#[verifier::external_body]
pub(crate) fn parse_ipv6(b: &[u8]) -> (r: Option<(Vec<u8>, Ipv6Header)>)
    ensures
        r is Some <==> b@.len() >= 40,
        r matches Some((rest, h)) ==> rest@ == b@.skip(40) && Some(h@) == spec_ipv6(b@),
{
    match pktparse::ipv6::parse_ipv6_header(b) {
        Ok((rest, h)) => {
            let next_header = match h.next_header {
                pktparse::ip::IPProtocol::TCP => IpProto::Tcp,
                pktparse::ip::IPProtocol::UDP => IpProto::Udp,
                _ => IpProto::Other,
            };
            let source = h.source_addr.octets().to_vec();
            let destination = h.dest_addr.octets().to_vec();
            Some((rest.to_vec(), Ipv6Header { source, destination, next_header, hop_limit: h.hop_limit }))
        },
        Err(_) => None,
    }
}

/// Relies on pktparse::tcp::parse_tcp_header: the ports and sequencing fields
/// sit at fixed offsets in the first twenty bytes, and it accepts the input
/// exactly under `tcp_accepts`.
#[verifier::external_body]
pub(crate) fn parse_tcp(b: &[u8]) -> (r: Option<TcpHeader>)
    ensures
        r is Some <==> tcp_accepts(b@),
        r matches Some(h) ==> h == spec_tcp_fields(b@),
{
    match pktparse::tcp::parse_tcp_header(b) {
        Ok((_, h)) => Some(TcpHeader {
            source_port: h.source_port,
            dest_port: h.dest_port,
            sequence_no: h.sequence_no,
            ack_no: h.ack_no,
        }),
        Err(_) => None,
    }
}

/// Relies on pktparse::udp::parse_udp_header: it takes four big-endian 16-bit
/// fields and succeeds exactly on eight or more bytes.
#[verifier::external_body]
pub(crate) fn parse_udp(b: &[u8]) -> (r: Option<UdpHeader>)
    ensures
        r == spec_udp(b@),
{
    match pktparse::udp::parse_udp_header(b) {
        Ok((_, h)) => Some(UdpHeader {
            source_port: h.source_port,
            dest_port: h.dest_port,
            length: h.length,
            checksum: h.checksum,
        }),
        Err(_) => None,
    }
}

} // verus!
