use sniffer::decode::decode;
use sniffer::record::{CapturedRecord, EtherKind, FrameMeta, IpProto, LinkHeader, NetworkLayer,
    RawFrame, TransportLayer};

fn meta(wire_len: u32) -> FrameMeta {
    FrameMeta { ts_sec: 5, ts_usec: 0, wire_len, captured_len: wire_len }
}

fn frame(data: Vec<u8>) -> RawFrame {
    let len = data.len() as u32;
    RawFrame { meta: meta(len), data }
}

fn eth_header(ethertype: [u8; 2]) -> Vec<u8> {
    let mut b = vec![0x11, 0x22, 0x33, 0x44, 0x55, 0x66]; // destination
    b.extend_from_slice(&[0xaa, 0xbb, 0xcc, 0xdd, 0xee, 0xff]); // source
    b.extend_from_slice(&ethertype);
    b
}

fn ipv4_header(protocol: u8) -> Vec<u8> {
    let mut b = vec![0x45, 0x00]; // version/ihl, tos
    b.extend_from_slice(&[0x00, 0x3c]); // total length
    b.extend_from_slice(&[0x00, 0x01]); // identification
    b.extend_from_slice(&[0x00, 0x00]); // flags, fragment offset
    b.push(64); // ttl
    b.push(protocol);
    b.extend_from_slice(&[0x00, 0x00]); // checksum
    b.extend_from_slice(&[10, 0, 0, 1]); // source address
    b.extend_from_slice(&[10, 0, 0, 2]); // destination address
    b
}

fn ipv6_header(next_header: u8) -> Vec<u8> {
    let mut b = vec![0x60, 0x00, 0x00, 0x00]; // version, traffic class, flow label
    b.extend_from_slice(&[0x00, 0x14]); // payload length
    b.push(next_header);
    b.push(64); // hop limit
    let mut src = [0u8; 16];
    src[0] = 0x20;
    src[1] = 0x01;
    src[2] = 0x0d;
    src[3] = 0xb8;
    src[15] = 0x01;
    let mut dst = [0u8; 16];
    dst[0] = 0x20;
    dst[1] = 0x01;
    dst[2] = 0x0d;
    dst[3] = 0xb8;
    dst[15] = 0x02;
    b.extend_from_slice(&src);
    b.extend_from_slice(&dst);
    b
}

fn tcp_header(source_port: u16, dest_port: u16) -> Vec<u8> {
    let mut b = Vec::new();
    b.extend_from_slice(&source_port.to_be_bytes());
    b.extend_from_slice(&dest_port.to_be_bytes());
    b.extend_from_slice(&[0x00, 0x00, 0x00, 0x2a]); // sequence number
    b.extend_from_slice(&[0x00, 0x00, 0x00, 0x07]); // acknowledgment number
    b.push(0x50); // data offset 5, no options
    b.push(0x18); // flags
    b.extend_from_slice(&[0xff, 0xff]); // window
    b.extend_from_slice(&[0x00, 0x00]); // checksum
    b.extend_from_slice(&[0x00, 0x00]); // urgent pointer
    b
}

fn udp_header(source_port: u16, dest_port: u16) -> Vec<u8> {
    let mut b = Vec::new();
    b.extend_from_slice(&source_port.to_be_bytes());
    b.extend_from_slice(&dest_port.to_be_bytes());
    b.extend_from_slice(&[0x00, 0x0c]); // length
    b.extend_from_slice(&[0x00, 0x00]); // checksum
    b
}

fn ipv4_tcp_frame(source_port: u16, dest_port: u16) -> RawFrame {
    let mut data = eth_header([0x08, 0x00]);
    data.extend(ipv4_header(6));
    data.extend(tcp_header(source_port, dest_port));
    frame(data)
}

#[test]
fn short_frame_has_no_layers() {
    let rec = decode(&frame(vec![0xde, 0xad, 0xbe, 0xef]));
    assert_eq!(rec.link, None);
    assert_eq!(rec.network, None);
    assert_eq!(rec.transport, None);
}

#[test]
fn thirteen_bytes_is_still_short() {
    let rec = decode(&frame(vec![0u8; 13]));
    assert_eq!(rec.link, None);
    assert_eq!(rec.network, None);
    assert_eq!(rec.transport, None);
}

#[test]
fn all_zero_link_header_decodes_zeroed() {
    let rec = decode(&frame(vec![0u8; 14]));
    assert_eq!(
        rec.link,
        Some(LinkHeader {
            destination: vec![0u8; 6],
            source: vec![0u8; 6],
            kind: EtherKind::Other,
        })
    );
    assert_eq!(rec.network, None);
    assert_eq!(rec.transport, None);
}

#[test]
fn non_ip_discriminator_stops_at_link() {
    let rec = decode(&frame(eth_header([0x08, 0x06]))); // ARP
    let link = rec.link.expect("link layer expected");
    assert_eq!(link.kind, EtherKind::Other);
    assert_eq!(link.destination, vec![0x11, 0x22, 0x33, 0x44, 0x55, 0x66]);
    assert_eq!(link.source, vec![0xaa, 0xbb, 0xcc, 0xdd, 0xee, 0xff]);
    assert_eq!(rec.network, None);
    assert_eq!(rec.transport, None);
}

#[test]
fn ipv4_unknown_protocol_stops_at_network() {
    let mut data = eth_header([0x08, 0x00]);
    data.extend(ipv4_header(1)); // ICMP
    let rec = decode(&frame(data));
    match rec.network {
        Some(NetworkLayer::V4(h)) => {
            assert_eq!(h.source, vec![10, 0, 0, 1]);
            assert_eq!(h.destination, vec![10, 0, 0, 2]);
            assert_eq!(h.protocol, IpProto::Other);
            assert_eq!(h.ttl, 64);
        }
        other => panic!("expected an IPv4 network layer, got {:?}", other),
    }
    assert_eq!(rec.transport, None);
}

#[test]
fn ipv6_unknown_protocol_stops_at_network() {
    let mut data = eth_header([0x86, 0xdd]);
    data.extend(ipv6_header(58)); // ICMPv6
    let rec = decode(&frame(data));
    match rec.network {
        Some(NetworkLayer::V6(h)) => {
            assert_eq!(h.next_header, IpProto::Other);
            assert_eq!(h.hop_limit, 64);
            assert_eq!(h.source[0], 0x20);
            assert_eq!(h.source[15], 0x01);
            assert_eq!(h.destination[15], 0x02);
        }
        other => panic!("expected an IPv6 network layer, got {:?}", other),
    }
    assert_eq!(rec.transport, None);
}

#[test]
fn ipv4_tcp_decodes_completely() {
    let rec = decode(&ipv4_tcp_frame(443, 51000));
    let link = rec.link.expect("link layer expected");
    assert_eq!(link.kind, EtherKind::IPv4);
    match rec.network {
        Some(NetworkLayer::V4(h)) => {
            assert_eq!(h.protocol, IpProto::Tcp);
            assert_eq!(h.source, vec![10, 0, 0, 1]);
            assert_eq!(h.destination, vec![10, 0, 0, 2]);
        }
        other => panic!("expected an IPv4 network layer, got {:?}", other),
    }
    match rec.transport {
        Some(TransportLayer::Tcp(h)) => {
            assert_eq!(h.source_port, 443);
            assert_eq!(h.dest_port, 51000);
            assert_eq!(h.sequence_no, 0x2a);
            assert_eq!(h.ack_no, 0x07);
        }
        other => panic!("expected a TCP transport layer, got {:?}", other),
    }
}

#[test]
fn ipv4_udp_decodes_completely() {
    let mut data = eth_header([0x08, 0x00]);
    data.extend(ipv4_header(17));
    data.extend(udp_header(53, 9999));
    let rec = decode(&frame(data));
    match rec.transport {
        Some(TransportLayer::Udp(h)) => {
            assert_eq!(h.source_port, 53);
            assert_eq!(h.dest_port, 9999);
            assert_eq!(h.length, 12);
            assert_eq!(h.checksum, 0);
        }
        other => panic!("expected a UDP transport layer, got {:?}", other),
    }
}

#[test]
fn ipv6_tcp_decodes_completely() {
    let mut data = eth_header([0x86, 0xdd]);
    data.extend(ipv6_header(6));
    data.extend(tcp_header(8080, 80));
    let rec = decode(&frame(data));
    match rec.network {
        Some(NetworkLayer::V6(h)) => assert_eq!(h.next_header, IpProto::Tcp),
        other => panic!("expected an IPv6 network layer, got {:?}", other),
    }
    match rec.transport {
        Some(TransportLayer::Tcp(h)) => {
            assert_eq!(h.source_port, 8080);
            assert_eq!(h.dest_port, 80);
        }
        other => panic!("expected a TCP transport layer, got {:?}", other),
    }
}

#[test]
fn tcp_with_options_decodes_completely() {
    let mut data = eth_header([0x08, 0x00]);
    data.extend(ipv4_header(6));
    let mut tcp = tcp_header(22, 55555);
    tcp[12] = 0x60; // data offset 6: four option bytes follow
    tcp.extend_from_slice(&[0x01, 0x01, 0x01, 0x00]); // three no-ops, end of options
    data.extend(tcp);
    let rec = decode(&frame(data));
    match rec.transport {
        Some(TransportLayer::Tcp(h)) => {
            assert_eq!(h.source_port, 22);
            assert_eq!(h.dest_port, 55555);
        }
        other => panic!("expected a TCP transport layer, got {:?}", other),
    }
}

#[test]
fn tcp_announcing_absent_options_stops_at_network() {
    let mut data = eth_header([0x08, 0x00]);
    data.extend(ipv4_header(6));
    let mut tcp = tcp_header(22, 55555);
    tcp[12] = 0x60; // announces four option bytes that are not there
    data.extend(tcp);
    let rec = decode(&frame(data));
    assert!(rec.network.is_some());
    assert_eq!(rec.transport, None);
}

#[test]
fn truncated_ipv4_header_stops_at_link() {
    let mut data = eth_header([0x08, 0x00]);
    data.extend(vec![0x45u8; 10]); // not a whole IPv4 header
    let rec = decode(&frame(data));
    assert!(rec.link.is_some());
    assert_eq!(rec.network, None);
    assert_eq!(rec.transport, None);
}

#[test]
fn truncated_tcp_header_stops_at_network() {
    let mut data = eth_header([0x08, 0x00]);
    data.extend(ipv4_header(6));
    data.extend(vec![0u8; 10]); // not a whole TCP header
    let rec = decode(&frame(data));
    assert!(rec.network.is_some());
    assert_eq!(rec.transport, None);
}

#[test]
fn decode_is_idempotent() {
    let f = ipv4_tcp_frame(443, 51000);
    let first: CapturedRecord = decode(&f);
    let second: CapturedRecord = decode(&f);
    assert_eq!(first, second);
    let g = frame(eth_header([0x08, 0x06]));
    assert_eq!(decode(&g), decode(&g));
}
