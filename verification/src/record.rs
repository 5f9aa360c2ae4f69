use vstd::prelude::*;

verus! {

/// Link-layer protocol discriminator, as far as this decoder tells them apart.
#[derive(Clone, Copy, Debug, PartialEq, Eq, Structural)]
pub enum EtherKind {
    IPv4,
    IPv6,
    Other,
}

/// Upper-layer protocol identifier carried inside an IPv4 or IPv6 header.
#[derive(Clone, Copy, Debug, PartialEq, Eq, Structural)]
pub enum IpProto {
    Tcp,
    Udp,
    Other,
}

/// Capture metadata of one frame, as recorded by the capture source.
#[derive(Clone, Copy, Debug, PartialEq, Eq, Structural)]
pub struct FrameMeta {
    /// Capture timestamp, whole seconds.
    pub ts_sec: u64,
    /// Capture timestamp, microsecond remainder.
    pub ts_usec: u32,
    /// Length the frame had on the wire.
    pub wire_len: u32,
    /// Number of bytes actually captured.
    pub captured_len: u32,
}

/// One raw frame: capture metadata plus the captured bytes.
#[derive(Clone, Debug, PartialEq, Eq)]
pub struct RawFrame {
    pub meta: FrameMeta,
    pub data: Vec<u8>,
}

/// Mathematical model of a raw frame.
#[verifier::ext_equal]
pub struct RawFrameV {
    pub meta: FrameMeta,
    pub data: Seq<u8>,
}

impl View for RawFrame {
    type V = RawFrameV;

    open spec fn view(&self) -> RawFrameV {
        RawFrameV { meta: self.meta, data: self.data@ }
    }
}

/// Link-layer header: destination address, source address, discriminator.
#[derive(Clone, Debug, PartialEq, Eq)]
pub struct LinkHeader {
    pub destination: Vec<u8>,
    pub source: Vec<u8>,
    pub kind: EtherKind,
}

/// Mathematical model of a link-layer header.
#[verifier::ext_equal]
pub struct LinkHeaderV {
    pub destination: Seq<u8>,
    pub source: Seq<u8>,
    pub kind: EtherKind,
}

impl View for LinkHeader {
    type V = LinkHeaderV;

    open spec fn view(&self) -> LinkHeaderV {
        LinkHeaderV {
            destination: self.destination@,
            source: self.source@,
            kind: self.kind,
        }
    }
}

impl LinkHeaderV {
    /// A link header carries two six-byte hardware addresses.
    pub open spec fn wf(self) -> bool {
        self.destination.len() == 6 && self.source.len() == 6
    }
}

/// IPv4 header fields this decoder keeps.
#[derive(Clone, Debug, PartialEq, Eq)]
pub struct Ipv4Header {
    pub source: Vec<u8>,
    pub destination: Vec<u8>,
    pub protocol: IpProto,
    pub ttl: u8,
}

/// Mathematical model of an IPv4 header.
#[verifier::ext_equal]
pub struct Ipv4HeaderV {
    pub source: Seq<u8>,
    pub destination: Seq<u8>,
    pub protocol: IpProto,
    pub ttl: u8,
}

impl View for Ipv4Header {
    type V = Ipv4HeaderV;

    open spec fn view(&self) -> Ipv4HeaderV {
        Ipv4HeaderV {
            source: self.source@,
            destination: self.destination@,
            protocol: self.protocol,
            ttl: self.ttl,
        }
    }
}

impl Ipv4HeaderV {
    /// An IPv4 header carries two four-byte addresses.
    pub open spec fn wf(self) -> bool {
        self.source.len() == 4 && self.destination.len() == 4
    }
}

/// IPv6 header fields this decoder keeps.
#[derive(Clone, Debug, PartialEq, Eq)]
pub struct Ipv6Header {
    pub source: Vec<u8>,
    pub destination: Vec<u8>,
    pub next_header: IpProto,
    pub hop_limit: u8,
}

/// Mathematical model of an IPv6 header.
#[verifier::ext_equal]
pub struct Ipv6HeaderV {
    pub source: Seq<u8>,
    pub destination: Seq<u8>,
    pub next_header: IpProto,
    pub hop_limit: u8,
}

impl View for Ipv6Header {
    type V = Ipv6HeaderV;

    open spec fn view(&self) -> Ipv6HeaderV {
        Ipv6HeaderV {
            source: self.source@,
            destination: self.destination@,
            next_header: self.next_header,
            hop_limit: self.hop_limit,
        }
    }
}

impl Ipv6HeaderV {
    /// An IPv6 header carries two sixteen-byte addresses.
    pub open spec fn wf(self) -> bool {
        self.source.len() == 16 && self.destination.len() == 16
    }
}

/// TCP header fields this decoder keeps; sequencing fields are pass-through.
#[derive(Clone, Copy, Debug, PartialEq, Eq, Structural)]
pub struct TcpHeader {
    pub source_port: u16,
    pub dest_port: u16,
    pub sequence_no: u32,
    pub ack_no: u32,
}

/// UDP header fields this decoder keeps.
#[derive(Clone, Copy, Debug, PartialEq, Eq, Structural)]
pub struct UdpHeader {
    pub source_port: u16,
    pub dest_port: u16,
    pub length: u16,
    pub checksum: u16,
}

/// Network layer: a closed union over the supported IP versions.
#[derive(Clone, Debug, PartialEq, Eq)]
pub enum NetworkLayer {
    V4(Ipv4Header),
    V6(Ipv6Header),
}

/// Mathematical model of the network layer.
#[verifier::ext_equal]
pub enum NetworkLayerV {
    V4(Ipv4HeaderV),
    V6(Ipv6HeaderV),
}

impl View for NetworkLayer {
    type V = NetworkLayerV;

    open spec fn view(&self) -> NetworkLayerV {
        match self {
            NetworkLayer::V4(h) => NetworkLayerV::V4(h@),
            NetworkLayer::V6(h) => NetworkLayerV::V6(h@),
        }
    }
}

impl NetworkLayerV {
    /// The upper-layer protocol identifier embedded in the header.
    pub open spec fn upper_protocol(self) -> IpProto {
        match self {
            NetworkLayerV::V4(h) => h.protocol,
            NetworkLayerV::V6(h) => h.next_header,
        }
    }

    pub open spec fn wf(self) -> bool {
        match self {
            NetworkLayerV::V4(h) => h.wf(),
            NetworkLayerV::V6(h) => h.wf(),
        }
    }
}

/// Transport layer: a closed union over the supported port-based protocols.
#[derive(Clone, Copy, Debug, PartialEq, Eq, Structural)]
pub enum TransportLayer {
    Tcp(TcpHeader),
    Udp(UdpHeader),
}

/// The structured result of decoding one frame. An absent layer means
/// "not decoded", never "decoded as empty".
#[derive(Clone, Debug, PartialEq, Eq)]
pub struct CapturedRecord {
    pub meta: FrameMeta,
    pub link: Option<LinkHeader>,
    pub network: Option<NetworkLayer>,
    pub transport: Option<TransportLayer>,
}

/// Mathematical model of a captured record.
#[verifier::ext_equal]
pub struct RecordV {
    pub meta: FrameMeta,
    pub link: Option<LinkHeaderV>,
    pub network: Option<NetworkLayerV>,
    pub transport: Option<TransportLayer>,
}

impl View for CapturedRecord {
    type V = RecordV;

    open spec fn view(&self) -> RecordV {
        RecordV {
            meta: self.meta,
            link: match self.link {
                Some(l) => Some(l@),
                None => None,
            },
            network: match self.network {
                Some(n) => Some(n@),
                None => None,
            },
            transport: self.transport,
        }
    }
}

impl CapturedRecord {
    /// Runtime check of well-formedness, for callers outside verified code.
    pub fn is_wf(&self) -> (r: bool)
        ensures
            r == self@.wf(),
    {
        let link_ok = match &self.link {
            Some(l) => l.destination.len() == 6 && l.source.len() == 6,
            None => true,
        };
        let network_ok = match &self.network {
            Some(NetworkLayer::V4(h)) => h.source.len() == 4 && h.destination.len() == 4,
            Some(NetworkLayer::V6(h)) => h.source.len() == 16 && h.destination.len() == 16,
            None => true,
        };
        link_ok && network_ok
    }
}

impl RecordV {
    /// A record is complete when both the network and the transport layer
    /// were positively identified; only complete records are reported.
    pub open spec fn is_complete(self) -> bool {
        self.network is Some && self.transport is Some
    }

    pub open spec fn wf(self) -> bool {
        &&& match self.link {
            Some(l) => l.wf(),
            None => true,
        }
        &&& match self.network {
            Some(n) => n.wf(),
            None => true,
        }
    }
}

} // verus!
