//! The reporter: one display line per complete record. A record that lacks
//! the network or the transport layer produces no line at all.

use vstd::prelude::*;
use vstd::string::StringExecFns;

use crate::record::{CapturedRecord, NetworkLayer, NetworkLayerV, RecordV, TransportLayer};
use crate::render::{push_char, push_dec, push_ipv4_addr, push_ipv6_addr, spec_dec,
    spec_ipv4_addr, spec_ipv6_addr};

verus! {

/// The transport summary: the protocol name, then `<source port> -> <destination port>`.
pub open spec fn spec_app_info(t: TransportLayer) -> Seq<char> {
    match t {
        TransportLayer::Tcp(h) => seq!['T', 'C', 'P', ' '] + spec_dec(h.source_port as nat)
            + seq![' ', '-', '>', ' '] + spec_dec(h.dest_port as nat),
        TransportLayer::Udp(h) => seq!['U', 'D', 'P', ' '] + spec_dec(h.source_port as nat)
            + seq![' ', '-', '>', ' '] + spec_dec(h.dest_port as nat),
    }
}

/// The network summary: source address, a space, destination address.
pub open spec fn spec_addr_pair(n: NetworkLayerV) -> Seq<char> {
    match n {
        NetworkLayerV::V4(h) => spec_ipv4_addr(h.source) + seq![' '] + spec_ipv4_addr(
            h.destination,
        ),
        NetworkLayerV::V6(h) => spec_ipv6_addr(h.source) + seq![' '] + spec_ipv6_addr(
            h.destination,
        ),
    }
}

/// The one-line summary of a complete record: on-wire length, timestamp
/// seconds, source address, destination address, protocol name, source port,
/// destination port, in that order.
pub open spec fn line_of(r: RecordV) -> Seq<char>
    recommends
        r.is_complete(),
{
    match (r.network, r.transport) {
        (Some(n), Some(t)) => spec_dec(r.meta.wire_len as nat) + seq![' '] + spec_dec(
            r.meta.ts_sec as nat,
        ) + seq![' '] + spec_addr_pair(n) + seq![' '] + spec_app_info(t),
        _ => Seq::empty(),
    }
}

impl TransportLayer {
    /// The protocol name and port pair of this transport header.
    pub fn get_app_info(&self) -> (r: String)
        ensures
            r@ == spec_app_info(*self),
    {
        let mut s = String::new();
        match self {
            TransportLayer::Tcp(h) => {
                push_char(&mut s, 'T');
                push_char(&mut s, 'C');
                push_char(&mut s, 'P');
                push_char(&mut s, ' ');
                push_dec(&mut s, h.source_port as u64);
                push_char(&mut s, ' ');
                push_char(&mut s, '-');
                push_char(&mut s, '>');
                push_char(&mut s, ' ');
                push_dec(&mut s, h.dest_port as u64);
            },
            TransportLayer::Udp(h) => {
                push_char(&mut s, 'U');
                push_char(&mut s, 'D');
                push_char(&mut s, 'P');
                push_char(&mut s, ' ');
                push_dec(&mut s, h.source_port as u64);
                push_char(&mut s, ' ');
                push_char(&mut s, '-');
                push_char(&mut s, '>');
                push_char(&mut s, ' ');
                push_dec(&mut s, h.dest_port as u64);
            },
        }
        proof {
            assert(s@ =~= spec_app_info(*self));
        }
        s
    }
}

impl NetworkLayer {
    /// The source and destination addresses of this network header.
    pub fn get_source_destination(&self) -> (r: String)
        requires
            self@.wf(),
        ensures
            r@ == spec_addr_pair(self@),
    {
        let mut s = String::new();
        match self {
            NetworkLayer::V4(h) => {
                push_ipv4_addr(&mut s, &h.source);
                push_char(&mut s, ' ');
                push_ipv4_addr(&mut s, &h.destination);
            },
            NetworkLayer::V6(h) => {
                push_ipv6_addr(&mut s, &h.source);
                push_char(&mut s, ' ');
                push_ipv6_addr(&mut s, &h.destination);
            },
        }
        proof {
            assert(s@ =~= spec_addr_pair(self@));
        }
        s
    }
}

/// Format a record as its one-line summary. Returns a line exactly when the
/// record is complete; an incomplete decode produces no output.
pub fn report(rec: &CapturedRecord) -> (r: Option<String>)
    requires
        rec@.wf(),
    ensures
        r is Some <==> rec@.is_complete(),
        r matches Some(line) ==> line@ == line_of(rec@),
{
    match (&rec.network, &rec.transport) {
        (Some(n), Some(t)) => {
            let mut s = String::new();
            push_dec(&mut s, rec.meta.wire_len as u64);
            push_char(&mut s, ' ');
            push_dec(&mut s, rec.meta.ts_sec);
            push_char(&mut s, ' ');
            let addrs = n.get_source_destination();
            s.append(addrs.as_str());
            push_char(&mut s, ' ');
            let info = t.get_app_info();
            s.append(info.as_str());
            proof {
                assert(s@ =~= line_of(rec@));
            }
            Some(s)
        },
        _ => None,
    }
}

} // verus!
