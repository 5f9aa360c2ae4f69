//! Fixed-offset header readers over a raw byte slice: the minimal link-layer
//! and IPv4 views that read their fields straight out of the buffer, without
//! classifying the protocol discriminators they carry.

use vstd::prelude::*;

verus! {

/// A link-layer header read verbatim from a frame: two six-byte addresses
/// and the two-byte packet type, uninterpreted.
#[derive(Clone, Debug, PartialEq, Eq)]
pub struct Ethernet {
    pub source: Vec<u8>,
    pub destination: Vec<u8>,
    pub packet_type: Vec<u8>,
}

/// An IPv4 header's two four-byte addresses, read verbatim at their fixed
/// offsets.
#[derive(Clone, Debug, PartialEq, Eq)]
pub struct IPv4 {
    pub source: Vec<u8>,
    pub destination: Vec<u8>,
}

/// Copy `src[from..to]` into a fresh vector.
fn copy_range(src: &[u8], from: usize, to: usize) -> (r: Vec<u8>)
    requires
        from <= to <= src@.len(),
    ensures
        r@ == src@.subrange(from as int, to as int),
{
    let mut v: Vec<u8> = Vec::new();
    let mut i: usize = from;
    while i < to
        invariant
            from <= i <= to <= src@.len(),
            v@ == src@.subrange(from as int, i as int),
        decreases to - i,
    {
        v.push(src[i]);
        proof {
            assert(src@.subrange(from as int, i + 1) =~= src@.subrange(from as int, i as int)
                .push(src@[i as int]));
        }
        i += 1;
    }
    v
}

impl Ethernet {
    /// Read the link-layer fields from the start of `src`: destination
    /// address first, then source address, then the packet type. Fails
    /// exactly when fewer than fourteen bytes are present.
    pub fn from_slice(src: &[u8]) -> (r: Result<Self, ()>)
        ensures
            r is Ok <==> src@.len() >= 14,
            r matches Ok(e) ==> e.destination@ == src@.subrange(0, 6) && e.source@
                == src@.subrange(6, 12) && e.packet_type@ == src@.subrange(12, 14),
    {
        if src.len() < 14 {
            return Err(());
        }
        let destination = copy_range(src, 0, 6);
        let source = copy_range(src, 6, 12);
        let packet_type = copy_range(src, 12, 14);
        Ok(Ethernet { source, destination, packet_type })
    }
}

impl IPv4 {
    /// Read the source and destination addresses at their fixed offsets.
    /// The buffer must reach to the end of the destination address.
    pub fn from_slice(src: &[u8]) -> (r: Result<Self, ()>)
        requires
            src@.len() >= 20,
        ensures
            r matches Ok(h) && h.source@ == src@.subrange(12, 16) && h.destination@
                == src@.subrange(16, 20),
    {
        let source = copy_range(src, 12, 16);
        let destination = copy_range(src, 16, 20);
        Ok(IPv4 { source, destination })
    }
}

} // verus!
