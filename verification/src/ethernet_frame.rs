//! The frame container and its image on the wire.

use vstd::prelude::*;

verus! {

/// Bytes in front of the payload: two addresses and the type field.
pub const HEADER_LEN: usize = 14;

/// One outbound link-layer frame.
///
/// `ether_type` is kept the way the wire wants it when the number is written
/// low byte first: a command whose type is `0x0107` is stored as `0x0701`, so
/// that `0x01` leaves before `0x07`.
#[derive(Debug)]
pub struct EthernetFrame {
    pub dst_mac_addr: [u8; 6],
    pub src_mac_addr: [u8; 6],
    pub ether_type: u16,
    pub data: Vec<u8>,
}

/// The two bytes of a stored type field in the order they are sent: low byte,
/// then high byte.
pub open spec fn type_field_bytes(ether_type: u16) -> Seq<u8> {
    seq![(ether_type % 256) as u8, (ether_type / 256) as u8]
}

impl View for EthernetFrame {
    type V = Seq<u8>;

    /// The frame as it is sent: the fields in declaration order, packed.
    open spec fn view(&self) -> Seq<u8> {
        self.dst_mac_addr@ + self.src_mac_addr@ + type_field_bytes(self.ether_type) + self.data@
    }
}

/// The wire image is the header and the payload and nothing else: the
/// destination address fills bytes 0 to 5, the source address bytes 6 to 11,
/// the type field bytes 12 and 13, and the payload the rest.
pub proof fn lemma_frame_layout(frame: EthernetFrame)
    ensures
        frame@.len() == HEADER_LEN + frame.data@.len(),
        frame@.subrange(0, 6) == frame.dst_mac_addr@,
        frame@.subrange(6, 12) == frame.src_mac_addr@,
        frame@.subrange(12, 14) == type_field_bytes(frame.ether_type),
        frame@.subrange(14, frame@.len() as int) == frame.data@,
{
}

impl EthernetFrame {
    /// Serialises the frame, field by field, into a fresh buffer.
    pub fn as_u8_slice(&self) -> (bytes: Vec<u8>)
        ensures
            bytes@ == self@,
            bytes@.len() == HEADER_LEN + self.data@.len(),
    {
        let ether_type: u16 = self.ether_type;
        assert(ether_type & 0xff == ether_type % 256) by (bit_vector);
        assert(ether_type >> 8 == ether_type / 256) by (bit_vector);
        let mut bytes: Vec<u8> = Vec::new();
        bytes.extend_from_slice(&self.dst_mac_addr);
        bytes.extend_from_slice(&self.src_mac_addr);
        bytes.push((ether_type & 0xff) as u8);
        bytes.push((ether_type >> 8) as u8);
        bytes.extend_from_slice(self.data.as_slice());
        bytes
    }
}

} // verus!
