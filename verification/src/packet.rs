//! Handshake detection on raw TCP segments.
//!
//! The dispatcher creates a new connection only for a handshake-initiating
//! segment: SYN set and ACK clear. Flag extraction is delegated to the wire
//! parser of the virtual network stack; the flags word is the big-endian
//! 16-bit field at bytes 12..14 of the TCP header, with SYN at bit 0x002 and
//! ACK at bit 0x010.

use vstd::prelude::*;

verus! {

/// The SYN flag of a TCP header: bit 0x002 of the flags word, that is,
/// bit 1 of byte 13.
pub open spec fn tcp_syn_flag(seg: Seq<u8>) -> bool {
    seg[13] & 0x02 != 0
}

/// The ACK flag of a TCP header: bit 0x010 of the flags word, that is,
/// bit 4 of byte 13.
pub open spec fn tcp_ack_flag(seg: Seq<u8>) -> bool {
    seg[13] & 0x10 != 0
}

/// A segment that initiates a handshake: SYN set, ACK clear.
pub open spec fn is_handshake(seg: Seq<u8>) -> bool {
    tcp_syn_flag(seg) && !tcp_ack_flag(seg)
}

/// Relies on smoltcp::wire::TcpPacket::syn: the SYN flag is bit 0x002 of the
/// big-endian flags word read from bytes 12..14 of the header.
#[verifier::external_body]
fn packet_syn(seg: &[u8]) -> (r: bool)
    requires
        seg@.len() >= 20,
    ensures
        r == tcp_syn_flag(seg@),
{
    smoltcp::wire::TcpPacket::new_unchecked(seg).syn()
}

/// Relies on smoltcp::wire::TcpPacket::ack: the ACK flag is bit 0x010 of the
/// big-endian flags word read from bytes 12..14 of the header.
#[verifier::external_body]
fn packet_ack(seg: &[u8]) -> (r: bool)
    requires
        seg@.len() >= 20,
    ensures
        r == tcp_ack_flag(seg@),
{
    smoltcp::wire::TcpPacket::new_unchecked(seg).ack()
}

/// True exactly for handshake-initiating segments: SYN set and ACK clear.
/// The segment must hold at least a minimal TCP header.
pub fn is_handshake_syn(seg: &[u8]) -> (r: bool)
    requires
        seg@.len() >= 20,
    ensures
        r == is_handshake(seg@),
{
    packet_syn(seg) && !packet_ack(seg)
}

} // verus!
