//! Validated views of whole headers, as the `pnet` crate makes them.
//!
//! A view is made from a buffer only after the buffer's length has been
//! checked against the header's fixed size, and its accessors exist only on
//! the view: no accessor can be reached on a buffer that failed the check.
//! Verus does not look inside these types. What is said of them here is
//! believed on the strength of the crate's source, and the extraction
//! functions are proved from it.

use vstd::prelude::*;
use pnet::packet::ethernet::EthernetPacket;
use pnet::packet::ipv4::Ipv4Packet;

verus! {

/// The least number of bytes from which an IPv4 header view is made.
pub const IPV4_HEADER_LEN: usize = 20;

/// The least number of bytes from which an Ethernet header view is made.
pub const ETHERNET_HEADER_LEN: usize = 14;

/// `pnet::packet::ipv4::Ipv4Packet`: a view over the bytes of an IPv4 packet.
/// Nothing is known of a value but what the functions below say.
#[verifier::external_type_specification]
#[verifier::external_body]
pub struct ExIpv4Packet<'p>(Ipv4Packet<'p>);

/// `pnet::packet::ethernet::EthernetPacket`: a view over the bytes of an
/// Ethernet frame. Nothing is known of a value but what the functions below
/// say.
#[verifier::external_type_specification]
#[verifier::external_body]
pub struct ExEthernetPacket<'p>(EthernetPacket<'p>);

/// The bytes that an IPv4 header view holds: those of the buffer it was made
/// from.
pub uninterp spec fn ipv4_packet_bytes(packet: &Ipv4Packet) -> Seq<u8>;

/// The bytes that an Ethernet header view holds: those of the buffer it was
/// made from.
pub uninterp spec fn ethernet_packet_bytes(packet: &EthernetPacket) -> Seq<u8>;

/// `Ipv4Packet::new`, which returns `None` for a buffer shorter than the
/// fixed part of an IPv4 header, twenty bytes, and otherwise a view that
/// borrows the buffer. Believed: a view comes back exactly for buffers of
/// twenty bytes or more, and it holds the buffer's bytes.
#[verifier::external_body]
pub(crate) fn ipv4_packet_new<'p>(bytes: &'p [u8]) -> (r: Option<Ipv4Packet<'p>>)
    ensures
        r.is_some() <==> bytes@.len() >= IPV4_HEADER_LEN,
        r matches Some(packet) ==> ipv4_packet_bytes(&packet) == bytes@,
{
    Ipv4Packet::new(bytes)
}

/// `Ipv4Packet::get_source`, which makes an address of the four bytes at
/// offsets 12 to 15 of the view. Believed: the result is those four bytes, in
/// that order.
#[verifier::external_body]
pub(crate) fn ipv4_packet_source(packet: &Ipv4Packet) -> (r: [u8; 4])
    requires
        ipv4_packet_bytes(packet).len() >= IPV4_HEADER_LEN,
    ensures
        r@ == ipv4_packet_bytes(packet).subrange(12, 16),
{
    packet.get_source().octets()
}

/// `Ipv4Packet::get_destination`, which makes an address of the four bytes
/// at offsets 16 to 19 of the view. Believed: the result is those four bytes,
/// in that order.
#[verifier::external_body]
pub(crate) fn ipv4_packet_destination(packet: &Ipv4Packet) -> (r: [u8; 4])
    requires
        ipv4_packet_bytes(packet).len() >= IPV4_HEADER_LEN,
    ensures
        r@ == ipv4_packet_bytes(packet).subrange(16, 20),
{
    packet.get_destination().octets()
}

/// `EthernetPacket::new`, which returns `None` for a buffer shorter than an
/// Ethernet header, fourteen bytes, and otherwise a view that borrows the
/// buffer. Believed: a view comes back exactly for buffers of fourteen bytes
/// or more, and it holds the buffer's bytes.
#[verifier::external_body]
pub(crate) fn ethernet_packet_new<'p>(bytes: &'p [u8]) -> (r: Option<EthernetPacket<'p>>)
    ensures
        r.is_some() <==> bytes@.len() >= ETHERNET_HEADER_LEN,
        r matches Some(packet) ==> ethernet_packet_bytes(&packet) == bytes@,
{
    EthernetPacket::new(bytes)
}

/// `EthernetPacket::get_destination`, which makes a hardware address of the
/// first six bytes of the view. Believed: the result is those six bytes, in
/// that order.
#[verifier::external_body]
pub(crate) fn ethernet_packet_destination(packet: &EthernetPacket) -> (r: [u8; 6])
    requires
        ethernet_packet_bytes(packet).len() >= ETHERNET_HEADER_LEN,
    ensures
        r@ == ethernet_packet_bytes(packet).subrange(0, 6),
{
    packet.get_destination().octets()
}

} // verus!
