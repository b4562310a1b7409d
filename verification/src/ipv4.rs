//! IPv4 addresses and their extraction from an IPv4 header.
//!
//! The source address lies at offset 12 of the header and the destination
//! address at offset 16, four bytes each, in network order. A buffer that
//! does not hold the twenty bytes of the fixed header is malformed. Three
//! ways of extracting are offered, and they return the same for every
//! buffer: by copying the bytes, by reading the two fields in sequence as
//! big-endian integers, and through a validated view of the header.

use vstd::prelude::*;
use vstd::std_specs::cmp::PartialEqSpecImpl;
use vstd::std_specs::convert::FromSpecImpl;
use crate::byte_view::ByteView;
use crate::endian::{be_u32, lemma_be_u32_round_trip, u32_be_bytes};
use crate::error::ExtractError;
use crate::packet::{
    ipv4_packet_destination, ipv4_packet_new, ipv4_packet_source, IPV4_HEADER_LEN,
};
use crate::reader::SequentialFieldReader;

verus! {

/// Where the source address starts in an IPv4 header.
pub const IPV4_SRC_OFFSET: usize = 12;

/// Where the destination address starts in an IPv4 header.
pub const IPV4_DST_OFFSET: usize = 16;

/// An IPv4 address: four bytes in network order, equal to another exactly
/// when all four bytes are.
#[derive(Clone, Copy, Debug, Eq)]
pub struct Ipv4Address {
    octets: [u8; 4],
}

impl View for Ipv4Address {
    type V = Seq<u8>;

    /// The four bytes of the address, in network order.
    closed spec fn view(&self) -> Seq<u8> {
        self.octets@
    }
}

impl Ipv4Address {
    /// The address `a.b.c.d`.
    pub fn new(a: u8, b: u8, c: u8, d: u8) -> (r: Ipv4Address)
        ensures
            r@ == seq![a, b, c, d],
    {
        let r = Ipv4Address { octets: [a, b, c, d] };
        assert(r@ =~= seq![a, b, c, d]);
        r
    }

    /// The four bytes of the address, in network order.
    pub fn octets(&self) -> (r: [u8; 4])
        ensures
            r@ == self@,
    {
        self.octets
    }

    /// Every address has four bytes.
    pub proof fn lemma_four_bytes(a: Ipv4Address)
        ensures
            a@.len() == 4,
    {
    }

    /// An address is nothing but its four bytes: two addresses with the same
    /// bytes are the same address.
    pub proof fn lemma_bytes_determine(a: Ipv4Address, b: Ipv4Address)
        requires
            a@ == b@,
        ensures
            a == b,
    {
        assert(a.octets =~= b.octets);
    }

    /// An array read back from an address that was built from an array is
    /// that array, unchanged.
    pub proof fn lemma_octets_round_trip(bytes: [u8; 4], addr: Ipv4Address, back: [u8; 4])
        requires
            addr@ == bytes@,
            back@ == addr@,
        ensures
            back == bytes,
    {
        assert(back =~= bytes);
    }
}

impl PartialEq for Ipv4Address {
    /// Exact byte-wise equality.
    fn eq(&self, other: &Ipv4Address) -> (r: bool) {
        let r = self.octets[0] == other.octets[0] && self.octets[1] == other.octets[1]
            && self.octets[2] == other.octets[2] && self.octets[3] == other.octets[3];
        assert(r == (self@ =~= other@));
        r
    }
}

impl PartialEqSpecImpl for Ipv4Address {
    open spec fn obeys_eq_spec() -> bool {
        true
    }

    open spec fn eq_spec(&self, other: &Ipv4Address) -> bool {
        self@ == other@
    }
}

impl From<[u8; 4]> for Ipv4Address {
    /// The address whose bytes, in network order, are `bytes`.
    fn from(bytes: [u8; 4]) -> (r: Ipv4Address)
        ensures
            r@ == bytes@,
    {
        Ipv4Address { octets: bytes }
    }
}

impl FromSpecImpl<[u8; 4]> for Ipv4Address {
    open spec fn obeys_from_spec() -> bool {
        true
    }

    closed spec fn from_spec(bytes: [u8; 4]) -> Ipv4Address {
        Ipv4Address { octets: bytes }
    }
}

impl From<u32> for Ipv4Address {
    /// The address whose bytes are the big-endian encoding of `bits`.
    fn from(bits: u32) -> (r: Ipv4Address)
        ensures
            r@ == u32_be_bytes(bits),
    {
        let r = Ipv4Address {
            octets: [
                (bits / 0x100_0000) as u8,
                (bits / 0x1_0000 % 0x100) as u8,
                (bits / 0x100 % 0x100) as u8,
                (bits % 0x100) as u8,
            ],
        };
        assert(r@ =~= u32_be_bytes(bits));
        r
    }
}

impl FromSpecImpl<u32> for Ipv4Address {
    open spec fn obeys_from_spec() -> bool {
        true
    }

    closed spec fn from_spec(bits: u32) -> Ipv4Address {
        Ipv4Address {
            octets: [
                (bits / 0x100_0000) as u8,
                (bits / 0x1_0000 % 0x100) as u8,
                (bits / 0x100 % 0x100) as u8,
                (bits % 0x100) as u8,
            ],
        }
    }
}

/// An extraction's outcome with each address taken by its bytes.
pub open spec fn outcome_bytes(r: Result<(Ipv4Address, Ipv4Address), ExtractError>) -> Result<
    (Seq<u8>, Seq<u8>),
    ExtractError,
> {
    match r {
        Ok((src, dst)) => Ok((src@, dst@)),
        Err(e) => Err(e),
    }
}

/// What an IPv4 header holds: the bytes of the source address and those of
/// the destination address, in a buffer of at least twenty bytes; a shorter
/// buffer is malformed.
pub open spec fn header_src_dst(bytes: Seq<u8>) -> Result<(Seq<u8>, Seq<u8>), ExtractError> {
    if bytes.len() >= 20 {
        Ok((bytes.subrange(12, 16), bytes.subrange(16, 20)))
    } else {
        Err(ExtractError::Malformed)
    }
}

/// What reading the two address fields as big-endian integers gives, once
/// each integer is laid out as an address again.
pub open spec fn sequential_src_dst(bytes: Seq<u8>) -> Result<(Seq<u8>, Seq<u8>), ExtractError> {
    if bytes.len() >= 20 {
        Ok(
            (
                u32_be_bytes(be_u32(bytes.subrange(12, 16))),
                u32_be_bytes(be_u32(bytes.subrange(16, 20))),
            ),
        )
    } else {
        Err(ExtractError::Malformed)
    }
}

/// The way of extracting cannot be observed: reading the fields in sequence
/// gives, byte for byte, what copying them gives, for every buffer.
pub proof fn lemma_sequential_agrees_with_copy(bytes: Seq<u8>)
    ensures
        sequential_src_dst(bytes) == header_src_dst(bytes),
{
    if bytes.len() >= 20 {
        lemma_be_u32_round_trip(bytes.subrange(12, 16));
        lemma_be_u32_round_trip(bytes.subrange(16, 20));
    }
}

/// Whatever buffer is given, an outcome that meets the contract of the
/// copying extraction and one that meets the contract of the sequential
/// extraction are the same outcome: the same two addresses, or the same
/// refusal.
pub proof fn lemma_strategies_return_the_same(
    bytes: Seq<u8>,
    copied: Result<(Ipv4Address, Ipv4Address), ExtractError>,
    read: Result<(Ipv4Address, Ipv4Address), ExtractError>,
)
    requires
        outcome_bytes(copied) == header_src_dst(bytes),
        outcome_bytes(read) == sequential_src_dst(bytes),
    ensures
        copied == read,
{
    lemma_sequential_agrees_with_copy(bytes);
    match (copied, read) {
        (Ok((s1, d1)), Ok((s2, d2))) => {
            Ipv4Address::lemma_bytes_determine(s1, s2);
            Ipv4Address::lemma_bytes_determine(d1, d2);
        },
        _ => {},
    }
}

/// Extracts source and destination by copying each field into an array of
/// its own. The addresses that come back do not depend on the buffer.
pub fn bytes_get_src_dst(bytes: &[u8]) -> (r: Result<(Ipv4Address, Ipv4Address), ExtractError>)
    ensures
        outcome_bytes(r) == header_src_dst(bytes@),
        bytes@.len() < 20 <==> r == Err::<(Ipv4Address, Ipv4Address), ExtractError>(
            ExtractError::Malformed,
        ),
{
    let view = ByteView::new(bytes);
    if view.len() < IPV4_HEADER_LEN {
        return Err(ExtractError::Malformed);
    }
    let buf: [u8; 4] = view.copy4(IPV4_SRC_OFFSET)?;
    let src = Ipv4Address::from(buf);
    let buf: [u8; 4] = view.copy4(IPV4_DST_OFFSET)?;
    let dst = Ipv4Address::from(buf);
    Ok((src, dst))
}

/// Extracts source and destination by seeking a cursor to the source field
/// and reading two big-endian 32-bit fields, one after the other.
pub fn byteorder_get_src_dst(bytes: &[u8]) -> (r: Result<
    (Ipv4Address, Ipv4Address),
    ExtractError,
>)
    ensures
        outcome_bytes(r) == sequential_src_dst(bytes@),
        outcome_bytes(r) == header_src_dst(bytes@),
        bytes@.len() < 20 <==> r == Err::<(Ipv4Address, Ipv4Address), ExtractError>(
            ExtractError::Malformed,
        ),
{
    let view = ByteView::new(bytes);
    if view.len() < IPV4_HEADER_LEN {
        return Err(ExtractError::Malformed);
    }
    let mut rdr = SequentialFieldReader::new(view);
    rdr.seek(IPV4_SRC_OFFSET)?;
    let src = rdr.read_u32_be()?;
    let dst = rdr.read_u32_be()?;
    proof {
        lemma_sequential_agrees_with_copy(bytes@);
    }
    Ok((Ipv4Address::from(src), Ipv4Address::from(dst)))
}

/// Extracts source and destination through a validated view of the header.
/// The view is made only of a buffer that holds the fixed header, and the
/// fields are read through the view's accessors.
pub fn pnet_get_src_dst(bytes: &[u8]) -> (r: Result<(Ipv4Address, Ipv4Address), ExtractError>)
    ensures
        outcome_bytes(r) == header_src_dst(bytes@),
        bytes@.len() < 20 <==> r == Err::<(Ipv4Address, Ipv4Address), ExtractError>(
            ExtractError::Malformed,
        ),
{
    if let Some(ipv4) = ipv4_packet_new(bytes) {
        let src = Ipv4Address::from(ipv4_packet_source(&ipv4));
        let dst = Ipv4Address::from(ipv4_packet_destination(&ipv4));
        return Ok((src, dst));
    }
    Err(ExtractError::Malformed)
}

} // verus!
