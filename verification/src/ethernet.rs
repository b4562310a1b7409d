//! Extraction of the destination hardware address from an Ethernet frame.
//!
//! The destination address is the first six bytes of the frame. The copying
//! and the borrowing extraction ask for twelve bytes, the room of the
//! destination and the source address together, although they read only the
//! first six. The extraction through a validated view asks for the whole
//! header of fourteen bytes, as the view does.

use vstd::prelude::*;
use crate::byte_view::ByteView;
use crate::error::ExtractError;
use crate::mac::{MacAddr2, MacAddrBuf};
use crate::packet::{ethernet_packet_destination, ethernet_packet_new};

verus! {

/// Where the destination address starts in an Ethernet frame.
pub const ETHERNET_DST_OFFSET: usize = 0;

/// The least number of bytes that the copying and the borrowing extraction
/// accept: a destination and a source address.
pub const ETHERNET_ADDRS_LEN: usize = 12;

/// What a frame holds as its destination: the first six bytes of a buffer of
/// at least `min_len` bytes; a shorter buffer is malformed.
pub open spec fn frame_destination(bytes: Seq<u8>, min_len: int) -> Result<Seq<u8>, ExtractError>
    recommends
        min_len >= 6,
{
    if bytes.len() >= min_len {
        Ok(bytes.subrange(0, 6))
    } else {
        Err(ExtractError::Malformed)
    }
}

/// The outcome of a borrowing extraction with the address taken by its bytes.
pub open spec fn borrowed_bytes(r: Result<MacAddrBuf<'_>, ExtractError>) -> Result<
    Seq<u8>,
    ExtractError,
> {
    match r {
        Ok(mac) => Ok(mac@),
        Err(e) => Err(e),
    }
}

/// The outcome of a copying extraction with the address taken by its bytes.
pub open spec fn owned_bytes(r: Result<MacAddr2, ExtractError>) -> Result<Seq<u8>, ExtractError> {
    match r {
        Ok(mac) => Ok(mac@),
        Err(e) => Err(e),
    }
}

/// Extracts the destination address without copying: the address that comes
/// back borrows its six bytes from `bytes` and lives no longer than `bytes`.
pub fn slice_get_dest_mac(bytes: &[u8]) -> (r: Result<MacAddrBuf<'_>, ExtractError>)
    ensures
        borrowed_bytes(r) == frame_destination(bytes@, 12),
        bytes@.len() < 12 <==> r == Err::<MacAddrBuf<'_>, ExtractError>(ExtractError::Malformed),
{
    let view = ByteView::new(bytes);
    if view.len() >= ETHERNET_ADDRS_LEN {
        let field = view.sub_view(ETHERNET_DST_OFFSET, ETHERNET_DST_OFFSET + 6)?;
        return Ok(MacAddrBuf::over(field.as_slice()));
    }
    Err(ExtractError::Malformed)
}

/// Extracts the destination address by copying its six bytes into an array
/// of its own. The address that comes back does not depend on the buffer.
pub fn bytes_get_dest_mac(bytes: &[u8]) -> (r: Result<MacAddr2, ExtractError>)
    ensures
        owned_bytes(r) == frame_destination(bytes@, 12),
        bytes@.len() < 12 <==> r == Err::<MacAddr2, ExtractError>(ExtractError::Malformed),
{
    let view = ByteView::new(bytes);
    if view.len() >= ETHERNET_ADDRS_LEN {
        let buf: [u8; 6] = view.copy6(ETHERNET_DST_OFFSET)?;
        return Ok(MacAddr2::from(buf));
    }
    Err(ExtractError::Malformed)
}

/// Extracts the destination address through a validated view of the frame's
/// header. The view is made only of a buffer that holds the whole header of
/// fourteen bytes.
pub fn pnet_get_dest_mac(bytes: &[u8]) -> (r: Result<MacAddr2, ExtractError>)
    ensures
        owned_bytes(r) == frame_destination(bytes@, 14),
        bytes@.len() < 14 <==> r == Err::<MacAddr2, ExtractError>(ExtractError::Malformed),
{
    if let Some(eth) = ethernet_packet_new(bytes) {
        return Ok(MacAddr2::from(ethernet_packet_destination(&eth)));
    }
    Err(ExtractError::Malformed)
}

} // verus!
