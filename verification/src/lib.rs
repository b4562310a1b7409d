//! Extraction of fixed-layout address fields from raw packet bytes.
//!
//! A buffer of any length and content is validated, sliced and turned into
//! typed address values, or rejected with an [`ExtractError`]. Nothing here
//! reads past the end of a buffer, nothing changes a buffer, and nothing
//! panics: every function is total, and says in its contract what it returns
//! for each input.
//!
//! The layers, from the bottom: [`byte_view`] is a checked window over bytes;
//! [`reader`] is a cursor over such a window that reads big-endian fields in
//! sequence; [`ipv4`] and [`ethernet`] find the address fields of the two
//! headers; [`mac`] holds the hardware address types and their equality.

pub mod byte_view;
pub mod endian;
pub mod error;
pub mod ethernet;
pub mod ipv4;
pub mod mac;
pub mod packet;
pub mod reader;

pub use crate::byte_view::ByteView;
pub use crate::error::ExtractError;
pub use crate::ethernet::{bytes_get_dest_mac, pnet_get_dest_mac, slice_get_dest_mac};
pub use crate::ipv4::{byteorder_get_src_dst, bytes_get_src_dst, pnet_get_src_dst, Ipv4Address};
pub use crate::mac::{MacAddr2, MacAddr3, MacAddrBuf};
pub use crate::reader::SequentialFieldReader;
