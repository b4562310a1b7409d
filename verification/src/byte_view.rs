//! A borrowed, bounds-checked window over a byte buffer.

use vstd::prelude::*;
use crate::error::ExtractError;

verus! {

/// An immutable window over part of a caller's buffer.
///
/// The window borrows the buffer and never owns it; every access is checked
/// against the window's own length before a byte is touched.
#[derive(Clone, Copy, Debug)]
pub struct ByteView<'a> {
    bytes: &'a [u8],
}

impl<'a> View for ByteView<'a> {
    type V = Seq<u8>;

    /// The bytes that the window shows, in order.
    closed spec fn view(&self) -> Seq<u8> {
        self.bytes@
    }
}

impl<'a> ByteView<'a> {
    /// A window over the whole of `buffer`.
    pub fn new(buffer: &'a [u8]) -> (v: Self)
        ensures
            v@ == buffer@,
    {
        ByteView { bytes: buffer }
    }

    /// A window over the first `len` bytes of `buffer`; refused when the
    /// buffer does not hold that many.
    pub fn with_len(buffer: &'a [u8], len: usize) -> (r: Result<Self, ExtractError>)
        ensures
            len <= buffer@.len() ==> r.is_ok() && r.unwrap()@ == buffer@.subrange(0, len as int),
            len > buffer@.len() ==> r == Err::<Self, ExtractError>(ExtractError::OutOfBounds),
            r matches Ok(v) ==> v@.len() == len && v@.len() <= buffer@.len(),
    {
        if len <= buffer.len() {
            Ok(ByteView { bytes: vstd::slice::slice_subrange(buffer, 0, len) })
        } else {
            Err(ExtractError::OutOfBounds)
        }
    }

    /// The number of bytes in the window.
    pub fn len(&self) -> (n: usize)
        ensures
            n == self@.len(),
    {
        self.bytes.len()
    }

    /// The narrower window `[start, end)`; refused unless
    /// `start <= end <= self.len()`.
    pub fn sub_view(&self, start: usize, end: usize) -> (r: Result<ByteView<'a>, ExtractError>)
        ensures
            start <= end <= self@.len() ==> r.is_ok() && r.unwrap()@ == self@.subrange(
                start as int,
                end as int,
            ),
            !(start <= end <= self@.len()) ==> r == Err::<ByteView<'a>, ExtractError>(
                ExtractError::OutOfBounds,
            ),
    {
        if start <= end && end <= self.bytes.len() {
            Ok(ByteView { bytes: vstd::slice::slice_subrange(self.bytes, start, end) })
        } else {
            Err(ExtractError::OutOfBounds)
        }
    }

    /// A copy of the four bytes from `start` on; refused when the window does
    /// not hold four bytes there.
    pub fn copy4(&self, start: usize) -> (r: Result<[u8; 4], ExtractError>)
        ensures
            start + 4 <= self@.len() ==> r.is_ok() && r.unwrap()@ == self@.subrange(
                start as int,
                start + 4,
            ),
            start + 4 > self@.len() ==> r == Err::<[u8; 4], ExtractError>(
                ExtractError::OutOfBounds,
            ),
    {
        let len = self.bytes.len();
        if start > len || len - start < 4 {
            return Err(ExtractError::OutOfBounds);
        }
        let buf: [u8; 4] = [
            self.bytes[start],
            self.bytes[start + 1],
            self.bytes[start + 2],
            self.bytes[start + 3],
        ];
        assert(buf@ =~= self@.subrange(start as int, start + 4));
        Ok(buf)
    }

    /// A copy of the six bytes from `start` on; refused when the window does
    /// not hold six bytes there.
    pub fn copy6(&self, start: usize) -> (r: Result<[u8; 6], ExtractError>)
        ensures
            start + 6 <= self@.len() ==> r.is_ok() && r.unwrap()@ == self@.subrange(
                start as int,
                start + 6,
            ),
            start + 6 > self@.len() ==> r == Err::<[u8; 6], ExtractError>(
                ExtractError::OutOfBounds,
            ),
    {
        let len = self.bytes.len();
        if start > len || len - start < 6 {
            return Err(ExtractError::OutOfBounds);
        }
        let buf: [u8; 6] = [
            self.bytes[start],
            self.bytes[start + 1],
            self.bytes[start + 2],
            self.bytes[start + 3],
            self.bytes[start + 4],
            self.bytes[start + 5],
        ];
        assert(buf@ =~= self@.subrange(start as int, start + 6));
        Ok(buf)
    }

    /// The window's bytes as a slice that lives as long as the buffer.
    pub fn as_slice(&self) -> (s: &'a [u8])
        ensures
            s@ == self@,
    {
        self.bytes
    }
}

} // verus!
