//! A forward cursor that reads fixed-width big-endian fields one after
//! another.

use vstd::prelude::*;
use crate::byte_view::ByteView;
use crate::endian::{be_u32, read_u32_be};
use crate::error::ExtractError;

verus! {

/// A cursor over a [`ByteView`].
///
/// The cursor stands between the first byte and the end of the view, never
/// beyond. Every read checks the bytes that are left before it touches one,
/// and a refused operation leaves the cursor where it was.
pub struct SequentialFieldReader<'a> {
    view: ByteView<'a>,
    position: usize,
}

impl<'a> SequentialFieldReader<'a> {
    #[verifier::type_invariant]
    spec fn within_view(self) -> bool {
        self.position <= self.view@.len()
    }

    /// The bytes that the cursor moves over.
    pub closed spec fn bytes(&self) -> Seq<u8> {
        self.view@
    }

    /// How many bytes lie before the cursor.
    pub closed spec fn spec_position(&self) -> usize {
        self.position
    }

    /// A cursor at the start of `view`.
    pub fn new(view: ByteView<'a>) -> (r: Self)
        ensures
            r.bytes() == view@,
            r.position() == 0,
    {
        SequentialFieldReader { view, position: 0 }
    }

    /// How many bytes lie before the cursor; never more than the view holds.
    #[verifier::when_used_as_spec(spec_position)]
    pub fn position(&self) -> (p: usize)
        ensures
            p == self.position(),
            p <= self.bytes().len(),
    {
        proof {
            use_type_invariant(self);
        }
        self.position
    }

    /// Moves the cursor to `to`, counted from the start of the view. A
    /// position beyond the end of the view is refused.
    pub fn seek(&mut self, to: usize) -> (r: Result<(), ExtractError>)
        ensures
            final(self).bytes() == old(self).bytes(),
            to <= old(self).bytes().len() ==> r.is_ok() && final(self).position() == to,
            to > old(self).bytes().len() ==> {
                &&& r == Err::<(), ExtractError>(ExtractError::OutOfBounds)
                &&& final(self).position() == old(self).position()
            },
    {
        if to <= self.view.len() {
            self.position = to;
            Ok(())
        } else {
            Err(ExtractError::OutOfBounds)
        }
    }

    /// Reads the four bytes at the cursor as a big-endian unsigned integer
    /// and moves the cursor behind them. With fewer than four bytes left the
    /// read is refused and the cursor stays.
    pub fn read_u32_be(&mut self) -> (r: Result<u32, ExtractError>)
        ensures
            final(self).bytes() == old(self).bytes(),
            old(self).position() + 4 <= old(self).bytes().len() ==> {
                &&& r == Ok::<u32, ExtractError>(
                    be_u32(
                        old(self).bytes().subrange(
                            old(self).position() as int,
                            old(self).position() + 4,
                        ),
                    ),
                )
                &&& final(self).position() == old(self).position() + 4
            },
            old(self).position() + 4 > old(self).bytes().len() ==> {
                &&& r == Err::<u32, ExtractError>(ExtractError::OutOfBounds)
                &&& final(self).position() == old(self).position()
            },
    {
        proof {
            use_type_invariant(&*self);
        }
        if self.view.len() - self.position < 4 {
            return Err(ExtractError::OutOfBounds);
        }
        let field = self.view.sub_view(self.position, self.position + 4)?;
        let value = read_u32_be(field.as_slice());
        self.position = self.position + 4;
        Ok(value)
    }
}

} // verus!
