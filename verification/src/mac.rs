//! Hardware (MAC) addresses: six bytes, compared as a unit.
//!
//! Three forms are offered. [`MacAddr2`] owns its bytes and compares them one
//! by one in address order. [`MacAddr3`] owns its bytes and compares them as
//! two chunks, one of 32 bits and one of 16. [`MacAddrBuf`] borrows its bytes
//! from the frame they were found in. All three decide the same equality:
//! that of the six bytes.
//!
//! The chunks of a [`MacAddr3`] are assembled from single bytes. Nothing is
//! reinterpreted in place, so the comparison asks nothing of the alignment of
//! the six bytes and is valid on every target on which the byte-wise
//! comparison is.

use vstd::prelude::*;
use vstd::std_specs::cmp::PartialEqSpec;
use vstd::std_specs::convert::FromSpecImpl;
use crate::endian::{be_u16, be_u32, lemma_be_u16_injective, lemma_be_u32_injective};

verus! {

/// A hardware address that owns its six bytes and is compared byte by byte.
#[derive(Clone, Copy, Debug, Eq)]
pub struct MacAddr2([u8; 6]);

impl View for MacAddr2 {
    type V = Seq<u8>;

    /// The six bytes of the address, in address order.
    closed spec fn view(&self) -> Seq<u8> {
        self.0@
    }
}

impl MacAddr2 {
    /// The address `a:b:c:d:e:f`.
    pub fn new(a: u8, b: u8, c: u8, d: u8, e: u8, f: u8) -> (r: MacAddr2)
        ensures
            r@ == seq![a, b, c, d, e, f],
    {
        let r = MacAddr2([a, b, c, d, e, f]);
        assert(r@ =~= seq![a, b, c, d, e, f]);
        r
    }

    /// The six bytes of the address.
    pub fn octets(&self) -> (r: [u8; 6])
        ensures
            r@ == self@,
    {
        self.0
    }

    /// Every address has six bytes.
    pub proof fn lemma_six_bytes(a: MacAddr2)
        ensures
            a@.len() == 6,
    {
    }

    /// An address is nothing but its six bytes: two addresses with the same
    /// bytes are the same address.
    pub proof fn lemma_bytes_determine(a: MacAddr2, b: MacAddr2)
        requires
            a@ == b@,
        ensures
            a == b,
    {
        assert(a.0 =~= b.0);
    }

    /// Byte-wise equality is an equivalence: reflexive, symmetric and
    /// transitive over all addresses.
    pub proof fn lemma_eq_is_equivalence(a: MacAddr2, b: MacAddr2, c: MacAddr2)
        ensures
            a.eq_spec(&a),
            a.eq_spec(&b) == b.eq_spec(&a),
            a.eq_spec(&b) && b.eq_spec(&c) ==> a.eq_spec(&c),
    {
    }

    /// An array read back from an address that was built from an array is
    /// that array, unchanged.
    pub proof fn lemma_octets_round_trip(bytes: [u8; 6], addr: MacAddr2, back: [u8; 6])
        requires
            addr@ == bytes@,
            back@ == addr@,
        ensures
            back == bytes,
    {
        assert(back =~= bytes);
    }
}

impl PartialEq for MacAddr2 {
    /// Whole-array equality: the bytes are compared one by one, in address
    /// order, up to the first pair that differs.
    fn eq(&self, other: &MacAddr2) -> (r: bool) {
        let mut i: usize = 0;
        while i < 6
            invariant
                i <= 6,
                forall|j: int| 0 <= j < i ==> self.0@[j] == other.0@[j],
            decreases 6 - i,
        {
            if self.0[i] != other.0[i] {
                return false;
            }
            i += 1;
        }
        assert(self@ =~= other@);
        true
    }
}

impl vstd::std_specs::cmp::PartialEqSpecImpl for MacAddr2 {
    open spec fn obeys_eq_spec() -> bool {
        true
    }

    /// Two addresses are equal exactly when all six bytes match.
    open spec fn eq_spec(&self, other: &MacAddr2) -> bool {
        self@ == other@
    }
}

impl From<[u8; 6]> for MacAddr2 {
    /// The address whose bytes are `bytes`.
    fn from(bytes: [u8; 6]) -> (r: MacAddr2)
        ensures
            r@ == bytes@,
    {
        MacAddr2(bytes)
    }
}

impl FromSpecImpl<[u8; 6]> for MacAddr2 {
    open spec fn obeys_from_spec() -> bool {
        true
    }

    closed spec fn from_spec(bytes: [u8; 6]) -> MacAddr2 {
        MacAddr2(bytes)
    }
}

/// That two runs of six bytes hold the same 32-bit chunk in front and the
/// same 16-bit chunk behind it.
pub open spec fn chunks_match(a: Seq<u8>, b: Seq<u8>) -> bool
    recommends
        a.len() == 6,
        b.len() == 6,
{
    &&& be_u32(a.subrange(0, 4)) == be_u32(b.subrange(0, 4))
    &&& be_u16(a.subrange(4, 6)) == be_u16(b.subrange(4, 6))
}

/// Comparing six bytes chunk by chunk decides the same as comparing them one
/// by one: the chunks match exactly when all six bytes do.
pub proof fn lemma_chunks_match_iff_bytes_equal(a: Seq<u8>, b: Seq<u8>)
    requires
        a.len() == 6,
        b.len() == 6,
    ensures
        chunks_match(a, b) <==> a == b,
{
    if chunks_match(a, b) {
        lemma_be_u32_injective(a.subrange(0, 4), b.subrange(0, 4));
        lemma_be_u16_injective(a.subrange(4, 6), b.subrange(4, 6));
        assert forall|i: int| 0 <= i < 6 implies a[i] == b[i] by {
            if i < 4 {
                assert(a[i] == a.subrange(0, 4)[i]);
                assert(b[i] == b.subrange(0, 4)[i]);
            } else {
                assert(a[i] == a.subrange(4, 6)[i - 4]);
                assert(b[i] == b.subrange(4, 6)[i - 4]);
            }
        }
        assert(a =~= b);
    }
}

/// The 32-bit chunk in front of a hardware address, assembled byte by byte.
fn front_chunk(bytes: &[u8; 6]) -> (r: u32)
    ensures
        r == be_u32(bytes@.subrange(0, 4)),
{
    let b0: u32 = bytes[0] as u32;
    let b1: u32 = bytes[1] as u32;
    let b2: u32 = bytes[2] as u32;
    let b3: u32 = bytes[3] as u32;
    b0 * 0x100_0000 + b1 * 0x1_0000 + b2 * 0x100 + b3
}

/// The 16-bit chunk at the back of a hardware address, assembled byte by
/// byte.
fn back_chunk(bytes: &[u8; 6]) -> (r: u16)
    ensures
        r == be_u16(bytes@.subrange(4, 6)),
{
    let b4: u16 = bytes[4] as u16;
    let b5: u16 = bytes[5] as u16;
    b4 * 0x100 + b5
}

/// A hardware address that owns its six bytes and is compared chunk by
/// chunk.
#[derive(Clone, Copy, Debug, Eq)]
pub struct MacAddr3([u8; 6]);

impl View for MacAddr3 {
    type V = Seq<u8>;

    /// The six bytes of the address, in address order.
    closed spec fn view(&self) -> Seq<u8> {
        self.0@
    }
}

impl MacAddr3 {
    /// The address `a:b:c:d:e:f`.
    pub fn new(a: u8, b: u8, c: u8, d: u8, e: u8, f: u8) -> (r: MacAddr3)
        ensures
            r@ == seq![a, b, c, d, e, f],
    {
        let r = MacAddr3([a, b, c, d, e, f]);
        assert(r@ =~= seq![a, b, c, d, e, f]);
        r
    }

    /// The six bytes of the address.
    pub fn octets(&self) -> (r: [u8; 6])
        ensures
            r@ == self@,
    {
        self.0
    }

    /// Every address has six bytes.
    pub proof fn lemma_six_bytes(a: MacAddr3)
        ensures
            a@.len() == 6,
    {
    }

    /// An address is nothing but its six bytes: two addresses with the same
    /// bytes are the same address.
    pub proof fn lemma_bytes_determine(a: MacAddr3, b: MacAddr3)
        requires
            a@ == b@,
        ensures
            a == b,
    {
        assert(a.0 =~= b.0);
    }

    /// Chunk-wise equality is an equivalence: reflexive, symmetric and
    /// transitive over all addresses.
    pub proof fn lemma_eq_is_equivalence(a: MacAddr3, b: MacAddr3, c: MacAddr3)
        ensures
            a.eq_spec(&a),
            a.eq_spec(&b) == b.eq_spec(&a),
            a.eq_spec(&b) && b.eq_spec(&c) ==> a.eq_spec(&c),
    {
    }

    /// Chunk-wise equality holds exactly of addresses with the same six
    /// bytes.
    pub proof fn lemma_eq_is_byte_equality(a: MacAddr3, b: MacAddr3)
        ensures
            a.eq_spec(&b) <==> a@ == b@,
    {
        lemma_chunks_match_iff_bytes_equal(a@, b@);
    }
}

impl PartialEq for MacAddr3 {
    /// Word-chunk equality: two comparisons of assembled chunks in place of
    /// six comparisons of bytes. The answer is that of the byte-wise
    /// comparison.
    fn eq(&self, other: &MacAddr3) -> (r: bool)
        ensures
            r == (self@ == other@),
    {
        proof {
            lemma_chunks_match_iff_bytes_equal(self@, other@);
        }
        front_chunk(&self.0) == front_chunk(&other.0) && back_chunk(&self.0) == back_chunk(
            &other.0,
        )
    }
}

impl vstd::std_specs::cmp::PartialEqSpecImpl for MacAddr3 {
    open spec fn obeys_eq_spec() -> bool {
        true
    }

    /// Two addresses are equal exactly when both of their chunks match.
    open spec fn eq_spec(&self, other: &MacAddr3) -> bool {
        chunks_match(self@, other@)
    }
}

/// The two ways of comparing agree on all inputs: byte-wise comparison of two
/// addresses and chunk-wise comparison of the same two addresses give the
/// same answer.
pub proof fn lemma_equality_strategies_agree(
    a2: MacAddr2,
    b2: MacAddr2,
    a3: MacAddr3,
    b3: MacAddr3,
)
    requires
        a2@ == a3@,
        b2@ == b3@,
    ensures
        a2.eq_spec(&b2) == a3.eq_spec(&b3),
{
    lemma_chunks_match_iff_bytes_equal(a3@, b3@);
}

/// A hardware address that borrows its six bytes from the buffer in which
/// they were found. It is a borrow of that buffer, never an owner: it cannot
/// outlive the buffer, and it holds no copy of the bytes.
#[derive(Clone, Copy, Debug, Eq)]
pub struct MacAddrBuf<'a>(&'a [u8]);

impl<'a> View for MacAddrBuf<'a> {
    type V = Seq<u8>;

    /// The six bytes of the address, in address order.
    closed spec fn view(&self) -> Seq<u8> {
        self.0@
    }
}

impl<'a> MacAddrBuf<'a> {
    #[verifier::type_invariant]
    spec fn six_bytes(self) -> bool {
        self.0@.len() == 6
    }

    /// The address that lies in `bytes`.
    pub fn new(bytes: &'a [u8; 6]) -> (r: MacAddrBuf<'a>)
        ensures
            r@ == bytes@,
    {
        MacAddrBuf(bytes.as_slice())
    }

    /// The address that lies in `bytes`, which are six.
    pub(crate) fn over(bytes: &'a [u8]) -> (r: MacAddrBuf<'a>)
        requires
            bytes@.len() == 6,
        ensures
            r@ == bytes@,
    {
        MacAddrBuf(bytes)
    }

    /// The six bytes of the address, still inside the buffer.
    pub fn as_slice(&self) -> (r: &'a [u8])
        ensures
            r@ == self@,
            r@.len() == 6,
    {
        proof {
            use_type_invariant(self);
        }
        self.0
    }

    /// Equality of borrowed addresses is an equivalence: reflexive, symmetric
    /// and transitive.
    pub proof fn lemma_eq_is_equivalence(a: MacAddrBuf<'a>, b: MacAddrBuf<'a>, c: MacAddrBuf<'a>)
        ensures
            a.eq_spec(&a),
            a.eq_spec(&b) == b.eq_spec(&a),
            a.eq_spec(&b) && b.eq_spec(&c) ==> a.eq_spec(&c),
    {
    }
}

impl<'a> PartialEq for MacAddrBuf<'a> {
    /// Equality of the borrowed bytes, compared one by one in address order.
    fn eq(&self, other: &MacAddrBuf<'a>) -> (r: bool) {
        proof {
            use_type_invariant(self);
            use_type_invariant(other);
        }
        let mut i: usize = 0;
        while i < 6
            invariant
                i <= 6,
                self.0@.len() == 6,
                other.0@.len() == 6,
                forall|j: int| 0 <= j < i ==> self.0@[j] == other.0@[j],
            decreases 6 - i,
        {
            if self.0[i] != other.0[i] {
                return false;
            }
            i += 1;
        }
        assert(self@ =~= other@);
        true
    }
}

impl<'a> vstd::std_specs::cmp::PartialEqSpecImpl for MacAddrBuf<'a> {
    open spec fn obeys_eq_spec() -> bool {
        true
    }

    /// Two borrowed addresses are equal exactly when their bytes match.
    open spec fn eq_spec(&self, other: &MacAddrBuf<'a>) -> bool {
        self@ == other@
    }
}

} // verus!
