//! Real-mode `segment:offset` pointers.
use core::marker::PhantomData;
use vstd::prelude::*;

verus! {

/// The linear address that a real-mode `segment:offset` pair designates.
pub open spec fn linear_address(segment: u16, offset: u16) -> int {
    segment * 16 + offset
}

/// The size of the real-mode address space (1 MiB).
pub open spec fn real_mode_limit() -> int {
    0x10_0000
}

/// The segment that [`SegmentedPointer::from_mut`] picks for a linear address:
/// bits 8..20 of the address, as a multiple of 16.
pub open spec fn segment_of(address: u32) -> u16 {
    ((address % 0x10_0000) / 256 * 16) as u16
}

/// The offset that [`SegmentedPointer::from_mut`] picks for a linear address:
/// its low byte.
pub open spec fn offset_of(address: u32) -> u16 {
    (address % 256) as u16
}

/// A pointer is normalised when its offset is below 256 and its segment a
/// multiple of 16, the form that [`SegmentedPointer::from_mut`] produces.
pub open spec fn is_normalized(segment: u16, offset: u16) -> bool {
    offset < 256 && segment % 16 == 0
}

/// Converting a linear address into a segmented pointer and back gives the
/// address modulo 1 MiB; for an address below 1 MiB it gives the address itself.
pub proof fn lemma_linear_round_trip(address: u32)
    ensures
        linear_address(segment_of(address), offset_of(address)) == address % 0x10_0000,
        address < real_mode_limit() ==> linear_address(segment_of(address), offset_of(address))
            == address,
{
    let a = address as int;
    assert((a % 0x10_0000) / 256 * 16 * 16 + a % 256 == a % 0x10_0000) by (nonlinear_arith);
}

/// The pointers built from linear addresses are normalised.
pub proof fn lemma_from_linear_is_normalized(address: u32)
    ensures
        is_normalized(segment_of(address), offset_of(address)),
{
    let a = address as int;
    assert((a % 0x10_0000) / 256 * 16 % 16 == 0) by (nonlinear_arith);
    assert((a % 0x10_0000) / 256 * 16 <= 0xfff0) by (nonlinear_arith);
}

/// A normalised pointer is recovered from the linear address it designates:
/// it lies below 1 MiB, and converting that address back gives the same
/// segment and offset.
pub proof fn lemma_normalized_round_trip(segment: u16, offset: u16)
    requires
        is_normalized(segment, offset),
    ensures
        linear_address(segment, offset) < real_mode_limit(),
        segment_of(linear_address(segment, offset) as u32) == segment,
        offset_of(linear_address(segment, offset) as u32) == offset,
{
    let s = segment as int;
    let o = offset as int;
    let l = s * 16 + o;
    assert(l < 0x10_0000);
    assert(l % 0x10_0000 == l);
    assert(l / 256 * 16 == s) by (nonlinear_arith)
        requires
            l == s * 16 + o,
            0 <= o < 256,
            s % 16 == 0,
            0 <= s < 0x1_0000,
    ;
    assert(l % 256 == o) by (nonlinear_arith)
        requires
            l == s * 16 + o,
            0 <= o < 256,
            s % 16 == 0,
            0 <= s,
    ;
}

/// Computes `segment * 16 + offset` the way the CPU does in real mode.
fn combine(segment: u16, offset: u16) -> (r: u32)
    ensures
        r == linear_address(segment, offset),
{
    let base: u32 = (segment as u32) << 4u32;
    assert(base == segment * 16) by (bit_vector)
        requires
            base == (segment as u32) << 4u32,
    ;
    base + offset as u32
}

/// A real-mode pointer to a `T`, made of a 16-bit segment and a 16-bit offset.
pub struct SegmentedPointer<'a, T> {
    offset: u16,
    segment: u16,
    _marker: PhantomData<&'a mut T>,
}

impl<'a, T> SegmentedPointer<'a, T> {
    /// The offset part of the pointer.
    pub closed spec fn spec_offset(&self) -> u16 {
        self.offset
    }

    /// The segment part of the pointer.
    pub closed spec fn spec_segment(&self) -> u16 {
        self.segment
    }

    /// The linear address the pointer designates.
    pub open spec fn spec_linear(&self) -> int {
        linear_address(self.spec_segment(), self.spec_offset())
    }

    /// Builds a pointer from its two parts.
    pub fn new(offset: u16, segment: u16) -> (r: Self)
        ensures
            r.spec_offset() == offset,
            r.spec_segment() == segment,
    {
        Self { offset, segment, _marker: PhantomData }
    }

    /// Builds the pointer to the object at linear address `address`.
    ///
    /// The segment keeps bits 8..20 of the address and the offset its low
    /// byte, so the pointer designates the address modulo 1 MiB.
    pub fn from_mut(address: u32) -> (r: Self)
        ensures
            r.spec_segment() == segment_of(address),
            r.spec_offset() == offset_of(address),
            r.spec_offset() == address % 256,
            r.spec_segment() * 16 == address % 0x10_0000 - address % 256,
            r.spec_linear() == address % 0x10_0000,
    {
        let segment: u16 = (address >> 4) as u16 & !0xfu16;
        let offset: u16 = (address & 0xff) as u16;
        proof {
            assert(segment == (address % 0x10_0000) / 256 * 16) by (bit_vector)
                requires
                    segment == (address >> 4) as u16 & !0xfu16,
            ;
            lemma_linear_round_trip(address);
            assert(offset == address % 256) by (bit_vector)
                requires
                    offset == (address & 0xff) as u16,
            ;
        }
        Self::new(offset, segment)
    }

    /// The offset part of the pointer.
    #[verifier::when_used_as_spec(spec_offset)]
    pub fn offset(&self) -> (r: u16)
        ensures
            r == self.spec_offset(),
    {
        self.offset
    }

    /// The segment part of the pointer.
    #[verifier::when_used_as_spec(spec_segment)]
    pub fn segment(&self) -> (r: u16)
        ensures
            r == self.spec_segment(),
    {
        self.segment
    }

    /// The linear address the pointer designates, `segment * 16 + offset`.
    pub fn as_ptr(&self) -> (r: u32)
        ensures
            r == self.spec_linear(),
    {
        combine(self.segment, self.offset)
    }

    /// The linear address the pointer designates, for writing through it.
    pub fn as_ptr_mut(&mut self) -> (r: u32)
        ensures
            r == old(self).spec_linear(),
            *final(self) == *old(self),
    {
        combine(self.segment, self.offset)
    }
}

} // verus!
