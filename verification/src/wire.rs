//! Little-endian and big-endian 16-bit fields of the PXE parameter structures.
use vstd::prelude::*;

verus! {

/// The value of the little-endian 16-bit field that starts at `at`.
pub open spec fn le_u16_at(bytes: Seq<u8>, at: int) -> int {
    bytes[at] + 256 * bytes[at + 1]
}

/// The value of the big-endian 16-bit field that starts at `at`.
pub open spec fn be_u16_at(bytes: Seq<u8>, at: int) -> int {
    256 * bytes[at] + bytes[at + 1]
}

/// Reads `N` bytes as a byte array with `bytemuck::pod_read_unaligned`.
///
/// `pod_read_unaligned::<[u8; N]>` copies the slice into the array; it panics
/// unless the slice holds exactly `N` bytes, which `requires` rules out.
#[verifier::external_body]
fn pod_read_bytes<const N: usize>(bytes: &[u8]) -> (r: [u8; N])
    requires
        bytes@.len() == N,
    ensures
        r@ == bytes@,
{
    bytemuck::pod_read_unaligned(bytes)
}

/// Reads the four bytes that start at `at`.
pub fn read_bytes4(bytes: &[u8], at: usize) -> (r: [u8; 4])
    requires
        at + 4 <= bytes@.len(),
    ensures
        r@ == bytes@.subrange(at as int, at + 4),
{
    // The slice's length is a `usize`, so `at + 4` does not overflow.
    let len: usize = bytes.len();
    assert(at + 4 <= len);
    pod_read_bytes(vstd::slice::slice_subrange(bytes, at, at + 4))
}

/// Reads the little-endian 16-bit field that starts at `at`.
pub fn read_u16_le(bytes: &[u8], at: usize) -> (r: u16)
    requires
        at + 2 <= bytes@.len(),
    ensures
        r == le_u16_at(bytes@, at as int),
{
    // The slice's length is a `usize`, so `at + 2` does not overflow.
    let len: usize = bytes.len();
    assert(at + 2 <= len);
    let field: [u8; 2] = pod_read_bytes(vstd::slice::slice_subrange(bytes, at, at + 2));
    assert(field@[0] == bytes@[at as int] && field@[1] == bytes@[at + 1]);
    field[0] as u16 + (field[1] as u16) * 256
}

/// Writes `value` little-endian into the two bytes that start at `at`.
pub fn write_u16_le<const N: usize>(bytes: &mut [u8; N], at: usize, value: u16)
    requires
        at + 2 <= N,
    ensures
        final(bytes)@ == old(bytes)@.update(at as int, (value % 256) as u8).update(
            at + 1,
            (value / 256) as u8,
        ),
{
    bytes[at] = (value % 256) as u8;
    bytes[at + 1] = (value / 256) as u8;
}

/// Writes `value` big-endian into the two bytes that start at `at`.
pub fn write_u16_be<const N: usize>(bytes: &mut [u8; N], at: usize, value: u16)
    requires
        at + 2 <= N,
    ensures
        final(bytes)@ == old(bytes)@.update(at as int, (value / 256) as u8).update(
            at + 1,
            (value % 256) as u8,
        ),
{
    bytes[at] = (value / 256) as u8;
    bytes[at + 1] = (value % 256) as u8;
}

/// Writing a value little-endian and reading the field back gives the value.
pub proof fn lemma_le_round_trip(bytes: Seq<u8>, at: int, value: u16)
    requires
        0 <= at,
        at + 2 <= bytes.len(),
    ensures
        le_u16_at(
            bytes.update(at, (value % 256) as u8).update(at + 1, (value / 256) as u8),
            at,
        ) == value,
{
}

/// Writing a value big-endian and reading the field back gives the value.
pub proof fn lemma_be_round_trip(bytes: Seq<u8>, at: int, value: u16)
    requires
        0 <= at,
        at + 2 <= bytes.len(),
    ensures
        be_u16_at(
            bytes.update(at, (value / 256) as u8).update(at + 1, (value % 256) as u8),
            at,
        ) == value,
{
}

} // verus!
