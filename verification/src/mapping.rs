//! Mapped memory: the types of the `memmap2` crate, the bytes that they hold, and copying.
//!
//! A map is taken to hold the bytes that were last written through it. That is so as long as no one
//! else changes the mapped file, which `memmap2` demands of whoever makes a map of a file.
use memmap2::{Mmap, MmapMut};
use vstd::prelude::*;

verus! {

/// `memmap2::Mmap`, a read-only memory map.
#[verifier::external_type_specification]
#[verifier::external_body]
pub struct ExMmap(memmap2::Mmap);

/// `memmap2::MmapMut`, a writable memory map.
#[verifier::external_type_specification]
#[verifier::external_body]
pub struct ExMmapMut(memmap2::MmapMut);

/// `std::path::PathBuf`, carried along with what was found at the path.
#[verifier::external_type_specification]
#[verifier::external_body]
pub struct ExPathBuf(std::path::PathBuf);

/// The bytes that a read-only memory map holds.
pub uninterp spec fn mmap_bytes(m: Mmap) -> Seq<u8>;

/// The bytes that a writable memory map holds.
pub uninterp spec fn mmap_mut_bytes(m: MmapMut) -> Seq<u8>;

/// `Mmap::deref`: the slice of the mapped bytes, all of them.
#[verifier::external_body]
pub(crate) fn mmap_as_slice(m: &Mmap) -> (r: &[u8])
    ensures
        r@ == mmap_bytes(*m),
{
    &m[..]
}

/// `MmapMut::deref`: the slice of the mapped bytes, all of them.
#[verifier::external_body]
pub(crate) fn mmap_mut_as_slice(m: &MmapMut) -> (r: &[u8])
    ensures
        r@ == mmap_mut_bytes(*m),
{
    &m[..]
}

/// `MmapMut::deref_mut`: the mutable slice of the mapped bytes, all of them. What the slice holds
/// in the end, the map holds.
#[verifier::external_body]
pub(crate) fn mmap_mut_as_mut_slice(m: &mut MmapMut) -> (r: &mut [u8])
    ensures
        r@ == mmap_mut_bytes(*old(m)),
        mmap_mut_bytes(*final(m)) == final(r)@,
{
    &mut m[..]
}

/// The number of bytes in a read-only memory map.
pub fn mmap_len(m: &Mmap) -> (r: usize)
    ensures
        r == mmap_bytes(*m).len(),
{
    mmap_as_slice(m).len()
}

/// The number of bytes in a writable memory map.
pub fn mmap_mut_len(m: &MmapMut) -> (r: usize)
    ensures
        r == mmap_mut_bytes(*m).len(),
{
    mmap_mut_as_slice(m).len()
}

/// `bytes` with those from `offset` on replaced by `data`.
pub open spec fn patched(bytes: Seq<u8>, offset: int, data: Seq<u8>) -> Seq<u8> {
    Seq::new(
        bytes.len(),
        |i: int|
            if offset <= i < offset + data.len() {
                data[i - offset]
            } else {
                bytes[i]
            },
    )
}

/// Copies `src` over the bytes of `dst` from `offset` on.
pub fn copy_into(dst: &mut [u8], offset: usize, src: &[u8])
    requires
        offset + src@.len() <= old(dst)@.len(),
    ensures
        final(dst)@ == patched(old(dst)@, offset as int, src@),
        final(dst)@.subrange(offset as int, offset + src@.len()) == src@,
{
    let n: usize = src.len();
    let total: usize = dst.len();
    let ghost before = dst@;
    let mut i: usize = 0;
    assert(dst@ =~= patched(before, offset as int, src@.take(0)));
    while i < n
        invariant
            i <= n == src@.len(),
            dst@.len() == before.len() == total,
            offset + n <= total,
            dst@ == patched(before, offset as int, src@.take(i as int)),
        decreases n - i,
    {
        dst[offset + i] = src[i];
        i = i + 1;
        assert(dst@ =~= patched(before, offset as int, src@.take(i as int)));
    }
    assert(src@.take(n as int) =~= src@);
    assert(dst@.subrange(offset as int, offset + src@.len()) =~= src@);
}

/// Copying bytes over others changes just the places that it is given bytes for, each to its byte, and
/// neither adds nor takes away a place.
pub proof fn law_copy_changes_its_places(bytes: Seq<u8>, offset: int, data: Seq<u8>, i: int)
    requires
        0 <= offset,
        offset + data.len() <= bytes.len(),
    ensures
        patched(bytes, offset, data).len() == bytes.len(),
        0 <= i < offset ==> patched(bytes, offset, data)[i] == bytes[i],
        0 <= i < data.len() ==> patched(bytes, offset, data)[offset + i] == data[i],
        offset + data.len() <= i < bytes.len() ==> patched(bytes, offset, data)[i] == bytes[i],
{
}

} // verus!
