//! Bounds-checked access to the bytes of mapped files.
use crate::error::ZeroCopyError;
use crate::mapping::{copy_into, mmap_as_slice, mmap_mut_as_mut_slice, mmap_mut_as_slice};
use crate::mapping::{mmap_bytes, mmap_mut_bytes, patched};
use crate::text::{decimal, decimal_text};
use memmap2::{Mmap, MmapMut};
use std::path::PathBuf;
use vstd::prelude::*;
use vstd::slice::slice_subrange;

verus! {

/// The message for a range from `start` to `end` that leaves a mapping of `len` bytes.
pub open spec fn range_message(what: Seq<char>, start: nat, end: nat, len: nat) -> Seq<char> {
    what + decimal(start) + ".."@ + decimal(end) + " > "@ + decimal(len)
}

fn range_error(what: &str, start: usize, end: usize, len: usize) -> (r: ZeroCopyError)
    ensures
        r matches ZeroCopyError::Buffer(m) && m@ == range_message(
            what@,
            start as nat,
            end as nat,
            len as nat,
        ),
{
    let mut m = String::from_str(what);
    m.append(decimal_text(start as u64).as_str());
    m.append("..");
    m.append(decimal_text(end as u64).as_str());
    m.append(" > ");
    m.append(decimal_text(len as u64).as_str());
    ZeroCopyError::Buffer(m)
}

/// `r` is what a write of `data` at `offset` into `before` answers, and `after` what it leaves.
pub open spec fn write_result(
    before: Seq<u8>,
    offset: nat,
    data: Seq<u8>,
    after: Seq<u8>,
    r: Result<(), ZeroCopyError>,
) -> bool {
    if offset + data.len() <= before.len() {
        &&& r is Ok
        &&& after == patched(before, offset as int, data)
    } else {
        &&& r matches Err(ZeroCopyError::Buffer(m))
        &&& m@ == range_message(
            "Write bounds out of range: "@,
            offset,
            offset + data.len(),
            before.len(),
        )
        &&& after == before
    }
}

fn write_slice_at(bytes: &mut [u8], offset: usize, data: &[u8]) -> (r: Result<(), ZeroCopyError>)
    requires
        offset + data@.len() <= usize::MAX,
    ensures
        write_result(old(bytes)@, offset as nat, data@, final(bytes)@, r),
{
    if offset + data.len() > bytes.len() {
        return Err(
            range_error("Write bounds out of range: ", offset, offset + data.len(), bytes.len()),
        );
    }
    copy_into(bytes, offset, data);
    Ok(())
}

/// `r` is what the validation of archived data answered, with an error of this library.
pub open spec fn archive_result<A, E>(
    validated: Result<A, E>,
    r: Result<A, ZeroCopyError>,
) -> bool {
    match validated {
        Ok(a) => r == Ok::<A, ZeroCopyError>(a),
        Err(_) => {
            &&& r matches Err(ZeroCopyError::ArchiveAccess(m))
            &&& m@ == "Failed to access archived data"@
        },
    }
}

fn archive_access<A, E>(validated: Result<A, E>) -> (r: Result<A, ZeroCopyError>)
    ensures
        archive_result(validated, r),
{
    match validated {
        Ok(a) => Ok(a),
        Err(_) => Err(
            ZeroCopyError::ArchiveAccess(String::from_str("Failed to access archived data")),
        ),
    }
}

/// Memory-mapped file reader with zero-copy access.
pub struct MmapReader {
    mmap: Mmap,
    path: PathBuf,
}

impl MmapReader {
    /// The mapped bytes.
    pub closed spec fn view(&self) -> Seq<u8> {
        mmap_bytes(self.mmap)
    }

    /// The path of the mapped file.
    pub closed spec fn file_path(&self) -> PathBuf {
        self.path
    }

    /// A reader of the file at `path`, of which `mmap` is the mapping.
    pub fn open(mmap: Mmap, path: PathBuf) -> (r: Self)
        ensures
            r@ == mmap_bytes(mmap),
            r.file_path() == path,
    {
        MmapReader { mmap, path }
    }

    /// The raw bytes of the memory-mapped file.
    pub fn as_bytes(&self) -> (r: &[u8])
        ensures
            r@ == self@,
    {
        mmap_as_slice(&self.mmap)
    }

    /// The size of the mapped file.
    pub fn len(&self) -> (r: usize)
        ensures
            r == self@.len(),
    {
        mmap_as_slice(&self.mmap).len()
    }

    /// Whether the mapped file is empty.
    pub fn is_empty(&self) -> (r: bool)
        ensures
            r == (self@.len() == 0),
    {
        self.len() == 0
    }

    /// The outcome of a validation of the archived data in the mapped bytes.
    pub fn access_archived<A, E>(&self, validated: Result<A, E>) -> (r: Result<A, ZeroCopyError>)
        ensures
            archive_result(validated, r),
    {
        archive_access(validated)
    }

    /// The `len` mapped bytes from `start` on.
    pub fn slice(&self, start: usize, len: usize) -> (r: Result<&[u8], ZeroCopyError>)
        requires
            start + len <= usize::MAX,
        ensures
            if start + len <= self@.len() {
                r matches Ok(s) && s@ == self@.subrange(start as int, start + len)
            } else {
                r matches Err(ZeroCopyError::Buffer(m)) && m@ == range_message(
                    "Slice bounds out of range: "@,
                    start as nat,
                    (start + len) as nat,
                    self@.len(),
                )
            },
    {
        let bytes = mmap_as_slice(&self.mmap);
        if start + len > bytes.len() {
            return Err(
                range_error("Slice bounds out of range: ", start, start + len, bytes.len()),
            );
        }
        Ok(slice_subrange(bytes, start, start + len))
    }

    /// The path of the mapped file.
    pub fn path(&self) -> (r: &PathBuf)
        ensures
            *r == self.file_path(),
    {
        &self.path
    }

    /// The memory map itself.
    pub fn mapping(&self) -> (r: &Mmap)
        ensures
            mmap_bytes(*r) == self@,
    {
        &self.mmap
    }
}

/// Memory-mapped file writer with zero-copy writes.
pub struct MmapWriter {
    mmap: MmapMut,
    path: PathBuf,
}

impl MmapWriter {
    /// The mapped bytes.
    pub closed spec fn view(&self) -> Seq<u8> {
        mmap_mut_bytes(self.mmap)
    }

    /// The path of the mapped file.
    pub closed spec fn file_path(&self) -> PathBuf {
        self.path
    }

    /// A writer to the file at `path`, of which `mmap` is the mapping.
    pub fn open(mmap: MmapMut, path: PathBuf) -> (r: Self)
        ensures
            r@ == mmap_mut_bytes(mmap),
            r.file_path() == path,
    {
        MmapWriter { mmap, path }
    }

    /// Mutable access to the mapped bytes.
    pub fn as_mut_bytes(&mut self) -> (r: &mut [u8])
        ensures
            r@ == old(self)@,
            final(self)@ == final(r)@,
            final(self).file_path() == old(self).file_path(),
    {
        mmap_mut_as_mut_slice(&mut self.mmap)
    }

    /// The size of the mapped file.
    pub fn len(&self) -> (r: usize)
        ensures
            r == self@.len(),
    {
        mmap_mut_as_slice(&self.mmap).len()
    }

    /// Whether the mapped file is empty.
    pub fn is_empty(&self) -> (r: bool)
        ensures
            r == (self@.len() == 0),
    {
        self.len() == 0
    }

    /// Writes `data` over the mapped bytes from `offset` on.
    pub fn write_at(&mut self, offset: usize, data: &[u8]) -> (r: Result<(), ZeroCopyError>)
        requires
            offset + data@.len() <= usize::MAX,
        ensures
            write_result(old(self)@, offset as nat, data@, final(self)@, r),
            final(self).file_path() == old(self).file_path(),
    {
        write_slice_at(mmap_mut_as_mut_slice(&mut self.mmap), offset, data)
    }

    /// The path of the mapped file.
    pub fn path(&self) -> (r: &PathBuf)
        ensures
            *r == self.file_path(),
    {
        &self.path
    }

    /// The memory map itself.
    pub fn mapping(&self) -> (r: &MmapMut)
        ensures
            mmap_mut_bytes(*r) == self@,
    {
        &self.mmap
    }

    /// Goes on with `mmap`, the mapping of the file after a change of its size.
    pub fn resize(&mut self, mmap: MmapMut)
        ensures
            final(self)@ == mmap_mut_bytes(mmap),
            final(self).file_path() == old(self).file_path(),
    {
        self.mmap = mmap;
    }
}

/// Read guard for a thread-safe memory-mapped file.
pub struct ThreadSafeMmapReadGuard<'a> {
    guard: &'a MmapMut,
}

impl<'a> ThreadSafeMmapReadGuard<'a> {
    /// The mapped bytes.
    pub closed spec fn view(&self) -> Seq<u8> {
        mmap_mut_bytes(*self.guard)
    }

    /// A guard over a mapping that is locked for reading.
    pub fn new(guard: &'a MmapMut) -> (r: Self)
        ensures
            r@ == mmap_mut_bytes(*guard),
    {
        ThreadSafeMmapReadGuard { guard }
    }

    /// The mapped bytes.
    pub fn as_bytes(&self) -> (r: &[u8])
        ensures
            r@ == self@,
    {
        mmap_mut_as_slice(self.guard)
    }

    /// The outcome of a validation of the archived data in the mapped bytes.
    pub fn access_archived<A, E>(&self, validated: Result<A, E>) -> (r: Result<A, ZeroCopyError>)
        ensures
            archive_result(validated, r),
    {
        archive_access(validated)
    }
}

/// Write guard for a thread-safe memory-mapped file.
pub struct ThreadSafeMmapWriteGuard<'a> {
    /// The mapping, which keeps what was written when the guard is given up.
    pub guard: &'a mut MmapMut,
}

impl<'a> ThreadSafeMmapWriteGuard<'a> {
    /// The mapped bytes.
    pub open spec fn view(&self) -> Seq<u8> {
        mmap_mut_bytes(*self.guard)
    }

    /// A guard over a mapping that is locked for writing.
    pub fn new(guard: &'a mut MmapMut) -> (r: Self)
        ensures
            r@ == mmap_mut_bytes(*old(guard)),
            *final(r.guard) == *final(guard),
    {
        ThreadSafeMmapWriteGuard { guard }
    }

    /// Mutable access to the mapped bytes.
    pub fn as_mut_bytes(&mut self) -> (r: &mut [u8])
        ensures
            r@ == old(self)@,
            final(self)@ == final(r)@,
            *final(final(self).guard) == *final(old(self).guard),
    {
        mmap_mut_as_mut_slice(self.guard)
    }

    /// Writes `data` over the mapped bytes from `offset` on.
    pub fn write_at(&mut self, offset: usize, data: &[u8]) -> (r: Result<(), ZeroCopyError>)
        requires
            offset + data@.len() <= usize::MAX,
        ensures
            write_result(old(self)@, offset as nat, data@, final(self)@, r),
            *final(final(self).guard) == *final(old(self).guard),
    {
        write_slice_at(mmap_mut_as_mut_slice(self.guard), offset, data)
    }
}

/// Bytes that were written are read back, and all others are as they were.
pub proof fn law_written_bytes_are_read(
    before: Seq<u8>,
    offset: nat,
    data: Seq<u8>,
    after: Seq<u8>,
    r: Result<(), ZeroCopyError>,
)
    requires
        write_result(before, offset, data, after, r),
        r is Ok,
    ensures
        offset + data.len() <= before.len(),
        after.len() == before.len(),
        after.subrange(offset as int, (offset + data.len()) as int) == data,
        after.take(offset as int) == before.take(offset as int),
        after.skip((offset + data.len()) as int) == before.skip((offset + data.len()) as int),
{
    assert(after.subrange(offset as int, (offset + data.len()) as int) =~= data);
    assert(after.take(offset as int) =~= before.take(offset as int));
    assert(after.skip((offset + data.len()) as int) =~= before.skip((offset + data.len()) as int));
}

/// A write that is refused changes nothing, and it is refused only if it leaves the mapping.
pub proof fn law_refused_write_changes_nothing(
    before: Seq<u8>,
    offset: nat,
    data: Seq<u8>,
    after: Seq<u8>,
    r: Result<(), ZeroCopyError>,
)
    requires
        write_result(before, offset, data, after, r),
        r is Err,
    ensures
        after == before,
        offset + data.len() > before.len(),
{
}

/// A write succeeds exactly if it stays in the mapping.
pub proof fn law_write_succeeds_if_it_fits(
    before: Seq<u8>,
    offset: nat,
    data: Seq<u8>,
    after: Seq<u8>,
    r: Result<(), ZeroCopyError>,
)
    requires
        write_result(before, offset, data, after, r),
    ensures
        r is Ok <==> offset + data.len() <= before.len(),
        after.len() == before.len(),
{
}

/// The message about a range that leaves a mapping has in it what was tried, both ends of the range and the
/// length of the mapping, in this order and as numerals.
pub proof fn law_range_message(what: Seq<char>, start: nat, end: nat, len: nat)
    ensures
        ({
            let m = range_message(what, start, end, len);
            let a = what.len() as int;
            let b = a + decimal(start).len() as int;
            let c = b + 2 + decimal(end).len() as int;
            &&& m.len() == c + 3 + decimal(len).len()
            &&& m.take(a) == what
            &&& m.subrange(a, b) == decimal(start)
            &&& m.subrange(b, b + 2) == seq!['.', '.']
            &&& m.subrange(b + 2, c) == decimal(end)
            &&& m.subrange(c, c + 3) == seq![' ', '>', ' ']
            &&& m.skip(c + 3) == decimal(len)
        }),
{
    reveal_strlit("..");
    reveal_strlit(" > ");
    let m = range_message(what, start, end, len);
    let a = what.len() as int;
    let b = a + decimal(start).len() as int;
    let c = b + 2 + decimal(end).len() as int;
    assert(m.take(a) =~= what);
    assert(m.subrange(a, b) =~= decimal(start));
    assert(m.subrange(b, b + 2) =~= seq!['.', '.']);
    assert(m.subrange(b + 2, c) =~= decimal(end));
    assert(m.subrange(c, c + 3) =~= seq![' ', '>', ' ']);
    assert(m.skip(c + 3) =~= decimal(len));
}

/// What a validation accepts is handed on as it is, and what it refuses becomes the one error for that.
pub proof fn law_validation_decides<A, E>(
    validated: Result<A, E>,
    r: Result<A, ZeroCopyError>,
)
    requires
        archive_result(validated, r),
    ensures
        r is Ok <==> validated is Ok,
        validated is Ok ==> r->Ok_0 == validated->Ok_0,
        validated is Err ==> r->Err_0 is ArchiveAccess,
{
}

} // verus!
