//! Read-only mapped files, and hints to the system about the pages that they need.
use crate::mapping::{mmap_as_slice, mmap_bytes, mmap_len};
use memmap2::Mmap;
use std::path::PathBuf;
use vstd::prelude::*;

verus! {

/// The kinds of systems, by how they take hints about pages.
#[derive(Debug, Clone, Copy, PartialEq, Eq, Structural)]
pub enum Platform {
    Unix,
    Windows,
}

/// A hint that the system is to be given. Bytes are given by the place of the first in the mapping and by
/// their number.
#[derive(Debug, Clone, Copy, PartialEq, Eq, Structural)]
pub enum PageHint {
    /// There is nothing to say.
    Nothing,
    /// The mapping will be read from its start to its end.
    Sequential,
    /// The mapping will be read in no particular order.
    Random,
    /// These bytes will be needed soon.
    WillNeed(usize, usize),
    /// These bytes are no longer needed.
    DontNeed(usize, usize),
    /// These bytes are to be brought into memory.
    Prefetch(usize, usize),
}

/// The part of the range of `len` bytes from `offset` on that lies below `size`, as the offset of its
/// first byte and the number of its bytes.
pub open spec fn clamped(len: nat, offset: nat, size: nat) -> (nat, nat) {
    let o = if offset <= size {
        offset
    } else {
        size
    };
    let end = if o + len <= size {
        o + len
    } else {
        size
    };
    (o, (end - o) as nat)
}

/// Cuts the range of `len` bytes from `offset` on down to a file of `size` bytes.
pub fn clamp_range(len: usize, offset: usize, size: usize) -> (r: (usize, usize))
    ensures
        (r.0 as nat, r.1 as nat) == clamped(len as nat, offset as nat, size as nat),
{
    if size == 0 {
        return (0, 0);
    }
    let o: usize = if offset <= size {
        offset
    } else {
        size
    };
    let end: usize = if len <= size - o {
        o + len
    } else {
        size
    };
    let l: usize = end - o;
    (o, l)
}

/// The range that a prefetch asks for where the start of a range past the end of the file is not
/// moved: nothing, if the range ends at or before its start.
pub open spec fn cut_at_end(len: nat, offset: nat, size: nat) -> Option<(nat, nat)> {
    let end = if offset + len <= size {
        offset + len
    } else {
        size
    };
    if end <= offset {
        None
    } else {
        Some((offset, (end - offset) as nat))
    }
}

/// Read-only memory-mapped file with page advice helpers.
pub struct MappedFile {
    mmap: Mmap,
    len: usize,
    path: PathBuf,
}

impl MappedFile {
    /// The mapped bytes.
    pub closed spec fn view(&self) -> Seq<u8> {
        mmap_bytes(self.mmap)
    }

    /// The length of the file when it was opened.
    pub closed spec fn file_len(&self) -> nat {
        self.len as nat
    }

    /// The path of the mapped file.
    pub closed spec fn file_path(&self) -> PathBuf {
        self.path
    }

    /// The whole length of the file is mapped.
    pub open spec fn well_formed(&self) -> bool {
        self.file_len() <= self@.len()
    }

    /// The file at `path` of `len` bytes, of which `mmap` is the mapping.
    pub fn open_readonly(mmap: Mmap, len: usize, path: PathBuf) -> (r: Self)
        requires
            len <= mmap_bytes(mmap).len(),
        ensures
            r.well_formed(),
            r@ == mmap_bytes(mmap),
            r.file_len() == len,
            r.file_path() == path,
    {
        MappedFile { mmap, len, path }
    }

    /// The file at `path` of `len` bytes, of which `mmap` is the mapping, if all of them are mapped.
    pub fn open_checked(mmap: Mmap, len: usize, path: PathBuf) -> (r: Option<Self>)
        ensures
            r is Some <==> len <= mmap_bytes(mmap).len(),
            r matches Some(f) ==> {
                &&& f.well_formed()
                &&& f@ == mmap_bytes(mmap)
                &&& f.file_len() == len
                &&& f.file_path() == path
            },
    {
        if len > mmap_len(&mmap) {
            return None;
        }
        Some(Self::open_readonly(mmap, len, path))
    }

    /// Raw bytes of the mapped file.
    pub fn as_bytes(&self) -> (r: &[u8])
        ensures
            r@ == self@,
    {
        mmap_as_slice(&self.mmap)
    }

    /// File length in bytes.
    pub fn len(&self) -> (r: usize)
        ensures
            r == self.file_len(),
    {
        self.len
    }

    /// True if the file is zero-length.
    pub fn is_empty(&self) -> (r: bool)
        ensures
            r == (self.file_len() == 0),
    {
        self.len == 0
    }

    /// The path of the mapped file.
    pub fn path(&self) -> (r: &PathBuf)
        ensures
            *r == self.file_path(),
    {
        &self.path
    }

    /// The memory map itself.
    pub fn mapping(&self) -> (r: &Mmap)
        ensures
            mmap_bytes(*r) == self@,
    {
        &self.mmap
    }

    /// Hint: access pattern is sequential.
    pub fn advise_sequential(&self, platform: Platform) -> (r: PageHint)
        ensures
            r == match platform {
                Platform::Unix => PageHint::Sequential,
                Platform::Windows => PageHint::Nothing,
            },
    {
        match platform {
            Platform::Unix => PageHint::Sequential,
            Platform::Windows => PageHint::Nothing,
        }
    }

    /// Hint: access pattern is random.
    pub fn advise_random(&self, platform: Platform) -> (r: PageHint)
        ensures
            r == match platform {
                Platform::Unix => PageHint::Random,
                Platform::Windows => PageHint::Nothing,
            },
    {
        match platform {
            Platform::Unix => PageHint::Random,
            Platform::Windows => PageHint::Nothing,
        }
    }

    /// Hint: the given range will be needed soon. Offset and length are clamped to the file size.
    pub fn will_need_range(&self, platform: Platform, offset: usize, len: usize) -> (r: PageHint)
        requires
            self.well_formed(),
        ensures
            is_need_hint(r, platform, clamped(len as nat, offset as nat, self.file_len())),
    {
        let (o, l): (usize, usize) = clamp_range(len, offset, self.len);
        if l == 0 {
            return PageHint::Nothing;
        }
        match platform {
            Platform::Unix => PageHint::WillNeed(o, l),
            Platform::Windows => PageHint::Prefetch(o, l),
        }
    }

    /// Hint: pages in the given range are no longer needed.
    pub fn dont_need_range(&self, platform: Platform, offset: usize, len: usize) -> (r: PageHint)
        requires
            self.well_formed(),
        ensures
            is_drop_hint(r, platform, clamped(len as nat, offset as nat, self.file_len())),
    {
        let (o, l): (usize, usize) = clamp_range(len, offset, self.len);
        if l == 0 {
            return PageHint::Nothing;
        }
        match platform {
            Platform::Unix => PageHint::DontNeed(o, l),
            Platform::Windows => PageHint::Nothing,
        }
    }

    /// Hint: the given range is to be prefetched into memory, as far as the system can.
    pub fn prefetch_range(&self, platform: Platform, offset: usize, len: usize) -> (r: PageHint)
        requires
            self.well_formed(),
        ensures
            is_need_hint(r, platform, clamped(len as nat, offset as nat, self.file_len())),
    {
        self.will_need_range(platform, offset, len)
    }
}

/// `hint` says that the bytes of `range`, by the first and their number, will be needed; nothing is said
/// of no bytes.
pub open spec fn is_need_hint(hint: PageHint, platform: Platform, range: (nat, nat)) -> bool {
    if range.1 == 0 {
        hint == PageHint::Nothing
    } else {
        match platform {
            Platform::Unix => hint matches PageHint::WillNeed(o, l) && (o as nat, l as nat) == range,
            Platform::Windows => hint matches PageHint::Prefetch(o, l) && (o as nat, l as nat)
                == range,
        }
    }
}

/// `hint` says that the bytes of `range`, by the first and their number, are no longer needed; nothing is
/// said of no bytes, nor on Windows.
pub open spec fn is_drop_hint(hint: PageHint, platform: Platform, range: (nat, nat)) -> bool {
    if range.1 == 0 || platform == Platform::Windows {
        hint == PageHint::Nothing
    } else {
        hint matches PageHint::DontNeed(o, l) && (o as nat, l as nat) == range
    }
}

/// Whether the byte at `i` lies in the range of `len` bytes from `offset` on.
pub open spec fn in_span(offset: nat, len: nat, i: nat) -> bool {
    offset <= i < offset + len
}

/// A clamped range lies in the file, and holds exactly the bytes of the range that do.
pub proof fn law_clamped_is_intersection(len: nat, offset: nat, size: nat)
    ensures
        ({
            let (o, l) = clamped(len, offset, size);
            &&& o + l <= size
            &&& l <= len
            &&& forall|i: nat| #[trigger] in_span(o, l, i) <==> i < size && in_span(offset, len, i)
        }),
{
}

/// Clamping a range that is clamped already changes nothing.
pub proof fn law_clamp_idempotent(len: nat, offset: nat, size: nat)
    ensures
        ({
            let (o, l) = clamped(len, offset, size);
            clamped(l, o, size) == (o, l)
        }),
{
}

/// Cutting a range at the end of the file asks for the same bytes as clamping it, and for none where
/// clamping leaves none.
pub proof fn law_cut_agrees_with_clamp(len: nat, offset: nat, size: nat)
    ensures
        match cut_at_end(len, offset, size) {
            Some(range) => range == clamped(len, offset, size) && range.1 > 0,
            None => clamped(len, offset, size).1 == 0,
        },
{
}

/// The bytes that a hint is given about are mapped.
pub proof fn law_hints_are_about_mapped_bytes(f: MappedFile, offset: nat, len: nat)
    requires
        f.well_formed(),
    ensures
        ({
            let (o, l) = clamped(len, offset, f.file_len());
            o + l <= f@.len()
        }),
{
}

/// Whether `hint` is about the byte at `i`.
pub open spec fn hints_at(hint: PageHint, i: nat) -> bool {
    match hint {
        PageHint::WillNeed(o, l) => o <= i < o + l,
        PageHint::DontNeed(o, l) => o <= i < o + l,
        PageHint::Prefetch(o, l) => o <= i < o + l,
        _ => false,
    }
}

/// A hint that a range will be needed is about exactly those of its bytes that the file has, in the form of the
/// system: it neither leaves one out nor is about another.
pub proof fn law_needed_bytes_are_hinted(
    hint: PageHint,
    platform: Platform,
    offset: nat,
    len: nat,
    size: nat,
    i: nat,
)
    requires
        is_need_hint(hint, platform, clamped(len, offset, size)),
    ensures
        hints_at(hint, i) <==> offset <= i && i < offset + len && i < size,
        len > 0 && offset < size ==> (platform == Platform::Unix ==> hint is WillNeed) && (platform
            == Platform::Windows ==> hint is Prefetch),
        len == 0 || offset >= size ==> hint == PageHint::Nothing,
{
}

/// A hint that a range is no longer needed is about exactly those of its bytes that the file has; on Windows
/// there is none.
pub proof fn law_dropped_bytes_are_hinted(
    hint: PageHint,
    platform: Platform,
    offset: nat,
    len: nat,
    size: nat,
    i: nat,
)
    requires
        is_drop_hint(hint, platform, clamped(len, offset, size)),
    ensures
        platform == Platform::Unix ==> (hints_at(hint, i) <==> offset <= i && i < offset + len && i < size),
        platform == Platform::Unix && len > 0 && offset < size ==> hint is DontNeed,
        platform == Platform::Windows || len == 0 || offset >= size ==> hint == PageHint::Nothing,
{
}

/// A clamped range starts where the range does, or at the end of the file if that comes first, and ends where
/// the range does, or at the end of the file.
pub proof fn law_clamped_ends(len: nat, offset: nat, size: nat)
    ensures
        ({
            let (o, l) = clamped(len, offset, size);
            &&& offset <= size ==> o == offset
            &&& offset > size ==> o == size && l == 0
            &&& offset + len <= size ==> l == len
            &&& offset <= size < offset + len ==> o + l == size
        }),
{
}

} // verus!
