use codegraph::circular::MmapCircularBuffer;
use codegraph::error::ZeroCopyError;
use codegraph::mapped_file::{clamp_range, MappedFile, PageHint, Platform};
use codegraph::zero_copy::{MmapReader, MmapWriter};
use codegraph::zero_copy::{ThreadSafeMmapReadGuard, ThreadSafeMmapWriteGuard};
use memmap2::{Mmap, MmapMut};
use parking_lot::RwLock;
use std::path::PathBuf;

fn map_of(bytes: &[u8]) -> Mmap {
    let mut mmap = MmapMut::map_anon(bytes.len()).unwrap();
    mmap.copy_from_slice(bytes);
    mmap.make_read_only().unwrap()
}

fn ring_of(capacity: usize) -> MmapCircularBuffer {
    let size = MmapCircularBuffer::total_size(capacity);
    let mmap = MmapMut::map_anon(size).unwrap();
    MmapCircularBuffer::create(mmap, PathBuf::from("ring"), capacity)
}

#[test]
fn test_mmap_circular_buffer() {
    let mut buffer = ring_of(10);

    // Test writing and reading
    let write_data = b"hello";
    let written = buffer.write(write_data).unwrap();
    assert_eq!(written, 5);

    let mut read_buffer = [0u8; 10];
    let read = buffer.read(&mut read_buffer).unwrap();
    assert_eq!(read, 5);
    assert_eq!(&read_buffer[..5], b"hello");

    // Test wrap-around
    let write_data2 = b"worldtest";
    let written2 = buffer.write(write_data2).unwrap();
    assert_eq!(written2, 9);

    let read2 = buffer.read(&mut read_buffer).unwrap();
    assert_eq!(read2, 9);
    assert_eq!(&read_buffer[..9], b"worldtest");
}

#[test]
fn test_thread_safe_mmap() {
    let mmap = RwLock::new(MmapMut::map_anon(1024).unwrap());

    // Test concurrent access
    {
        let mut lock = mmap.write();
        let mut write_guard = ThreadSafeMmapWriteGuard::new(&mut lock);
        let test_data = b"thread-safe test";
        write_guard.write_at(0, test_data).unwrap();
    }

    {
        let lock = mmap.read();
        let read_guard = ThreadSafeMmapReadGuard::new(&lock);
        let bytes = read_guard.as_bytes();
        assert_eq!(&bytes[..16], b"thread-safe test");
    }
}

#[test]
fn test_mmap_writer() {
    let test_data = b"Hello, memory-mapped world!";
    let mmap = MmapMut::map_anon(test_data.len()).unwrap();
    let mut writer = MmapWriter::open(mmap, PathBuf::from("out"));
    writer.write_at(0, test_data).unwrap();
    assert_eq!(writer.mapping().as_ref(), test_data);
}

#[test]
fn mmap_open_and_read() {
    let path = PathBuf::from("sample.txt");
    let mm = MappedFile::open_readonly(map_of(b"abcdef\n12345"), 12, path);
    assert_eq!(mm.len(), 12);
    assert_eq!(&mm.as_bytes()[..6], b"abcdef");

    let platform = Platform::Unix;
    assert!(matches!(mm.advise_sequential(platform), PageHint::Sequential));
    assert!(matches!(mm.will_need_range(platform, 0, 6), PageHint::WillNeed(0, 6)));
    assert!(matches!(mm.prefetch_range(platform, 6, 6), PageHint::WillNeed(6, 6)));
    assert!(matches!(mm.dont_need_range(platform, 0, 6), PageHint::DontNeed(0, 6)));
    assert!(matches!(mm.advise_random(platform), PageHint::Random));
}

#[test]
fn hints_are_cut_at_the_end_of_the_file() {
    let mm = MappedFile::open_readonly(map_of(b"abcdef"), 6, PathBuf::from("f"));
    assert!(!mm.is_empty());
    assert_eq!(mm.path(), &PathBuf::from("f"));
    assert!(matches!(mm.will_need_range(Platform::Unix, 4, 100), PageHint::WillNeed(4, 2)));
    assert!(matches!(mm.will_need_range(Platform::Unix, 6, 1), PageHint::Nothing));
    assert!(matches!(mm.will_need_range(Platform::Unix, 0, 0), PageHint::Nothing));
    assert!(matches!(
        mm.will_need_range(Platform::Unix, usize::MAX, usize::MAX),
        PageHint::Nothing
    ));
    assert!(matches!(mm.prefetch_range(Platform::Windows, 1, 2), PageHint::Prefetch(1, 2)));
    assert!(matches!(mm.dont_need_range(Platform::Windows, 1, 2), PageHint::Nothing));
    assert_eq!(mm.dont_need_range(Platform::Unix, 5, 9), PageHint::DontNeed(5, 1));
    assert!(matches!(mm.advise_sequential(Platform::Windows), PageHint::Nothing));
    assert!(matches!(mm.advise_random(Platform::Windows), PageHint::Nothing));
}

#[test]
fn a_clamped_range_lies_in_the_file() {
    assert_eq!(clamp_range(5, 2, 10), (2, 5));
    assert_eq!(clamp_range(5, 8, 10), (8, 2));
    assert_eq!(clamp_range(5, 12, 10), (10, 0));
    assert_eq!(clamp_range(5, 2, 0), (0, 0));
    assert_eq!(clamp_range(usize::MAX, 3, 10), (3, 7));
    assert_eq!(clamp_range(7, 3, 10), (3, 7));
}

#[test]
fn a_reader_gives_the_mapped_bytes() {
    let reader = MmapReader::open(map_of(b"0123456789"), PathBuf::from("in"));
    assert_eq!(reader.len(), 10);
    assert!(!reader.is_empty());
    assert_eq!(reader.as_bytes(), b"0123456789");
    assert_eq!(reader.slice(3, 4).unwrap(), b"3456");
    assert_eq!(reader.slice(10, 0).unwrap(), b"");
    assert_eq!(
        reader.slice(8, 3),
        Err(ZeroCopyError::Buffer("Slice bounds out of range: 8..11 > 10".to_string()))
    );
    assert_eq!(reader.path(), &PathBuf::from("in"));
    assert_eq!(reader.mapping().len(), 10);
}

#[test]
fn archived_data_is_handed_on_or_refused() {
    let reader = MmapReader::open(map_of(b"x"), PathBuf::from("in"));
    let good: Result<u32, &str> = Ok(42);
    assert_eq!(reader.access_archived(good), Ok(42));
    let bad: Result<u32, &str> = Err("misaligned");
    assert_eq!(
        reader.access_archived(bad),
        Err(ZeroCopyError::ArchiveAccess("Failed to access archived data".to_string()))
    );
    let mmap = MmapMut::map_anon(1).unwrap();
    let guard = ThreadSafeMmapReadGuard::new(&mmap);
    assert_eq!(guard.access_archived::<u32, &str>(Ok(7)), Ok(7));
}

#[test]
fn a_refused_write_changes_nothing() {
    let mut writer = MmapWriter::open(MmapMut::map_anon(4).unwrap(), PathBuf::from("out"));
    assert!(!writer.is_empty());
    writer.write_at(1, b"ab").unwrap();
    assert_eq!(writer.mapping().as_ref(), b"\0ab\0");
    assert_eq!(
        writer.write_at(3, b"xy"),
        Err(ZeroCopyError::Buffer("Write bounds out of range: 3..5 > 4".to_string()))
    );
    assert_eq!(writer.mapping().as_ref(), b"\0ab\0");
    writer.as_mut_bytes()[0] = b'z';
    assert_eq!(writer.mapping().as_ref(), b"zab\0");
    assert_eq!(writer.path(), &PathBuf::from("out"));
    writer.resize(MmapMut::map_anon(9).unwrap());
    assert_eq!(writer.len(), 9);
}

#[test]
fn a_write_guard_writes_through() {
    let mut mmap = MmapMut::map_anon(3).unwrap();
    let mut guard = ThreadSafeMmapWriteGuard::new(&mut mmap);
    guard.as_mut_bytes()[2] = 9;
    assert_eq!(
        guard.write_at(2, b"ab"),
        Err(ZeroCopyError::Buffer("Write bounds out of range: 2..4 > 3".to_string()))
    );
    assert_eq!(mmap.as_ref(), &[0, 0, 9]);
}

#[test]
fn a_ring_counts_what_waits() {
    let mut ring = ring_of(8);
    assert_eq!(ring.available(), 0);
    assert_eq!(ring.space_available(), 8);
    assert_eq!(ring.write(b"abcde").unwrap(), 5);
    assert_eq!(ring.available(), 5);
    assert_eq!(ring.space_available(), 3);
    let mut two = [0u8; 2];
    assert_eq!(ring.read(&mut two).unwrap(), 2);
    assert_eq!(&two, b"ab");
    assert_eq!(ring.write(b"fgh").unwrap(), 3);
    assert_eq!(ring.available(), 6);
    let mut all = [0u8; 8];
    assert_eq!(ring.read(&mut all).unwrap(), 6);
    assert_eq!(&all[..6], b"cdefgh");
    assert_eq!(ring.available(), 0);
}

#[test]
fn a_full_ring_keeps_its_bytes() {
    let mut ring = ring_of(4);
    assert_eq!(ring.write(b"abcd").unwrap(), 4);
    assert_eq!(ring.available(), 4);
    assert_eq!(ring.space_available(), 0);
    assert!(ring.write(b"e").is_err());
    assert_eq!(ring.write(b"").unwrap(), 0);
    let mut two = [0u8; 2];
    assert_eq!(ring.read(&mut two).unwrap(), 2);
    assert_eq!(&two, b"ab");
    assert_eq!(ring.write(b"ef").unwrap(), 2);
    assert_eq!(ring.space_available(), 0);
    let mut all = [0u8; 9];
    assert_eq!(ring.read(&mut all).unwrap(), 4);
    assert_eq!(&all[..4], b"cdef");
    assert_eq!(ring.available(), 0);
    assert_eq!(ring.space_available(), 4);
}

#[test]
fn a_ring_refuses_what_does_not_fit() {
    let mut ring = ring_of(4);
    assert_eq!(
        ring.write(b"abcde"),
        Err(ZeroCopyError::Buffer("Insufficient space in circular buffer".to_string()))
    );
    assert_eq!(ring.available(), 0);
    ring.write(b"abc").unwrap();
    assert!(ring.write(b"de").is_err());
    assert_eq!(ring.available(), 3);
}

#[test]
fn a_mapping_must_have_the_right_size() {
    let size = MmapCircularBuffer::total_size(10);
    let anon = |n: usize| MmapMut::map_anon(n).unwrap();
    let path = || PathBuf::from("ring");
    assert!(MmapCircularBuffer::create_in(anon(size), path(), 10).is_some());
    assert!(MmapCircularBuffer::create_in(anon(size + 1), path(), 10).is_none());
    assert!(MmapCircularBuffer::create_in(anon(3), path(), 0).is_none());
    let file = |len: usize| MappedFile::open_checked(map_of(b"abc"), len, PathBuf::from("f"));
    assert_eq!(file(3).unwrap().len(), 3);
    assert_eq!(file(0).unwrap().len(), 0);
    assert!(file(4).is_none());
}

#[test]
fn equal_bytes_are_told_apart_by_place() {
    let mm = MappedFile::open_readonly(map_of(b"aaaaaa"), 6, PathBuf::from("f"));
    assert_eq!(mm.will_need_range(Platform::Unix, 0, 2), PageHint::WillNeed(0, 2));
    assert_eq!(mm.will_need_range(Platform::Unix, 3, 2), PageHint::WillNeed(3, 2));
}
