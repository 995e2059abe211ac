//! The access layer driven against an engine that lives in memory.

use std::collections::HashMap;

use stormlib::archive::{Archive, OpenMode};
use stormlib::encoding::{EncodedPath, HostPath};
use stormlib::engine::{
    flag_reply, handle_reply, position_reply, read_reply, size_reply, AddFile, CreateArchive,
    CreateFile, FinishFile, GetFileSize, HasFile, OpenArchive, OpenFile, ReadFile, RemoveFile,
    SetFilePointer, WriteFile, MPQ_COMPRESSION_NEXT_SAME, MPQ_COMPRESSION_ZLIB, MPQ_FILE_COMPRESS,
    MPQ_FILE_ENCRYPTED, MPQ_FILE_REPLACEEXISTING, MPQ_OPEN_NO_ATTRIBUTES, MPQ_OPEN_NO_FLAG,
    MPQ_OPEN_NO_LISTFILE, MPQ_OPEN_READ_ONLY,
};
use stormlib::error::{ErrorCode, StormError};
use stormlib::file::{File, ReadStep, SizeStep};

const NOT_FOUND: u32 = 2;
const ACCESS_DENIED: u32 = 1;
const INVALID_HANDLE: u32 = 9;
const DISK_FULL: u32 = 28;
const ALREADY_EXISTS: u32 = 17;

struct Stored {
    entries: HashMap<Vec<u8>, Vec<u8>>,
    max_files: u32,
}

struct OpenEntry {
    content: Vec<u8>,
    cursor: usize,
}

struct Pending {
    archive: usize,
    name: Vec<u8>,
    size: u32,
    written: Vec<u8>,
}

/// An engine in memory. It answers in the native idiom: a flag or a value,
/// and the reason of the last failure in a slot of its own.
struct Engine {
    disk: HashMap<Vec<u8>, Stored>,
    sources: HashMap<Vec<u8>, Vec<u8>>,
    archives: HashMap<usize, (Vec<u8>, bool)>,
    entries: HashMap<usize, OpenEntry>,
    pending: HashMap<usize, Pending>,
    next_handle: usize,
    last_error: u32,
    size_queries: usize,
    rewinds: usize,
    reads: usize,
    short_reads: Option<u32>,
    fail_rewind: bool,
    fail_write: bool,
    fail_finish: bool,
}

fn narrow(path: &EncodedPath) -> Vec<u8> {
    match path {
        EncodedPath::Narrow(bytes) => bytes.clone(),
        EncodedPath::Wide(units) => units.iter().flat_map(|unit| unit.to_le_bytes()).collect(),
    }
}

impl Engine {
    fn new() -> Engine {
        Engine {
            disk: HashMap::new(),
            sources: HashMap::new(),
            archives: HashMap::new(),
            entries: HashMap::new(),
            pending: HashMap::new(),
            next_handle: 0x1000,
            last_error: 0,
            size_queries: 0,
            rewinds: 0,
            reads: 0,
            short_reads: None,
            fail_rewind: false,
            fail_write: false,
            fail_finish: false,
        }
    }

    fn fresh_handle(&mut self) -> usize {
        self.next_handle += 8;
        self.next_handle
    }

    fn fail(&mut self, code: u32) -> bool {
        self.last_error = code;
        false
    }

    fn open_archive(&mut self, request: &OpenArchive) -> (bool, usize) {
        let path = narrow(&request.path);
        if !self.disk.contains_key(&path) {
            return (self.fail(NOT_FOUND), 0);
        }
        let handle = self.fresh_handle();
        self.archives.insert(handle, (path, request.flags & MPQ_OPEN_READ_ONLY != 0));
        (true, handle)
    }

    fn create_archive(&mut self, request: &CreateArchive) -> (bool, usize) {
        let path = narrow(&request.path);
        if self.disk.contains_key(&path) {
            return (self.fail(ALREADY_EXISTS), 0);
        }
        self.disk.insert(
            path.clone(),
            Stored { entries: HashMap::new(), max_files: request.config.max_entries },
        );
        let handle = self.fresh_handle();
        self.archives.insert(handle, (path, false));
        (true, handle)
    }

    fn close_archive(&mut self, archive: usize) -> bool {
        self.archives.remove(&archive).is_some()
    }

    fn stored(&mut self, archive: usize) -> Option<&mut Stored> {
        let path = self.archives.get(&archive)?.0.clone();
        self.disk.get_mut(&path)
    }

    fn has_file(&mut self, request: &HasFile) -> bool {
        let present = match self.stored(request.archive) {
            Some(stored) => stored.entries.contains_key(&request.name),
            None => return self.fail(INVALID_HANDLE),
        };
        if present {
            true
        } else {
            self.fail(NOT_FOUND)
        }
    }

    fn open_file(&mut self, request: &OpenFile) -> (bool, usize) {
        let content = match self.stored(request.archive) {
            Some(stored) => stored.entries.get(&request.name).cloned(),
            None => return (self.fail(INVALID_HANDLE), 0),
        };
        match content {
            Some(content) => {
                let handle = self.fresh_handle();
                self.entries.insert(handle, OpenEntry { content, cursor: 0 });
                (true, handle)
            }
            None => (self.fail(NOT_FOUND), 0),
        }
    }

    fn create_file(&mut self, request: &CreateFile) -> (bool, usize) {
        let read_only = match self.archives.get(&request.archive) {
            Some(open) => open.1,
            None => return (self.fail(INVALID_HANDLE), 0),
        };
        if read_only {
            return (self.fail(ACCESS_DENIED), 0);
        }
        let replace = request.flags & MPQ_FILE_REPLACEEXISTING != 0;
        let stored = self.stored(request.archive).unwrap();
        let present = stored.entries.contains_key(&request.name);
        if present && !replace {
            return (self.fail(ALREADY_EXISTS), 0);
        }
        if !present && stored.entries.len() as u32 >= stored.max_files {
            return (self.fail(DISK_FULL), 0);
        }
        let handle = self.fresh_handle();
        self.pending.insert(
            handle,
            Pending {
                archive: request.archive,
                name: request.name.clone(),
                size: request.size,
                written: Vec::new(),
            },
        );
        (true, handle)
    }

    fn write_file(&mut self, request: &WriteFile) -> bool {
        if self.fail_write {
            return self.fail(DISK_FULL);
        }
        match self.pending.get_mut(&request.file) {
            Some(pending) => {
                pending.written.extend_from_slice(&request.data[..request.size as usize]);
                true
            }
            None => self.fail(INVALID_HANDLE),
        }
    }

    fn finish_file(&mut self, request: &FinishFile) -> bool {
        if self.fail_finish {
            return self.fail(DISK_FULL);
        }
        let pending = match self.pending.remove(&request.file) {
            Some(pending) => pending,
            None => return self.fail(INVALID_HANDLE),
        };
        assert_eq!(pending.written.len(), pending.size as usize);
        let stored = self.stored(pending.archive).unwrap();
        stored.entries.insert(pending.name, pending.written);
        true
    }

    fn remove_file(&mut self, request: &RemoveFile) -> bool {
        let removed = match self.stored(request.archive) {
            Some(stored) => stored.entries.remove(&request.name).is_some(),
            None => return self.fail(INVALID_HANDLE),
        };
        if removed {
            true
        } else {
            self.fail(NOT_FOUND)
        }
    }

    fn add_file(&mut self, request: &AddFile) -> bool {
        assert_eq!(request.flags, MPQ_FILE_COMPRESS | MPQ_FILE_ENCRYPTED);
        assert_eq!(request.compression, MPQ_COMPRESSION_ZLIB);
        assert_eq!(request.compression_next, MPQ_COMPRESSION_NEXT_SAME);
        let content = match self.sources.get(&narrow(&request.source)) {
            Some(content) => content.clone(),
            None => return self.fail(NOT_FOUND),
        };
        let stored = match self.stored(request.archive) {
            Some(stored) => stored,
            None => return self.fail(INVALID_HANDLE),
        };
        if stored.entries.contains_key(&request.name) {
            return self.fail(ALREADY_EXISTS);
        }
        if stored.entries.len() as u32 >= stored.max_files {
            return self.fail(DISK_FULL);
        }
        stored.entries.insert(request.name.clone(), content);
        true
    }

    fn get_max_files(&mut self, archive: usize) -> u32 {
        self.stored(archive).map(|stored| stored.max_files).unwrap_or(0)
    }

    fn set_max_files(&mut self, archive: usize, count: u32) -> bool {
        match self.stored(archive) {
            Some(stored) => {
                if (stored.entries.len() as u32) > count {
                    return self.fail(DISK_FULL);
                }
                stored.max_files = count;
                true
            }
            None => self.fail(INVALID_HANDLE),
        }
    }

    fn get_file_size(&mut self, request: &GetFileSize) -> (u32, u32) {
        self.size_queries += 1;
        match self.entries.get(&request.file) {
            Some(entry) => {
                let len = entry.content.len() as u64;
                (len as u32, (len >> 32) as u32)
            }
            None => {
                self.fail(INVALID_HANDLE);
                (0xFFFF_FFFF, 0)
            }
        }
    }

    fn set_file_pointer(&mut self, request: &SetFilePointer) -> u32 {
        self.rewinds += 1;
        if self.fail_rewind {
            self.fail(INVALID_HANDLE);
            return 0xFFFF_FFFF;
        }
        match self.entries.get_mut(&request.file) {
            Some(entry) => {
                entry.cursor = request.position as usize;
                request.position as u32
            }
            None => {
                self.fail(INVALID_HANDLE);
                0xFFFF_FFFF
            }
        }
    }

    fn read_file(&mut self, request: &ReadFile, buffer: &mut Vec<u8>) -> (bool, u32) {
        self.reads += 1;
        let limit = self.short_reads;
        let entry = match self.entries.get_mut(&request.file) {
            Some(entry) => entry,
            None => return (self.fail(INVALID_HANDLE), 0),
        };
        let left = entry.content.len().saturating_sub(entry.cursor);
        let mut count = left.min(request.len as usize).min(buffer.len());
        if let Some(limit) = limit {
            count = count.min(limit as usize);
        }
        buffer[..count].copy_from_slice(&entry.content[entry.cursor..entry.cursor + count]);
        entry.cursor += count;
        (true, count as u32)
    }

    fn close_file(&mut self, file: usize) -> bool {
        self.entries.remove(&file).is_some()
    }
}

fn open(engine: &mut Engine, path: &str, flags: u32) -> Result<Archive, StormError> {
    let request = Archive::open(HostPath::Narrow(path.as_bytes()), flags)?;
    let (succeeded, handle) = engine.open_archive(&request);
    request.finish(handle_reply(succeeded, handle, engine.last_error))
}

fn create(engine: &mut Engine, path: &str, hint: usize, filelist: bool) -> Result<Archive, StormError> {
    let request = Archive::create(HostPath::Narrow(path.as_bytes()), hint, filelist)?;
    let (succeeded, handle) = engine.create_archive(&request);
    request.finish(handle_reply(succeeded, handle, engine.last_error))
}

fn close(engine: &mut Engine, archive: Archive) {
    let request = archive.close();
    assert!(engine.close_archive(request.archive));
}

fn has_file(engine: &mut Engine, archive: &mut Archive, name: &str) -> Result<bool, StormError> {
    let request = archive.has_file(name)?;
    let succeeded = engine.has_file(&request);
    request.finish(flag_reply(succeeded, engine.last_error))
}

fn remove_file(engine: &mut Engine, archive: &mut Archive, name: &str) -> Result<bool, StormError> {
    let request = archive.remove_file(name)?;
    let succeeded = engine.remove_file(&request);
    request.finish(flag_reply(succeeded, engine.last_error))
}

fn write_file(
    engine: &mut Engine,
    archive: &Archive,
    name: &str,
    data: &[u8],
) -> Result<(), StormError> {
    let create = archive.write_file(name, data)?;
    let (succeeded, handle) = engine.create_file(&create);
    let write = create.finish(handle_reply(succeeded, handle, engine.last_error))?;
    let succeeded = engine.write_file(&write);
    let finish = write.finish(flag_reply(succeeded, engine.last_error))?;
    let succeeded = engine.finish_file(&finish);
    finish.finish(flag_reply(succeeded, engine.last_error))
}

fn add_file(
    engine: &mut Engine,
    archive: &mut Archive,
    name: &str,
    source: &str,
) -> Result<(), StormError> {
    let replace = archive.add_file(name, HostPath::Narrow(source.as_bytes()))?;
    let succeeded = engine.remove_file(&replace.remove);
    let add = replace.removed(flag_reply(succeeded, engine.last_error))?;
    let succeeded = engine.add_file(&add);
    add.finish(flag_reply(succeeded, engine.last_error))
}

fn open_file<'a>(
    engine: &mut Engine,
    archive: &'a mut Archive,
    name: &str,
) -> Result<File<'a>, StormError> {
    let request = archive.open_file(name)?;
    let (succeeded, handle) = engine.open_file(&request);
    request.finish(archive, handle_reply(succeeded, handle, engine.last_error))
}

fn get_size(engine: &mut Engine, file: &mut File) -> Result<u64, StormError> {
    match file.get_size() {
        SizeStep::Known(size) => Ok(size),
        SizeStep::Query(request) => {
            let (low, high) = engine.get_file_size(&request);
            file.size_received(size_reply(low, high, engine.last_error))
        }
    }
}

fn read_all(engine: &mut Engine, file: &mut File) -> Result<Vec<u8>, StormError> {
    let mut step = file.read_all();
    loop {
        step = match step {
            ReadStep::Rewind(request) => {
                let low = engine.set_file_pointer(&request);
                file.after_rewind(position_reply(low, engine.last_error))?
            }
            ReadStep::QuerySize(request) => {
                let (low, high) = engine.get_file_size(&request);
                file.after_size(size_reply(low, high, engine.last_error))?
            }
            ReadStep::Read(request) => {
                let mut buffer = request.buffer();
                let (succeeded, transferred) = engine.read_file(&request, &mut buffer);
                return request
                    .finish(read_reply(succeeded, buffer, transferred, engine.last_error));
            }
        };
    }
}

fn close_file(engine: &mut Engine, file: File) {
    let request = file.close();
    assert!(engine.close_file(request.file));
}

fn with_entry(engine: &mut Engine, path: &str, name: &str, content: &[u8]) -> Archive {
    let archive = create(engine, path, 16, false).unwrap();
    assert_eq!(write_file(engine, &archive, name, content), Ok(()));
    archive
}

fn round_trip(payload: &[u8]) {
    let mut engine = Engine::new();
    let mut archive = with_entry(&mut engine, "round.mpq", "payload.bin", payload);
    let mut file = open_file(&mut engine, &mut archive, "payload.bin").unwrap();
    assert_eq!(read_all(&mut engine, &mut file).unwrap(), payload);
    close_file(&mut engine, file);
    close(&mut engine, archive);
}

#[test]
fn end_to_end_create_write_reopen_read() {
    let mut engine = Engine::new();
    let archive = create(&mut engine, "new.mpq", 10, false).unwrap();
    assert_eq!(archive.open_mode(), OpenMode::Create);
    assert_eq!(write_file(&mut engine, &archive, "a.txt", b"hello"), Ok(()));
    close(&mut engine, archive);

    let mut archive = open(&mut engine, "new.mpq", MPQ_OPEN_READ_ONLY).unwrap();
    assert_eq!(archive.open_mode(), OpenMode::ReadOnly);
    assert_eq!(has_file(&mut engine, &mut archive, "a.txt"), Ok(true));
    let mut file = open_file(&mut engine, &mut archive, "a.txt").unwrap();
    assert_eq!(read_all(&mut engine, &mut file).unwrap(), b"hello");
    close_file(&mut engine, file);
    assert_eq!(has_file(&mut engine, &mut archive, "missing"), Ok(false));
    close(&mut engine, archive);
}

#[test]
fn created_container_has_the_requested_shape() {
    let request = Archive::create(HostPath::Narrow(b"new.mpq"), 10, false).unwrap();
    assert_eq!(request.path, EncodedPath::Narrow(b"new.mpq\0".to_vec()));
    assert_eq!(request.config.version, 0);
    assert_eq!(request.config.sector_size, 0x1000);
    assert_eq!(request.config.raw_chunk_size, 0);
    assert_eq!(request.config.file_flags1, 0);
    assert_eq!(request.config.file_flags2, 0);
    assert_eq!(request.config.file_flags3, 0);
    assert_eq!(request.config.attr_flags, 0);
    assert_eq!(request.config.max_entries, 10);

    let listed = Archive::create(HostPath::Narrow(b"new.mpq"), 3, true).unwrap();
    assert_eq!(listed.config.file_flags1, 0xFFFF_FFFF);
    assert_eq!(listed.config.max_entries, 3);
}

#[test]
fn round_trip_empty_payload() {
    round_trip(b"");
}

#[test]
fn round_trip_one_byte_payload() {
    round_trip(b"x");
}

#[test]
fn round_trip_payload_beyond_64_kib() {
    let payload: Vec<u8> = (0..70_000u32).map(|i| (i % 251) as u8).collect();
    assert!(payload.len() > 64 * 1024);
    round_trip(&payload);
}

#[test]
fn test_read() {
    let script: Vec<u8> = (0..14115u32).map(|i| (i % 97) as u8 + 32).collect();
    let mut engine = Engine::new();
    let archive = with_entry(&mut engine, "test_tft.w3x", "war3map.j", &script);
    close(&mut engine, archive);

    let mut archive =
        open(&mut engine, "test_tft.w3x", MPQ_OPEN_NO_LISTFILE | MPQ_OPEN_NO_ATTRIBUTES).unwrap();
    assert_eq!(has_file(&mut engine, &mut archive, "invalid").unwrap(), false);
    assert_eq!(has_file(&mut engine, &mut archive, "war3map.j").unwrap(), true);
    let mut f = open_file(&mut engine, &mut archive, "war3map.j").unwrap();
    assert_eq!(get_size(&mut engine, &mut f).unwrap(), 14115);
    assert_eq!(read_all(&mut engine, &mut f).unwrap(), script);
}

#[test]
fn test_read_unicode() {
    let script: Vec<u8> = (0..14115u32).map(|i| (i % 89) as u8 + 32).collect();
    let wide: Vec<u16> = "../../samples/中文.w3x".encode_utf16().collect();
    let mut engine = Engine::new();
    let request = Archive::create(HostPath::Wide(&wide), 4, false).unwrap();
    let mut expected = wide.clone();
    expected.push(0);
    assert_eq!(request.path, EncodedPath::Wide(expected));
    let (succeeded, handle) = engine.create_archive(&request);
    let archive = request.finish(handle_reply(succeeded, handle, engine.last_error)).unwrap();
    assert_eq!(write_file(&mut engine, &archive, "war3map.j", &script), Ok(()));
    close(&mut engine, archive);

    let request =
        Archive::open(HostPath::Wide(&wide), MPQ_OPEN_NO_LISTFILE | MPQ_OPEN_NO_ATTRIBUTES).unwrap();
    let (succeeded, handle) = engine.open_archive(&request);
    let mut archive = request.finish(handle_reply(succeeded, handle, engine.last_error)).unwrap();
    let mut f = open_file(&mut engine, &mut archive, "war3map.j").unwrap();
    assert_eq!(read_all(&mut engine, &mut f).unwrap(), script);
}

#[test]
fn test_read_utf8() {
    let script: Vec<u8> = (0..14115u32).map(|i| (i % 83) as u8 + 32).collect();
    let mut engine = Engine::new();
    let archive = with_entry(&mut engine, "../../samples/中文.w3x", "war3map.j", &script);
    close(&mut engine, archive);

    let mut archive =
        open(&mut engine, "../../samples/中文.w3x", MPQ_OPEN_NO_LISTFILE | MPQ_OPEN_NO_ATTRIBUTES).unwrap();
    let mut f = open_file(&mut engine, &mut archive, "war3map.j").unwrap();
    assert_eq!(read_all(&mut engine, &mut f).unwrap(), script);
}

#[test]
fn absent_entry_is_false_for_has_file_and_remove_file() {
    let mut engine = Engine::new();
    let mut empty = create(&mut engine, "empty.mpq", 4, false).unwrap();
    assert_eq!(has_file(&mut engine, &mut empty, "nothing"), Ok(false));
    assert_eq!(remove_file(&mut engine, &mut empty, "nothing"), Ok(false));

    let mut full = with_entry(&mut engine, "full.mpq", "here", b"content");
    assert_eq!(has_file(&mut engine, &mut full, "nothing"), Ok(false));
    assert_eq!(remove_file(&mut engine, &mut full, "nothing"), Ok(false));
    assert_eq!(has_file(&mut engine, &mut full, "here"), Ok(true));
}

#[test]
fn remove_file_removes_once() {
    let mut engine = Engine::new();
    let mut archive = with_entry(&mut engine, "a.mpq", "gone", b"soon");
    assert_eq!(remove_file(&mut engine, &mut archive, "gone"), Ok(true));
    assert_eq!(has_file(&mut engine, &mut archive, "gone"), Ok(false));
    assert_eq!(remove_file(&mut engine, &mut archive, "gone"), Ok(false));
}

#[test]
fn other_failures_of_has_file_and_remove_file_are_errors() {
    let request = HasFile { archive: 1, name: b"x\0".to_vec() };
    assert_eq!(request.finish(Err(ErrorCode(ACCESS_DENIED))), Err(StormError::AccessDenied));
    assert_eq!(request.finish(Err(ErrorCode(NOT_FOUND))), Ok(false));
    assert_eq!(request.finish(Ok(())), Ok(true));
    let request = RemoveFile { archive: 1, name: b"x\0".to_vec() };
    assert_eq!(request.finish(Err(ErrorCode(1004))), Err(StormError::FileCorrupt));
    assert_eq!(request.finish(Err(ErrorCode(NOT_FOUND))), Ok(false));
    assert_eq!(request.finish(Ok(())), Ok(true));
}

#[test]
fn read_all_twice_returns_the_same_bytes() {
    let mut engine = Engine::new();
    let mut archive = with_entry(&mut engine, "a.mpq", "twice", b"read me twice");
    let mut file = open_file(&mut engine, &mut archive, "twice").unwrap();
    let first = read_all(&mut engine, &mut file).unwrap();
    assert_eq!(engine.rewinds, 0);
    let second = read_all(&mut engine, &mut file).unwrap();
    assert_eq!(first, b"read me twice");
    assert_eq!(second, first);
    assert_eq!(engine.rewinds, 1);
    assert_eq!(engine.reads, 2);
    let third = read_all(&mut engine, &mut file).unwrap();
    assert_eq!(third, first);
    assert_eq!(engine.rewinds, 2);
    assert_eq!(engine.size_queries, 1);
}

#[test]
fn first_read_does_not_rewind_and_later_reads_do() {
    let mut engine = Engine::new();
    let mut archive = with_entry(&mut engine, "a.mpq", "e", b"abc");
    let mut file = open_file(&mut engine, &mut archive, "e").unwrap();
    let handle = file.as_raw();
    assert_eq!(file.read_all(), ReadStep::QuerySize(GetFileSize { file: handle }));
    assert_eq!(
        file.after_size(Ok((3, 0))),
        Ok(ReadStep::Read(ReadFile { file: handle, len: 3, size: 3 }))
    );
    assert_eq!(
        file.read_all(),
        ReadStep::Rewind(SetFilePointer { file: handle, position: 0 })
    );
    assert_eq!(
        file.after_rewind(Ok(())),
        Ok(ReadStep::Read(ReadFile { file: handle, len: 3, size: 3 }))
    );
}

#[test]
fn get_size_twice_asks_the_engine_once() {
    let mut engine = Engine::new();
    let mut archive = with_entry(&mut engine, "a.mpq", "sized", &[7u8; 300]);
    let mut file = open_file(&mut engine, &mut archive, "sized").unwrap();
    assert_eq!(engine.size_queries, 0);
    assert_eq!(get_size(&mut engine, &mut file), Ok(300));
    assert_eq!(engine.size_queries, 1);
    assert_eq!(get_size(&mut engine, &mut file), Ok(300));
    assert_eq!(engine.size_queries, 1);
    assert_eq!(file.get_size(), SizeStep::Known(300));
    assert_eq!(read_all(&mut engine, &mut file).unwrap().len(), 300);
    assert_eq!(engine.size_queries, 1);
}

#[test]
fn size_is_the_high_half_above_the_low_half() {
    let mut engine = Engine::new();
    let mut archive = with_entry(&mut engine, "a.mpq", "big", b"");
    let mut file = open_file(&mut engine, &mut archive, "big").unwrap();
    assert_eq!(file.size_received(Ok((5, 2))), Ok((2u64 << 32) | 5));
    assert_eq!(file.size_received(Ok((1, 1))), Ok(0x2_0000_0005));
    assert_eq!(file.size_received(Err(ErrorCode(NOT_FOUND))), Ok(0x2_0000_0005));
    assert_eq!(
        file.read_all(),
        ReadStep::Read(ReadFile { file: file.as_raw(), len: 5, size: 0x2_0000_0005 })
    );
}

#[test]
fn failed_size_query_is_an_error_and_is_asked_again() {
    let mut engine = Engine::new();
    let mut archive = with_entry(&mut engine, "a.mpq", "e", b"abc");
    let mut file = open_file(&mut engine, &mut archive, "e").unwrap();
    assert_eq!(
        file.size_received(size_reply(0xFFFF_FFFF, 0, 1002)),
        Err(StormError::HandleEof)
    );
    assert_eq!(file.get_size(), SizeStep::Query(GetFileSize { file: file.as_raw() }));
    assert_eq!(file.after_size(Err(ErrorCode(9))), Err(StormError::InvalidHandle));
    assert_eq!(get_size(&mut engine, &mut file), Ok(3));
}

#[test]
fn short_read_is_cut_to_what_arrived() {
    let mut engine = Engine::new();
    let mut archive = with_entry(&mut engine, "a.mpq", "e", b"0123456789");
    let mut file = open_file(&mut engine, &mut archive, "e").unwrap();
    engine.short_reads = Some(4);
    assert_eq!(read_all(&mut engine, &mut file).unwrap(), b"0123");
    engine.short_reads = None;
    assert_eq!(read_all(&mut engine, &mut file).unwrap(), b"0123456789");
}

#[test]
fn read_buffer_is_as_long_as_the_entry_and_zeroed() {
    assert_eq!(ReadFile { file: 8, len: 5, size: 5 }.buffer(), vec![0u8; 5]);
    assert_eq!(ReadFile { file: 8, len: 0, size: 0 }.buffer(), Vec::<u8>::new());
    assert_eq!(ReadFile { file: 8, len: 70_000, size: 70_000 }.buffer(), vec![0u8; 70_000]);
}

#[test]
fn read_result_follows_the_count_of_the_engine() {
    let request = ReadFile { file: 8, len: 5, size: 5 };
    assert_eq!(request.finish(Ok((b"abcde".to_vec(), 5))), Ok(b"abcde".to_vec()));
    assert_eq!(request.finish(Ok((b"abc\0\0".to_vec(), 3))), Ok(b"abc".to_vec()));
    assert_eq!(request.finish(Ok((b"\0\0\0\0\0".to_vec(), 0))), Ok(Vec::new()));
    assert_eq!(request.finish(Ok((b"ab".to_vec(), 4))), Ok(b"ab".to_vec()));
    assert_eq!(request.finish(Err(ErrorCode(1002))), Err(StormError::HandleEof));
    assert_eq!(request.finish(read_reply(false, Vec::new(), 0, 1004)), Err(StormError::FileCorrupt));
}

#[test]
fn failed_rewind_is_an_error() {
    let mut engine = Engine::new();
    let mut archive = with_entry(&mut engine, "a.mpq", "e", b"abc");
    let mut file = open_file(&mut engine, &mut archive, "e").unwrap();
    assert_eq!(read_all(&mut engine, &mut file).unwrap(), b"abc");
    engine.fail_rewind = true;
    assert_eq!(read_all(&mut engine, &mut file), Err(StormError::InvalidHandle));
    assert_eq!(engine.reads, 1);
    engine.fail_rewind = false;
    assert_eq!(read_all(&mut engine, &mut file).unwrap(), b"abc");
}

#[test]
fn open_missing_container_is_file_not_found() {
    let mut engine = Engine::new();
    assert_eq!(
        open(&mut engine, "nowhere.mpq", MPQ_OPEN_NO_FLAG).err(),
        Some(StormError::FileNotFound)
    );
}

#[test]
fn open_missing_entry_is_file_not_found() {
    let mut engine = Engine::new();
    let mut archive = create(&mut engine, "a.mpq", 4, false).unwrap();
    assert_eq!(
        open_file(&mut engine, &mut archive, "missing").err(),
        Some(StormError::FileNotFound)
    );
}

#[test]
fn entry_is_opened_on_its_own_archive_only() {
    let mut engine = Engine::new();
    let mut first = create(&mut engine, "first.mpq", 4, false).unwrap();
    let mut second = create(&mut engine, "second.mpq", 4, false).unwrap();
    assert_ne!(first.as_raw(), second.as_raw());
    let request = first.open_file("e").unwrap();
    assert_eq!(request.archive, first.as_raw());
    assert_eq!(request.finish(&mut second, Ok(0x40)).err(), Some(StormError::InvalidHandle));
    assert_eq!(
        request.finish(&mut second, Err(ErrorCode(NOT_FOUND))).err(),
        Some(StormError::InvalidHandle)
    );
    assert_eq!(
        request.finish(&mut first, Err(ErrorCode(NOT_FOUND))).err(),
        Some(StormError::FileNotFound)
    );
    let file = request.finish(&mut first, Ok(0x40)).unwrap();
    assert_eq!(file.as_raw(), 0x40);
}

#[test]
fn success_without_a_handle_is_an_invalid_handle() {
    let request = Archive::open(HostPath::Narrow(b"a.mpq"), 0).unwrap();
    assert_eq!(request.flags, 0);
    assert_eq!(request.finish(Ok(0)).err(), Some(StormError::InvalidHandle));
    assert_eq!(request.finish(handle_reply(true, 0, 0)).err(), Some(StormError::InvalidHandle));
    assert_eq!(request.finish(handle_reply(false, 0, 12)).err(), Some(StormError::NotEnoughMemory));
    let archive = request.finish(handle_reply(true, 64, 5)).unwrap();
    assert_eq!(archive.as_raw(), 64);
    assert_eq!(archive.open_mode(), OpenMode::ReadWrite);
}

#[test]
fn names_with_a_zero_byte_are_refused_before_the_engine_is_asked() {
    let mut engine = Engine::new();
    let mut archive = create(&mut engine, "a.mpq", 4, false).unwrap();
    assert_eq!(has_file(&mut engine, &mut archive, "a\0b"), Err(StormError::InteriorNul));
    assert_eq!(remove_file(&mut engine, &mut archive, "a\0b"), Err(StormError::InteriorNul));
    assert_eq!(write_file(&mut engine, &archive, "a\0", b"x"), Err(StormError::InteriorNul));
    assert_eq!(
        open_file(&mut engine, &mut archive, "\0").err(),
        Some(StormError::InteriorNul)
    );
    assert_eq!(
        add_file(&mut engine, &mut archive, "a\0b", "source"),
        Err(StormError::InteriorNul)
    );
}

#[test]
fn paths_are_checked_before_the_engine_is_asked() {
    assert_eq!(
        Archive::open(HostPath::Narrow(b"bad\xff.mpq"), 0).err(),
        Some(StormError::PathEncoding)
    );
    assert_eq!(
        Archive::open(HostPath::Narrow(b"bad\0.mpq"), 0).err(),
        Some(StormError::PathEncoding)
    );
    assert_eq!(
        Archive::create(HostPath::Narrow(b"\xc3\x28"), 1, false).err(),
        Some(StormError::PathEncoding)
    );
    assert_eq!(
        Archive::create(HostPath::Wide(&[0x61, 0, 0x62]), 1, false).err(),
        Some(StormError::PathEncoding)
    );
    assert_eq!(
        Archive::create(HostPath::Narrow(b"a\0b"), 1, false).err(),
        Some(StormError::PathEncoding)
    );
    assert_eq!(
        Archive::open(HostPath::Wide(&[0, 0x62]), 0).err(),
        Some(StormError::PathEncoding)
    );
}

#[test]
fn write_file_announces_size_and_replaces() {
    let mut engine = Engine::new();
    let archive = create(&mut engine, "a.mpq", 4, false).unwrap();
    let request = archive.write_file("dir\\name.txt", b"12345").unwrap();
    assert_eq!(request.archive, archive.as_raw());
    assert_eq!(request.name, b"dir\\name.txt\0");
    assert_eq!(request.size, 5);
    assert_eq!(request.flags, 0x8000_0000);
    assert_eq!(request.payload, b"12345");
    let write = request.finish(Ok(0x40)).unwrap();
    assert_eq!(write, WriteFile { file: 0x40, data: b"12345", size: 5 });
    let finish = write.finish(Ok(())).unwrap();
    assert_eq!(finish, FinishFile { file: 0x40 });
    assert_eq!(finish.finish(Ok(())), Ok(()));
}

#[test]
fn write_file_overwrites_an_entry() {
    let mut engine = Engine::new();
    let mut archive = with_entry(&mut engine, "a.mpq", "e", b"old content");
    assert_eq!(write_file(&mut engine, &archive, "e", b"new"), Ok(()));
    let mut file = open_file(&mut engine, &mut archive, "e").unwrap();
    assert_eq!(read_all(&mut engine, &mut file).unwrap(), b"new");
}

#[test]
fn write_file_beyond_capacity_fails_at_the_first_step() {
    let mut engine = Engine::new();
    let mut archive = create(&mut engine, "a.mpq", 1, false).unwrap();
    assert_eq!(write_file(&mut engine, &archive, "one", b"1"), Ok(()));
    assert_eq!(write_file(&mut engine, &archive, "two", b"2"), Err(StormError::DiskFull));
    assert_eq!(has_file(&mut engine, &mut archive, "two"), Ok(false));
    assert!(engine.pending.is_empty());
}

#[test]
fn write_file_stops_at_the_step_that_fails() {
    let mut engine = Engine::new();
    let mut archive = create(&mut engine, "a.mpq", 4, false).unwrap();
    engine.fail_write = true;
    assert_eq!(write_file(&mut engine, &archive, "e", b"x"), Err(StormError::DiskFull));
    assert_eq!(engine.pending.len(), 1);
    engine.fail_write = false;
    engine.fail_finish = true;
    assert_eq!(write_file(&mut engine, &archive, "f", b"y"), Err(StormError::DiskFull));
    assert_eq!(engine.pending.len(), 2);
    assert_eq!(has_file(&mut engine, &mut archive, "e"), Ok(false));
    assert_eq!(has_file(&mut engine, &mut archive, "f"), Ok(false));

    let request = archive.write_file("g", b"z").unwrap();
    assert_eq!(request.finish(Err(ErrorCode(1))).err(), Some(StormError::AccessDenied));
    assert_eq!(request.finish(Ok(0)).err(), Some(StormError::InvalidHandle));
    let write = WriteFile { file: 8, data: b"z", size: 1 };
    assert_eq!(write.finish(Err(ErrorCode(28))), Err(StormError::DiskFull));
    assert_eq!(FinishFile { file: 8 }.finish(Err(ErrorCode(5))), Err(StormError::UnknownCode(ErrorCode(5))));
}

#[test]
fn write_to_a_read_only_container_is_denied() {
    let mut engine = Engine::new();
    let archive = create(&mut engine, "a.mpq", 4, false).unwrap();
    close(&mut engine, archive);
    let archive = open(&mut engine, "a.mpq", MPQ_OPEN_READ_ONLY).unwrap();
    assert_eq!(write_file(&mut engine, &archive, "e", b"x"), Err(StormError::AccessDenied));
}

#[test]
fn add_file_inserts_and_replaces() {
    let mut engine = Engine::new();
    engine.sources.insert(b"local/one.txt\0".to_vec(), b"first".to_vec());
    engine.sources.insert(b"local/two.txt\0".to_vec(), b"second".to_vec());
    let mut archive = create(&mut engine, "a.mpq", 4, false).unwrap();
    assert_eq!(add_file(&mut engine, &mut archive, "e", "local/one.txt"), Ok(()));
    assert_eq!(add_file(&mut engine, &mut archive, "e", "local/two.txt"), Ok(()));
    let mut file = open_file(&mut engine, &mut archive, "e").unwrap();
    assert_eq!(read_all(&mut engine, &mut file).unwrap(), b"second");
}

#[test]
fn add_file_requests() {
    let mut engine = Engine::new();
    let mut archive = create(&mut engine, "a.mpq", 4, false).unwrap();
    let handle = archive.as_raw();
    let replace = archive.add_file("e", HostPath::Narrow(b"src")).unwrap();
    assert_eq!(replace.remove, RemoveFile { archive: handle, name: b"e\0".to_vec() });
    assert_eq!(
        replace.add,
        AddFile {
            archive: handle,
            source: EncodedPath::Narrow(b"src\0".to_vec()),
            name: b"e\0".to_vec(),
            flags: 0x0001_0200,
            compression: 0x02,
            compression_next: 0xFFFF_FFFF,
        }
    );
    let add = replace.removed(Err(ErrorCode(NOT_FOUND))).unwrap();
    assert_eq!(add.name, b"e\0");
    assert_eq!(add.finish(Ok(())), Ok(()));
    assert_eq!(add.finish(Err(ErrorCode(1004))), Err(StormError::FileCorrupt));

    let replace = archive.add_file("e", HostPath::Narrow(b"src")).unwrap();
    assert_eq!(
        replace.removed(Err(ErrorCode(ACCESS_DENIED))).err(),
        Some(StormError::AccessDenied)
    );
    let replace = archive.add_file("e", HostPath::Narrow(b"src")).unwrap();
    assert!(replace.removed(Ok(())).is_ok());

    assert_eq!(
        archive.add_file("e", HostPath::Narrow(b"s\xffrc")).err(),
        Some(StormError::PathEncoding)
    );
    assert_eq!(
        archive.add_file("e\0", HostPath::Narrow(b"s\xffrc")).err(),
        Some(StormError::PathEncoding)
    );
    assert_eq!(
        archive.add_file("e", HostPath::Narrow(b"s\0rc")).err(),
        Some(StormError::PathEncoding)
    );
    assert_eq!(
        archive.add_file("e\0", HostPath::Narrow(b"src")).err(),
        Some(StormError::InteriorNul)
    );
}

#[test]
fn add_file_of_a_missing_source_fails() {
    let mut engine = Engine::new();
    let mut archive = create(&mut engine, "a.mpq", 4, false).unwrap();
    assert_eq!(
        add_file(&mut engine, &mut archive, "e", "nowhere"),
        Err(StormError::FileNotFound)
    );
}

#[test]
fn capacity_can_be_read_and_changed() {
    let mut engine = Engine::new();
    let mut archive = create(&mut engine, "a.mpq", 2, false).unwrap();
    let request = archive.get_max_files();
    assert_eq!(request.archive, archive.as_raw());
    let count = engine.get_max_files(request.archive);
    assert_eq!(request.finish(count), Ok(2));

    let request = archive.set_max_files(5);
    assert_eq!(request.count, 5);
    let succeeded = engine.set_max_files(request.archive, request.count);
    assert_eq!(request.finish(flag_reply(succeeded, engine.last_error)), Ok(()));
    assert_eq!(engine.get_max_files(archive.as_raw()), 5);
    assert_eq!(request.finish(flag_reply(false, 28)), Err(StormError::DiskFull));
}

#[test]
fn compact_passes_the_outcome_on() {
    let mut engine = Engine::new();
    let mut archive = create(&mut engine, "a.mpq", 2, false).unwrap();
    let request = archive.compact();
    assert_eq!(request.archive, archive.as_raw());
    assert_eq!(request.finish(Ok(())), Ok(()));
    assert_eq!(request.finish(Err(ErrorCode(1))), Err(StormError::AccessDenied));
    assert_eq!(request.finish(Err(ErrorCode(2))), Err(StormError::FileNotFound));
}

#[test]
fn closing_hands_out_the_handle() {
    let mut engine = Engine::new();
    let mut archive = with_entry(&mut engine, "a.mpq", "e", b"abc");
    let raw = archive.as_raw();
    let file = open_file(&mut engine, &mut archive, "e").unwrap();
    let entry = file.as_raw();
    assert_ne!(entry, 0);
    assert_eq!(file.close().file, entry);
    assert_eq!(archive.close().archive, raw);
}

#[test]
fn native_answers_become_result_bearing() {
    assert_eq!(flag_reply(true, 17), Ok(()));
    assert_eq!(flag_reply(false, 17), Err(ErrorCode(17)));
    assert_eq!(handle_reply(true, 8, 17), Ok(8));
    assert_eq!(handle_reply(false, 8, 17), Err(ErrorCode(17)));
    assert_eq!(handle_reply(true, 0, 17), Err(ErrorCode(9)));
    assert_eq!(size_reply(10, 1, 17), Ok((10, 1)));
    assert_eq!(size_reply(0xFFFF_FFFF, 1, 17), Err(ErrorCode(17)));
    assert_eq!(position_reply(0, 17), Ok(()));
    assert_eq!(position_reply(0xFFFF_FFFF, 1002), Err(ErrorCode(1002)));
    assert_eq!(read_reply(true, vec![1, 2], 2, 17), Ok((vec![1, 2], 2)));
    assert_eq!(read_reply(false, vec![1, 2], 2, 17), Err(ErrorCode(17)));
}
