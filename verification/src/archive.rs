//! One open container and the operations on it.
//!
//! Every operation comes in two parts. The method of [`Archive`] checks the
//! caller's input and hands out the request for the engine, and `finish` on
//! that request turns the engine's answer into the operation's result. A
//! caller makes the call in between and nothing else.

use crate::config::{derived, CreationConfig};
use crate::encoding::{encode_name, encode_path, encode_path_spec, HostPath};
use crate::engine::{
    AddFile, CloseArchive, Compact, CreateArchive, CreateFile, FinishFile, GetMaxFiles, HasFile,
    OpenArchive, OpenFile, RemoveFile, SetMaxFiles, WriteFile, MPQ_COMPRESSION_NEXT_SAME,
    MPQ_COMPRESSION_ZLIB, MPQ_FILE_COMPRESS, MPQ_FILE_ENCRYPTED, MPQ_FILE_REPLACEEXISTING,
    MPQ_OPEN_READ_ONLY,
};
use crate::error::{translate, ErrorCode, StormError, ERROR_FILE_NOT_FOUND};
use crate::width::{low_u32, low_u32_of_usize};
use vstd::prelude::*;
use vstd::string::StringSliceAdditionalSpecFns;

verus! {

/// How a container was opened.
#[derive(Debug, Clone, Copy, PartialEq, Eq, Structural)]
pub enum OpenMode {
    ReadOnly,
    ReadWrite,
    Create,
}

/// One open container.
///
/// It owns the engine's handle of the container, which is never null.
/// Giving the archive up with [`Archive::close`] consumes it, so the handle
/// is released once, and an entry opened from the archive borrows it, so the
/// archive cannot be given up while the entry is open.
#[derive(Debug)]
pub struct Archive {
    handle: usize,
    mode: OpenMode,
}

/// What becomes of an answer that should carry a handle: the handle, or the
/// error the operation ends with.
pub open spec fn attached(reply: Result<usize, ErrorCode>) -> Result<usize, StormError> {
    match reply {
        Ok(handle) => if handle == 0 {
            Err(StormError::InvalidHandle)
        } else {
            Ok(handle)
        },
        Err(code) => Err(translate(code.0)),
    }
}

/// What becomes of an answer that carries nothing: every failure is passed
/// on, translated.
pub open spec fn completed(reply: Result<(), ErrorCode>) -> Result<(), StormError> {
    match reply {
        Ok(_) => Ok(()),
        Err(code) => Err(translate(code.0)),
    }
}

/// What becomes of an answer to a question about one entry: that the entry
/// is not there is an answer, not a failure.
pub open spec fn found(reply: Result<(), ErrorCode>) -> Result<bool, StormError> {
    match reply {
        Ok(_) => Ok(true),
        Err(code) => if code.0 == ERROR_FILE_NOT_FOUND {
            Ok(false)
        } else {
            Err(translate(code.0))
        },
    }
}

/// The mode of a container opened with `flags`.
pub open spec fn mode_of(flags: u32) -> OpenMode {
    if flags & MPQ_OPEN_READ_ONLY != 0 {
        OpenMode::ReadOnly
    } else {
        OpenMode::ReadWrite
    }
}

fn attach(reply: Result<usize, ErrorCode>) -> (r: Result<usize, StormError>)
    ensures
        r == attached(reply),
{
    match reply {
        Ok(handle) => if handle == 0 {
            Err(StormError::InvalidHandle)
        } else {
            Ok(handle)
        },
        Err(code) => Err(StormError::from(code)),
    }
}

fn complete(reply: Result<(), ErrorCode>) -> (r: Result<(), StormError>)
    ensures
        r == completed(reply),
{
    match reply {
        Ok(_) => Ok(()),
        Err(code) => Err(StormError::from(code)),
    }
}

fn find(reply: Result<(), ErrorCode>) -> (r: Result<bool, StormError>)
    ensures
        r == found(reply),
{
    match reply {
        Ok(_) => Ok(true),
        Err(code) => if code.0 == ERROR_FILE_NOT_FOUND {
            Ok(false)
        } else {
            Err(StormError::from(code))
        },
    }
}

impl Archive {
    #[verifier::type_invariant]
    spec fn holds_handle(&self) -> bool {
        self.handle != 0
    }

    /// The engine's handle of the container.
    pub closed spec fn handle(&self) -> usize {
        self.handle
    }

    /// How the container was opened.
    pub closed spec fn mode(&self) -> OpenMode {
        self.mode
    }

    /// The engine's handle of the container, which is never null.
    pub fn as_raw(&self) -> (handle: usize)
        ensures
            handle == self.handle(),
            handle != 0,
    {
        proof {
            use_type_invariant(self);
        }
        self.handle
    }

    /// How the container was opened.
    pub fn open_mode(&self) -> (mode: OpenMode)
        ensures
            mode == self.mode(),
    {
        self.mode
    }

    /// Opens an existing container: encodes `path` and asks the engine to
    /// open what is there, with `flags` passed on as they are.
    ///
    /// Fails with `PathEncoding`, before the engine is asked, where the path
    /// cannot be encoded or holds a terminator before its end.
    pub fn open(path: HostPath<'_>, flags: u32) -> (r: Result<OpenArchive, StormError>)
        ensures
            match r {
                Ok(request) => encode_path_spec(path) == Ok::<_, StormError>(request.path@)
                    && request.flags == flags,
                Err(e) => encode_path_spec(path) == Err::<crate::encoding::EncodedPathView, _>(e),
            },
    {
        let path = encode_path(path)?;
        Ok(OpenArchive { path, flags })
    }

    /// Makes a new container at `path` with room for `filecount` entries,
    /// with an internal filelist if `use_filelist` is set: derives the
    /// creation record and asks the engine to make a container of that shape.
    ///
    /// The record is the one derived from no creation flags at all, so the
    /// container is of the first format version and has neither attributes
    /// nor a signature. The engine counts entries in 32 bits: of a larger
    /// `filecount` the low 32 bits are asked for.
    ///
    /// Fails with `PathEncoding`, before the engine is asked, where the path
    /// cannot be encoded or holds a terminator before its end.
    pub fn create(path: HostPath<'_>, filecount: usize, use_filelist: bool) -> (r: Result<
        CreateArchive,
        StormError,
    >)
        ensures
            match r {
                Ok(request) => encode_path_spec(path) == Ok::<_, StormError>(request.path@)
                    && request.config == derived(0, low_u32(filecount as int), use_filelist),
                Err(e) => encode_path_spec(path) == Err::<crate::encoding::EncodedPathView, _>(e),
            },
    {
        let path = encode_path(path)?;
        let config = CreationConfig::derive(0, low_u32_of_usize(filecount), use_filelist);
        Ok(CreateArchive { path, config })
    }

    /// Asks whether the container holds an entry named `path`.
    ///
    /// Fails with `InteriorNul`, before the engine is asked, where the name
    /// holds a zero byte.
    pub fn has_file(&mut self, path: &str) -> (r: Result<HasFile, StormError>)
        ensures
            *final(self) == *old(self),
            match r {
                Ok(request) => !path.spec_bytes().contains(0u8) && request.archive == old(
                    self,
                ).handle() && request.name@ == path.spec_bytes().push(0u8),
                Err(e) => path.spec_bytes().contains(0u8) && e == StormError::InteriorNul,
            },
    {
        let name = encode_name(path)?;
        Ok(HasFile { archive: self.handle, name })
    }

    /// Opens the entry named `path` for reading.
    ///
    /// Fails with `InteriorNul`, before the engine is asked, where the name
    /// holds a zero byte.
    pub fn open_file(&mut self, path: &str) -> (r: Result<OpenFile, StormError>)
        ensures
            *final(self) == *old(self),
            match r {
                Ok(request) => !path.spec_bytes().contains(0u8) && request.archive == old(
                    self,
                ).handle() && request.name@ == path.spec_bytes().push(0u8),
                Err(e) => path.spec_bytes().contains(0u8) && e == StormError::InteriorNul,
            },
    {
        let name = encode_name(path)?;
        Ok(OpenFile { archive: self.handle, name })
    }

    /// Writes `data` as the entry `file_name`, in place of an entry of that
    /// name if there is one. This is the first of three requests: the entry
    /// is started with its size known, then written, then finalised.
    ///
    /// Fails with `InteriorNul`, before the engine is asked, where the name
    /// holds a zero byte. The engine counts the bytes of an entry in 32 bits:
    /// of a longer payload the low 32 bits of the length are announced.
    pub fn write_file<'a>(&self, file_name: &str, data: &'a [u8]) -> (r: Result<
        CreateFile<'a>,
        StormError,
    >)
        ensures
            match r {
                Ok(request) => {
                    &&& !file_name.spec_bytes().contains(0u8)
                    &&& request.archive == self.handle()
                    &&& request.name@ == file_name.spec_bytes().push(0u8)
                    &&& request.size == low_u32(data@.len() as int)
                    &&& request.flags == MPQ_FILE_REPLACEEXISTING
                    &&& request.payload@ == data@
                },
                Err(e) => file_name.spec_bytes().contains(0u8) && e == StormError::InteriorNul,
            },
    {
        let name = encode_name(file_name)?;
        Ok(
            CreateFile {
                archive: self.handle,
                name,
                size: low_u32_of_usize(data.len()),
                flags: MPQ_FILE_REPLACEEXISTING,
                payload: data,
            },
        )
    }

    /// Puts the content found at `local_path` into the container as the
    /// entry `path`, compressed and encrypted, in place of an entry of that
    /// name if there is one. The two requests come together: the removal of
    /// the old entry, and the insertion that follows it.
    ///
    /// Fails before the engine is asked where the source path cannot be
    /// encoded (`PathEncoding`) or the name holds a zero byte
    /// (`InteriorNul`); the source path is looked at first.
    pub fn add_file(&mut self, path: &str, local_path: HostPath<'_>) -> (r: Result<
        ReplaceFile,
        StormError,
    >)
        ensures
            *final(self) == *old(self),
            match r {
                Ok(request) => {
                    &&& encode_path_spec(local_path) == Ok::<_, StormError>(request.add.source@)
                    &&& !path.spec_bytes().contains(0u8)
                    &&& request.remove.archive == old(self).handle()
                    &&& request.remove.name@ == path.spec_bytes().push(0u8)
                    &&& request.add.archive == old(self).handle()
                    &&& request.add.name@ == path.spec_bytes().push(0u8)
                    &&& request.add.flags == MPQ_FILE_COMPRESS | MPQ_FILE_ENCRYPTED
                    &&& request.add.compression == MPQ_COMPRESSION_ZLIB
                    &&& request.add.compression_next == MPQ_COMPRESSION_NEXT_SAME
                },
                Err(e) => match encode_path_spec(local_path) {
                    Ok(_) => path.spec_bytes().contains(0u8) && e == StormError::InteriorNul,
                    Err(first) => e == first,
                },
            },
    {
        let source = encode_path(local_path)?;
        let removed = encode_name(path)?;
        let added = removed.clone();
        Ok(
            ReplaceFile {
                remove: RemoveFile { archive: self.handle, name: removed },
                add: AddFile {
                    archive: self.handle,
                    source,
                    name: added,
                    flags: MPQ_FILE_COMPRESS | MPQ_FILE_ENCRYPTED,
                    compression: MPQ_COMPRESSION_ZLIB,
                    compression_next: MPQ_COMPRESSION_NEXT_SAME,
                },
            },
        )
    }

    /// Removes the entry named `path`.
    ///
    /// Fails with `InteriorNul`, before the engine is asked, where the name
    /// holds a zero byte.
    pub fn remove_file(&mut self, path: &str) -> (r: Result<RemoveFile, StormError>)
        ensures
            *final(self) == *old(self),
            match r {
                Ok(request) => !path.spec_bytes().contains(0u8) && request.archive == old(
                    self,
                ).handle() && request.name@ == path.spec_bytes().push(0u8),
                Err(e) => path.spec_bytes().contains(0u8) && e == StormError::InteriorNul,
            },
    {
        let name = encode_name(path)?;
        Ok(RemoveFile { archive: self.handle, name })
    }

    /// Rewrites the whole container so that the room of removed entries is
    /// reclaimed. The engine does this in one go, however long it takes.
    pub fn compact(&mut self) -> (request: Compact)
        ensures
            *final(self) == *old(self),
            request.archive == old(self).handle(),
    {
        Compact { archive: self.handle }
    }

    /// Asks how many entries the container has room for.
    pub fn get_max_files(&mut self) -> (request: GetMaxFiles)
        ensures
            *final(self) == *old(self),
            request.archive == old(self).handle(),
    {
        GetMaxFiles { archive: self.handle }
    }

    /// Makes room for `count` entries.
    pub fn set_max_files(&mut self, count: u32) -> (request: SetMaxFiles)
        ensures
            *final(self) == *old(self),
            request.archive == old(self).handle(),
            request.count == count,
    {
        SetMaxFiles { archive: self.handle, count }
    }

    /// Gives the container up. The archive is gone after this, so the
    /// request to release its handle is made once.
    pub fn close(self) -> (request: CloseArchive)
        ensures
            request.archive == self.handle(),
            request.archive != 0,
    {
        proof {
            use_type_invariant(&self);
        }
        CloseArchive { archive: self.handle }
    }
}

impl OpenArchive {
    /// The archive that the engine opened, or its failure translated. A
    /// success without a handle is an `InvalidHandle`.
    pub fn finish(&self, reply: Result<usize, ErrorCode>) -> (r: Result<Archive, StormError>)
        ensures
            match attached(reply) {
                Ok(handle) => r matches Ok(archive) && archive.handle() == handle
                    && archive.mode() == mode_of(self.flags),
                Err(e) => r matches Err(x) && x == e,
            },
    {
        let handle = attach(reply)?;
        let mode = if self.flags & MPQ_OPEN_READ_ONLY != 0 {
            OpenMode::ReadOnly
        } else {
            OpenMode::ReadWrite
        };
        Ok(Archive { handle, mode })
    }
}

impl CreateArchive {
    /// The archive that the engine made, or its failure translated. A
    /// success without a handle is an `InvalidHandle`.
    pub fn finish(&self, reply: Result<usize, ErrorCode>) -> (r: Result<Archive, StormError>)
        ensures
            match attached(reply) {
                Ok(handle) => r matches Ok(archive) && archive.handle() == handle
                    && archive.mode() == OpenMode::Create,
                Err(e) => r matches Err(x) && x == e,
            },
    {
        let handle = attach(reply)?;
        Ok(Archive { handle, mode: OpenMode::Create })
    }
}

impl HasFile {
    /// Whether the entry is there. That the engine did not find it is the
    /// answer `false`; any other failure is passed on, translated.
    pub fn finish(&self, reply: Result<(), ErrorCode>) -> (r: Result<bool, StormError>)
        ensures
            r == found(reply),
    {
        find(reply)
    }
}

impl RemoveFile {
    /// Whether an entry was removed. That the engine did not find it is the
    /// answer `false`; any other failure is passed on, translated.
    pub fn finish(&self, reply: Result<(), ErrorCode>) -> (r: Result<bool, StormError>)
        ensures
            r == found(reply),
    {
        find(reply)
    }
}

impl<'a> CreateFile<'a> {
    /// The second request of a write: the payload goes to the entry that the
    /// engine started. Where the engine could not start it, the write ends
    /// here with that failure, translated.
    pub fn finish(&self, reply: Result<usize, ErrorCode>) -> (r: Result<WriteFile<'a>, StormError>)
        ensures
            match attached(reply) {
                Ok(handle) => r matches Ok(request) && request.file == handle && request.data@
                    == self.payload@ && request.size == self.size,
                Err(e) => r matches Err(x) && x == e,
            },
    {
        let file = attach(reply)?;
        Ok(WriteFile { file, data: self.payload, size: self.size })
    }
}

impl<'a> WriteFile<'a> {
    /// The third request of a write: the entry is finalised. Where the
    /// engine could not take the payload, the write ends here with that
    /// failure, translated, and the entry stays as far as it got.
    pub fn finish(&self, reply: Result<(), ErrorCode>) -> (r: Result<FinishFile, StormError>)
        ensures
            match completed(reply) {
                Ok(_) => r == Ok::<_, StormError>(FinishFile { file: self.file }),
                Err(e) => r == Err::<FinishFile, _>(e),
            },
    {
        complete(reply)?;
        Ok(FinishFile { file: self.file })
    }
}

impl FinishFile {
    /// The end of a write: done once the engine has finalised the entry,
    /// else its failure, translated.
    pub fn finish(&self, reply: Result<(), ErrorCode>) -> (r: Result<(), StormError>)
        ensures
            r == completed(reply),
    {
        complete(reply)
    }
}

/// The two requests of [`Archive::add_file`]: the old entry is removed, then
/// the new content is inserted.
#[derive(Debug, PartialEq, Eq)]
pub struct ReplaceFile {
    pub remove: RemoveFile,
    pub add: AddFile,
}

/// Whether the insertion goes ahead after the removal was answered with
/// `reply`: it does unless the removal failed for another reason than that
/// there was nothing to remove.
pub open spec fn cleared(reply: Result<(), ErrorCode>) -> Result<(), StormError> {
    match found(reply) {
        Ok(_) => Ok(()),
        Err(e) => Err(e),
    }
}

impl ReplaceFile {
    /// The insertion, once the removal is answered. That there was nothing
    /// to remove is fine; any other failure of the removal ends the
    /// operation, translated.
    pub fn removed(self, reply: Result<(), ErrorCode>) -> (r: Result<AddFile, StormError>)
        ensures
            match cleared(reply) {
                Ok(_) => r matches Ok(request) && request == self.add,
                Err(e) => r matches Err(x) && x == e,
            },
    {
        find(reply)?;
        Ok(self.add)
    }
}

impl AddFile {
    /// The end of an insertion: done, or the engine's failure, translated.
    pub fn finish(&self, reply: Result<(), ErrorCode>) -> (r: Result<(), StormError>)
        ensures
            r == completed(reply),
    {
        complete(reply)
    }
}

impl Compact {
    /// The end of a compaction: done, or the engine's failure, translated.
    pub fn finish(&self, reply: Result<(), ErrorCode>) -> (r: Result<(), StormError>)
        ensures
            r == completed(reply),
    {
        complete(reply)
    }
}

impl GetMaxFiles {
    /// The number of entries the container has room for. The engine has no
    /// way to fail here.
    pub fn finish(&self, count: u32) -> (r: Result<u32, StormError>)
        ensures
            r == Ok::<u32, StormError>(count),
    {
        Ok(count)
    }
}

impl SetMaxFiles {
    /// The end of a resize: done, or the engine's failure, translated.
    pub fn finish(&self, reply: Result<(), ErrorCode>) -> (r: Result<(), StormError>)
        ensures
            r == completed(reply),
    {
        complete(reply)
    }
}

/// An entry that is not there is never an error. Whatever the engine
/// answers to a question about one entry, the result is not `FileNotFound`;
/// where the answer is that the entry was not found, the result is
/// `Ok(false)`; and the result is `Ok(true)` only where the engine
/// succeeded.
pub proof fn lemma_absent_entry_is_no_error(reply: Result<(), ErrorCode>)
    ensures
        found(reply) != Err::<bool, _>(StormError::FileNotFound),
        reply == Err::<(), _>(ErrorCode(ERROR_FILE_NOT_FOUND)) ==> found(reply) == Ok::<
            bool,
            StormError,
        >(false),
        found(reply) == Ok::<bool, StormError>(true) <==> reply is Ok,
        found(reply) matches Err(e) ==> reply matches Err(code) && e == translate(code.0),
{
}

} // verus!
