//! Containers and entries for callers that keep the engine's own names for
//! failures.
//!
//! These types ask the engine the same requests as [`crate::archive`] and
//! [`crate::file`] do and take the same result-bearing answers. They differ
//! in what they hand on: a failure comes back as a [`GenericError`], a name
//! must hold no zero byte to begin with, and an entry keeps nothing between
//! two operations.

use crate::config::{derived, CreationConfig};
use crate::encoding::{encode_name, EncodedPath, EncodedPathView};
use crate::engine::{
    CloseArchive, CloseFile, CreateArchive, CreateFile, FinishFile, GetFileSize, GetMaxFiles,
    OpenArchive, OpenFile, ReadFile, SetMaxFiles, WriteFile, MPQ_FILE_REPLACEEXISTING,
};
use crate::error::ErrorCode;
use crate::file::kept;
use crate::generic::{failure, failure_of, GenericError, GenericErrorCode};
use crate::width::{low_u32, low_u32_of_usize};
use vstd::prelude::*;
use vstd::string::StringSliceAdditionalSpecFns;

verus! {

/// The scheme that tells the engine to take a container for a plain file:
/// the bytes of `flat-file://`.
pub open spec fn flat_file_scheme() -> Seq<u8> {
    seq![102u8, 108u8, 97u8, 116u8, 45u8, 102u8, 105u8, 108u8, 101u8, 58u8, 47u8, 47u8]
}

/// What becomes of an answer that carries nothing: a call that failed ends
/// the operation with its failure, whatever code it left.
pub open spec fn passed(reply: Result<(), ErrorCode>) -> Result<(), GenericError> {
    match reply {
        Ok(_) => Ok(()),
        Err(code) => Err(failure(code.0)),
    }
}

/// What becomes of an answer that should carry a handle: the handle, or the
/// failure. A success without a handle is an invalid handle.
pub open spec fn handed(reply: Result<usize, ErrorCode>) -> Result<usize, GenericError> {
    match reply {
        Ok(handle) => if handle == 0 {
            Err(GenericError::ErrorCode(GenericErrorCode::InvalidHandle))
        } else {
            Ok(handle)
        },
        Err(code) => Err(failure(code.0)),
    }
}

fn pass(reply: Result<(), ErrorCode>) -> (r: Result<(), GenericError>)
    ensures
        r == passed(reply),
{
    match reply {
        Ok(_) => Ok(()),
        Err(code) => Err(failure_of(code.0)),
    }
}

fn hand(reply: Result<usize, ErrorCode>) -> (r: Result<usize, GenericError>)
    ensures
        r == handed(reply),
{
    match reply {
        Ok(handle) => if handle == 0 {
            Err(GenericError::ErrorCode(GenericErrorCode::InvalidHandle))
        } else {
            Ok(handle)
        },
        Err(code) => Err(failure_of(code.0)),
    }
}

/// One open container. Its handle is never null.
#[derive(Debug)]
pub struct MPQArchive {
    handle: usize,
}

/// One open entry. Its handle is never null.
#[derive(Debug)]
pub struct MPQFile {
    handle: usize,
}

impl MPQArchive {
    #[verifier::type_invariant]
    spec fn holds_handle(&self) -> bool {
        self.handle != 0
    }

    /// The engine's handle of the container.
    pub closed spec fn handle(&self) -> usize {
        self.handle
    }

    /// The engine's handle of the container, which is never null.
    pub fn as_raw(&self) -> (handle: usize)
        ensures
            handle == self.handle(),
            handle != 0,
    {
        proof {
            use_type_invariant(self);
        }
        self.handle
    }

    /// Opens the container at `path` as a plain file, with no flags.
    ///
    /// The path must hold no zero byte.
    pub fn open(path: &str) -> (request: OpenArchive)
        requires
            !path.spec_bytes().contains(0u8),
        ensures
            request.path@ == EncodedPathView::Narrow(
                flat_file_scheme() + path.spec_bytes().push(0u8),
            ),
            request.flags == 0,
    {
        let mut bytes: Vec<u8> = Vec::new();
        bytes.push(102);
        bytes.push(108);
        bytes.push(97);
        bytes.push(116);
        bytes.push(45);
        bytes.push(102);
        bytes.push(105);
        bytes.push(108);
        bytes.push(101);
        bytes.push(58);
        bytes.push(47);
        bytes.push(47);
        assert(bytes@ =~= flat_file_scheme());
        let mut rest = encode_name(path).unwrap();
        bytes.append(&mut rest);
        OpenArchive { path: EncodedPath::Narrow(bytes), flags: 0 }
    }

    /// Makes a new container at `path` with room for `filecount` entries,
    /// with an internal filelist if `use_filelist` is set. The creation
    /// record is the one derived from no creation flags, and of a
    /// `filecount` beyond 32 bits the low 32 bits are asked for.
    ///
    /// The path must hold no zero byte.
    pub fn create(path: &str, filecount: usize, use_filelist: bool) -> (request: CreateArchive)
        requires
            !path.spec_bytes().contains(0u8),
        ensures
            request.path@ == EncodedPathView::Narrow(path.spec_bytes().push(0u8)),
            request.config == derived(0, low_u32(filecount as int), use_filelist),
    {
        let bytes = encode_name(path).unwrap();
        let config = CreationConfig::derive(0, low_u32_of_usize(filecount), use_filelist);
        CreateArchive { path: EncodedPath::Narrow(bytes), config }
    }

    /// The archive that the engine opened or made, or its failure. A
    /// success without a handle is an invalid handle.
    pub fn attach(reply: Result<usize, ErrorCode>) -> (r: Result<MPQArchive, GenericError>)
        ensures
            match handed(reply) {
                Ok(handle) => r matches Ok(archive) && archive.handle() == handle,
                Err(e) => r matches Err(x) && x == e,
            },
    {
        let handle = hand(reply)?;
        Ok(MPQArchive { handle })
    }

    /// Opens the entry named `file_name` for reading.
    ///
    /// The name must hold no zero byte.
    pub fn open_file(&self, file_name: &str) -> (request: OpenFile)
        requires
            !file_name.spec_bytes().contains(0u8),
        ensures
            request.archive == self.handle(),
            request.name@ == file_name.spec_bytes().push(0u8),
    {
        OpenFile { archive: self.handle, name: encode_name(file_name).unwrap() }
    }

    /// Asks how many entries the container has room for.
    pub fn get_max_files(&self) -> (request: GetMaxFiles)
        ensures
            request.archive == self.handle(),
    {
        GetMaxFiles { archive: self.handle }
    }

    /// Makes room for `count` entries; of a `count` beyond 32 bits the low
    /// 32 bits are asked for.
    pub fn set_max_files(&self, count: usize) -> (request: SetMaxFiles)
        ensures
            request.archive == self.handle(),
            request.count == low_u32(count as int),
    {
        SetMaxFiles { archive: self.handle, count: low_u32_of_usize(count) }
    }

    /// Writes `data` as the entry `file_name`, in place of an entry of that
    /// name if there is one. This is the first of three requests; of a
    /// payload beyond 32 bits the low 32 bits of the length are announced.
    ///
    /// The name must hold no zero byte.
    pub fn write_file<'a>(&self, file_name: &str, data: &'a [u8]) -> (request: CreateFile<'a>)
        requires
            !file_name.spec_bytes().contains(0u8),
        ensures
            request.archive == self.handle(),
            request.name@ == file_name.spec_bytes().push(0u8),
            request.size == low_u32(data@.len() as int),
            request.flags == MPQ_FILE_REPLACEEXISTING,
            request.payload@ == data@,
    {
        CreateFile {
            archive: self.handle,
            name: encode_name(file_name).unwrap(),
            size: low_u32_of_usize(data.len()),
            flags: MPQ_FILE_REPLACEEXISTING,
            payload: data,
        }
    }

    /// The second request of a write: the payload goes to the entry that the
    /// engine started. Where the engine could not start it, the write ends
    /// here with that failure.
    pub fn write_started<'a>(request: &CreateFile<'a>, reply: Result<usize, ErrorCode>) -> (r:
        Result<WriteFile<'a>, GenericError>)
        ensures
            match handed(reply) {
                Ok(handle) => r matches Ok(next) && next.file == handle && next.data@
                    == request.payload@ && next.size == request.size,
                Err(e) => r matches Err(x) && x == e,
            },
    {
        let file = hand(reply)?;
        Ok(WriteFile { file, data: request.payload, size: request.size })
    }

    /// The third request of a write: the entry is finalised. Where the
    /// engine could not take the payload, the write ends here with that
    /// failure.
    pub fn write_written(request: &WriteFile<'_>, reply: Result<(), ErrorCode>) -> (r: Result<
        FinishFile,
        GenericError,
    >)
        ensures
            match passed(reply) {
                Ok(_) => r == Ok::<_, GenericError>(FinishFile { file: request.file }),
                Err(e) => r == Err::<FinishFile, _>(e),
            },
    {
        pass(reply)?;
        Ok(FinishFile { file: request.file })
    }

    /// The end of a write: done once the engine has finalised the entry,
    /// else its failure.
    pub fn write_finished(reply: Result<(), ErrorCode>) -> (r: Result<(), GenericError>)
        ensures
            r == passed(reply),
    {
        pass(reply)
    }

    /// Gives the container up. The archive is gone after this, so the
    /// request to release its handle is made once.
    pub fn close(self) -> (request: CloseArchive)
        ensures
            request.archive == self.handle(),
            request.archive != 0,
    {
        proof {
            use_type_invariant(&self);
        }
        CloseArchive { archive: self.handle }
    }
}

impl MPQFile {
    #[verifier::type_invariant]
    spec fn holds_handle(&self) -> bool {
        self.handle != 0
    }

    /// The engine's handle of the entry.
    pub closed spec fn handle(&self) -> usize {
        self.handle
    }

    /// The engine's handle of the entry, which is never null.
    pub fn as_raw(&self) -> (handle: usize)
        ensures
            handle == self.handle(),
            handle != 0,
    {
        proof {
            use_type_invariant(self);
        }
        self.handle
    }

    /// The entry that the engine opened, or its failure. A success without
    /// a handle is an invalid handle.
    pub fn attach(reply: Result<usize, ErrorCode>) -> (r: Result<MPQFile, GenericError>)
        ensures
            match handed(reply) {
                Ok(handle) => r matches Ok(file) && file.handle() == handle,
                Err(e) => r matches Err(x) && x == e,
            },
    {
        let handle = hand(reply)?;
        Ok(MPQFile { handle })
    }

    /// Asks for the size of the entry.
    pub fn get_size(&self) -> (request: GetFileSize)
        ensures
            request.file == self.handle(),
    {
        GetFileSize { file: self.handle }
    }

    /// The size of the entry once the engine has answered: the low half of
    /// what it told, or its failure.
    pub fn size_received(reply: Result<(u32, u32), ErrorCode>) -> (r: Result<u32, GenericError>)
        ensures
            r == (match reply {
                Ok((low, _)) => Ok::<u32, GenericError>(low),
                Err(code) => Err::<u32, GenericError>(failure(code.0)),
            }),
    {
        match reply {
            Ok((low, _)) => Ok(low),
            Err(code) => Err(failure_of(code.0)),
        }
    }

    /// Reads the entry from where its cursor stands. This is the first
    /// step: the size is asked for, each time.
    pub fn read_contents(&self) -> (request: GetFileSize)
        ensures
            request.file == self.handle(),
    {
        self.get_size()
    }

    /// The second step of a read: the content is read into a buffer of the
    /// size that the engine told, or the read ends with the engine's
    /// failure.
    pub fn read_sized(&self, reply: Result<(u32, u32), ErrorCode>) -> (r: Result<
        ReadFile,
        GenericError,
    >)
        ensures
            r == (match reply {
                Ok((low, _)) => Ok::<ReadFile, GenericError>(
                    ReadFile { file: self.handle(), len: low, size: low as u64 },
                ),
                Err(code) => Err::<ReadFile, GenericError>(failure(code.0)),
            }),
    {
        let size = MPQFile::size_received(reply)?;
        Ok(ReadFile { file: self.handle, len: size, size: size as u64 })
    }

    /// The end of a read: the content that was read, or the engine's
    /// failure.
    ///
    /// That fewer bytes arrived than were asked for is no failure: the
    /// result is then what did arrive.
    pub fn read_finished(request: &ReadFile, reply: Result<(Vec<u8>, u32), ErrorCode>) -> (r:
        Result<Vec<u8>, GenericError>)
        ensures
            match reply {
                Ok((buffer, transferred)) => r matches Ok(data) && data@ == kept(
                    request.size,
                    buffer@,
                    transferred,
                ),
                Err(code) => r matches Err(e) && e == failure(code.0),
            },
    {
        match reply {
            Ok((buffer, transferred)) => {
                let mut data = buffer;
                if (transferred as u64) < request.size {
                    data.truncate(transferred as usize);
                }
                Ok(data)
            },
            Err(code) => Err(failure_of(code.0)),
        }
    }

    /// Gives the entry up. The file is gone after this, so the request to
    /// release its handle is made once.
    pub fn close(self) -> (request: CloseFile)
        ensures
            request.file == self.handle(),
            request.file != 0,
    {
        proof {
            use_type_invariant(&self);
        }
        CloseFile { file: self.handle }
    }
}

} // verus!
