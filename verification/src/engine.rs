//! The boundary to the archive engine, as values.
//!
//! The access layer never calls the engine. Each operation hands out a
//! request, a record of plain values that says exactly what the engine is to
//! be asked, and goes on when it is given the engine's answer. An answer is
//! result-bearing: where the engine failed, it carries the failure code of
//! that very call, so no later call can come between a failure and its code.

use crate::config::CreationConfig;
use crate::encoding::EncodedPath;
use crate::error::ErrorCode;
use vstd::prelude::*;

verus! {

/// No open flag at all.
pub const MPQ_OPEN_NO_FLAG: u32 = 0;

/// Open flag: do not load the internal filelist.
pub const MPQ_OPEN_NO_LISTFILE: u32 = 0x0001_0000;

/// Open flag: do not load the attributes table.
pub const MPQ_OPEN_NO_ATTRIBUTES: u32 = 0x0002_0000;

/// Open flag: open the container for reading only.
pub const MPQ_OPEN_READ_ONLY: u32 = 0x0000_0100;

/// File flag: the entry's data is compressed.
pub const MPQ_FILE_COMPRESS: u32 = 0x0000_0200;

/// File flag: the entry's data is encrypted.
pub const MPQ_FILE_ENCRYPTED: u32 = 0x0001_0000;

/// File flag: an entry of the same name is replaced.
pub const MPQ_FILE_REPLACEEXISTING: u32 = 0x8000_0000;

/// Compression method: zlib.
pub const MPQ_COMPRESSION_ZLIB: u32 = 0x02;

/// Compression of the sectors after the first: the same as the first.
pub const MPQ_COMPRESSION_NEXT_SAME: u32 = 0xFFFF_FFFF;

/// What the engine returns in place of a size or a position when it failed.
pub const SFILE_INVALID_SIZE: u32 = 0xFFFF_FFFF;

/// Asks the engine to open the container at `path`.
#[derive(Debug, PartialEq, Eq)]
pub struct OpenArchive {
    pub path: EncodedPath,
    pub flags: u32,
}

/// Asks the engine to make a new container at `path`, shaped as `config`
/// says.
#[derive(Debug, PartialEq, Eq)]
pub struct CreateArchive {
    pub path: EncodedPath,
    pub config: CreationConfig,
}

/// Asks the engine to release a container.
#[derive(Debug, Clone, Copy, PartialEq, Eq, Structural)]
pub struct CloseArchive {
    pub archive: usize,
}

/// Asks the engine whether the container holds an entry of that name.
#[derive(Debug, PartialEq, Eq)]
pub struct HasFile {
    pub archive: usize,
    pub name: Vec<u8>,
}

/// Asks the engine to open an entry for reading.
#[derive(Debug, PartialEq, Eq)]
pub struct OpenFile {
    pub archive: usize,
    pub name: Vec<u8>,
}

/// Asks the engine to start a new entry of `size` bytes.
#[derive(Debug, PartialEq, Eq)]
pub struct CreateFile<'a> {
    pub archive: usize,
    pub name: Vec<u8>,
    pub size: u32,
    pub flags: u32,
    /// What the entry is to hold. The engine is not given it yet: it goes out
    /// with the request that follows this one.
    pub payload: &'a [u8],
}

/// Asks the engine to write the first `size` bytes of `data` to an entry
/// under way, uncompressed.
#[derive(Debug, Clone, Copy, PartialEq, Eq)]
pub struct WriteFile<'a> {
    pub file: usize,
    pub data: &'a [u8],
    pub size: u32,
}

/// Asks the engine to finalise an entry under way.
#[derive(Debug, Clone, Copy, PartialEq, Eq, Structural)]
pub struct FinishFile {
    pub file: usize,
}

/// Asks the engine to remove an entry.
#[derive(Debug, PartialEq, Eq)]
pub struct RemoveFile {
    pub archive: usize,
    pub name: Vec<u8>,
}

/// Asks the engine to insert the content found at `source` as the entry
/// `name`.
#[derive(Debug, PartialEq, Eq)]
pub struct AddFile {
    pub archive: usize,
    pub source: EncodedPath,
    pub name: Vec<u8>,
    pub flags: u32,
    pub compression: u32,
    pub compression_next: u32,
}

/// Asks the engine to rewrite the container so that the room of removed
/// entries is reclaimed.
#[derive(Debug, Clone, Copy, PartialEq, Eq, Structural)]
pub struct Compact {
    pub archive: usize,
}

/// Asks the engine how many entries the container has room for.
#[derive(Debug, Clone, Copy, PartialEq, Eq, Structural)]
pub struct GetMaxFiles {
    pub archive: usize,
}

/// Asks the engine to make room for `count` entries.
#[derive(Debug, Clone, Copy, PartialEq, Eq, Structural)]
pub struct SetMaxFiles {
    pub archive: usize,
    pub count: u32,
}

/// Asks the engine for the size of an open entry.
#[derive(Debug, Clone, Copy, PartialEq, Eq, Structural)]
pub struct GetFileSize {
    pub file: usize,
}

/// Asks the engine to move the read cursor of an open entry to `position`,
/// counted from the start.
#[derive(Debug, Clone, Copy, PartialEq, Eq, Structural)]
pub struct SetFilePointer {
    pub file: usize,
    pub position: u64,
}

/// Asks the engine to read up to `len` bytes from the read cursor of an open
/// entry into a buffer of `size` zero bytes.
#[derive(Debug, Clone, Copy, PartialEq, Eq, Structural)]
pub struct ReadFile {
    pub file: usize,
    pub len: u32,
    pub size: u64,
}

/// Asks the engine to release an open entry.
#[derive(Debug, Clone, Copy, PartialEq, Eq, Structural)]
pub struct CloseFile {
    pub file: usize,
}

/// The answer to a request that hands nothing back: done, or the code of the
/// failure.
///
/// This is the engine's native idiom made result-bearing: the engine returns
/// a flag and leaves the reason of a failure in its last-error slot, which
/// must be read right after the call and is only meaningful after a failure.
pub fn flag_reply(succeeded: bool, last_error: u32) -> (reply: Result<(), ErrorCode>)
    ensures
        reply == (if succeeded {
            Ok::<(), ErrorCode>(())
        } else {
            Err::<(), ErrorCode>(ErrorCode(last_error))
        }),
{
    if succeeded {
        Ok(())
    } else {
        Err(ErrorCode(last_error))
    }
}

/// The answer to a request for a handle: the handle, or the code of the
/// failure. A success without a handle is no success: it is answered as an
/// invalid handle.
pub fn handle_reply(succeeded: bool, handle: usize, last_error: u32) -> (reply: Result<
    usize,
    ErrorCode,
>)
    ensures
        reply == handle_reply_spec(succeeded, handle, last_error),
        reply matches Ok(h) ==> h != 0,
{
    if !succeeded {
        Err(ErrorCode(last_error))
    } else if handle == 0 {
        Err(ErrorCode(crate::error::ERROR_INVALID_HANDLE))
    } else {
        Ok(handle)
    }
}

pub open spec fn handle_reply_spec(succeeded: bool, handle: usize, last_error: u32) -> Result<
    usize,
    ErrorCode,
> {
    if !succeeded {
        Err(ErrorCode(last_error))
    } else if handle == 0 {
        Err(ErrorCode(crate::error::ERROR_INVALID_HANDLE))
    } else {
        Ok(handle)
    }
}

/// What [`size_reply`] makes of the engine's return.
pub open spec fn size_replied(low: u32, high: u32, last_error: u32) -> Result<
    (u32, u32),
    ErrorCode,
> {
    if low == SFILE_INVALID_SIZE {
        Err(ErrorCode(last_error))
    } else {
        Ok((low, high))
    }
}

/// The answer to a request for a size: its two halves, low first, or the
/// code of the failure. The engine reports a failure by the low half it
/// returns, so a size whose low half is that mark cannot be told from a
/// failure and is answered as one.
pub fn size_reply(low: u32, high: u32, last_error: u32) -> (reply: Result<(u32, u32), ErrorCode>)
    ensures
        reply == size_replied(low, high, last_error),
{
    if low == SFILE_INVALID_SIZE {
        Err(ErrorCode(last_error))
    } else {
        Ok((low, high))
    }
}

/// The answer to a request to move the read cursor: done, or the code of the
/// failure. The engine reports a failure by the position it returns.
pub fn position_reply(low: u32, last_error: u32) -> (reply: Result<(), ErrorCode>)
    ensures
        reply == (if low == SFILE_INVALID_SIZE {
            Err::<(), ErrorCode>(ErrorCode(last_error))
        } else {
            Ok::<(), ErrorCode>(())
        }),
{
    if low == SFILE_INVALID_SIZE {
        Err(ErrorCode(last_error))
    } else {
        Ok(())
    }
}

/// The answer to a request to read: the buffer as the engine left it and the
/// number of bytes it says it put there, or the code of the failure.
pub fn read_reply(succeeded: bool, buffer: Vec<u8>, transferred: u32, last_error: u32) -> (reply:
    Result<(Vec<u8>, u32), ErrorCode>)
    ensures
        match reply {
            Ok((b, n)) => succeeded && b == buffer && n == transferred,
            Err(code) => !succeeded && code == ErrorCode(last_error),
        },
{
    if succeeded {
        Ok((buffer, transferred))
    } else {
        Err(ErrorCode(last_error))
    }
}

} // verus!
