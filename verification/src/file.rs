//! One open entry of a container: its cached size and its read cursor.
//!
//! An entry is read as a whole, and it can be read again: the first read
//! finds the engine's cursor at the start, and every later read rewinds it
//! first. The size is asked of the engine once and kept.

use crate::archive::{attached, Archive};
use crate::engine::{CloseFile, GetFileSize, OpenFile, ReadFile, SetFilePointer};
use crate::error::{translate, ErrorCode, StormError};
use crate::width::{join, joined, low_u32, low_u32_of_u64};
use vstd::prelude::*;

verus! {

/// What [`File::get_size`] needs next.
#[derive(Debug, Clone, Copy, PartialEq, Eq, Structural)]
pub enum SizeStep {
    /// Nothing: the size is known.
    Known(u64),
    /// The size has to be asked of the engine.
    Query(GetFileSize),
}

/// What [`File::read_all`] needs next.
#[derive(Debug, Clone, Copy, PartialEq, Eq, Structural)]
pub enum ReadStep {
    /// The read cursor has to go back to the start.
    Rewind(SetFilePointer),
    /// The size has to be asked of the engine.
    QuerySize(GetFileSize),
    /// The content can be read.
    Read(ReadFile),
}

/// What an open entry remembers from one operation to the next.
///
/// An entry is fresh until it has been read, and consumed from then on:
/// `need_reset` tells the two apart.
pub struct FileState {
    /// The engine's handle of the entry.
    pub handle: usize,
    /// The size of the entry, once the engine has told it.
    pub size: Option<u64>,
    /// Whether a read has moved the engine's cursor away from the start.
    pub need_reset: bool,
}

impl FileState {
    /// The state of an entry that was just opened.
    pub open spec fn fresh(handle: usize) -> FileState {
        FileState { handle, size: None, need_reset: false }
    }

    /// The first step of a size query.
    pub open spec fn get_size(self) -> SizeStep {
        match self.size {
            Some(size) => SizeStep::Known(size),
            None => SizeStep::Query(GetFileSize { file: self.handle }),
        }
    }

    /// The state and the result once the engine has answered a size query. A
    /// size that is known stays as it is, whatever the answer.
    pub open spec fn size_received(self, reply: Result<(u32, u32), ErrorCode>) -> (
        FileState,
        Result<u64, StormError>,
    ) {
        match self.size {
            Some(size) => (self, Ok(size)),
            None => match reply {
                Ok((low, high)) => (
                    FileState { size: Some(joined(low, high)), ..self },
                    Ok(joined(low, high)),
                ),
                Err(code) => (self, Err(translate(code.0))),
            },
        }
    }

    /// The request that reads an entry of `size` bytes: as many bytes as the
    /// engine can be asked for at once, into a buffer of the whole size.
    pub open spec fn read_request(self, size: u64) -> ReadFile {
        ReadFile { file: self.handle, len: low_u32(size as int), size }
    }

    /// The step of a read that follows the rewinding: the read itself where
    /// the size is known, from which point on the entry counts as consumed,
    /// and the size query where it is not.
    pub open spec fn size_or_read(self) -> (FileState, ReadStep) {
        match self.size {
            Some(size) => (
                FileState { need_reset: true, ..self },
                ReadStep::Read(self.read_request(size)),
            ),
            None => (self, ReadStep::QuerySize(GetFileSize { file: self.handle })),
        }
    }

    /// The first step of a read: a consumed entry is rewound, a fresh one is
    /// not.
    pub open spec fn read_all(self) -> (FileState, ReadStep) {
        if self.need_reset {
            (self, ReadStep::Rewind(SetFilePointer { file: self.handle, position: 0 }))
        } else {
            self.size_or_read()
        }
    }

    /// The step after the engine has answered the rewinding: the read ends
    /// with the failure where the engine could not rewind.
    pub open spec fn after_rewind(self, reply: Result<(), ErrorCode>) -> (
        FileState,
        Result<ReadStep, StormError>,
    ) {
        match reply {
            Ok(_) => (self.size_or_read().0, Ok(self.size_or_read().1)),
            Err(code) => (self, Err(translate(code.0))),
        }
    }

    /// The step after the engine has answered the size query of a read: the
    /// size is kept and the read itself follows, or the read ends with the
    /// failure.
    pub open spec fn after_size(self, reply: Result<(u32, u32), ErrorCode>) -> (
        FileState,
        Result<ReadStep, StormError>,
    ) {
        let (sized, size) = self.size_received(reply);
        match size {
            Ok(_) => (sized.size_or_read().0, Ok(sized.size_or_read().1)),
            Err(e) => (sized, Err(e)),
        }
    }
}

/// Whether `after` has kept what `before` had learnt: the handle is the
/// same, a size that was known is known unchanged, and a consumed entry is
/// still consumed.
pub open spec fn keeps(before: FileState, after: FileState) -> bool {
    &&& after.handle == before.handle
    &&& before.size is Some ==> after.size == before.size
    &&& before.need_reset ==> after.need_reset
}

/// No step of a file loses what the file has learnt, whatever the engine
/// answers: the size, once it is known, is never asked for again nor
/// changed, and an entry that was read never counts as fresh again.
pub proof fn lemma_steps_keep_what_is_known(
    state: FileState,
    size_reply: Result<(u32, u32), ErrorCode>,
    rewind_reply: Result<(), ErrorCode>,
)
    ensures
        keeps(state, state.size_received(size_reply).0),
        keeps(state, state.read_all().0),
        keeps(state, state.after_rewind(rewind_reply).0),
        keeps(state, state.after_size(size_reply).0),
        state.size is Some ==> !(state.get_size() is Query) && !(state.read_all().1 is QuerySize)
            && !(state.after_rewind(rewind_reply).1 matches Ok(ReadStep::QuerySize(_))),
        state.read_all().1 is Rewind <==> state.need_reset,
        state.after_rewind(rewind_reply).1 matches Ok(ReadStep::Read(_)) ==> state.after_rewind(
            rewind_reply,
        ).0.need_reset,
        state.after_size(size_reply).1 matches Ok(step) ==> step is Read && state.after_size(
            size_reply,
        ).0.need_reset,
{
}

/// What is kept of the buffer after a read that was asked to fill `size`
/// bytes and was told that `transferred` bytes arrived: where fewer arrived,
/// only those; else the whole buffer.
pub open spec fn kept(size: u64, buffer: Seq<u8>, transferred: u32) -> Seq<u8> {
    if transferred < size && transferred <= buffer.len() {
        buffer.subrange(0, transferred as int)
    } else {
        buffer
    }
}

/// One open entry of a container.
///
/// It holds the engine's handle of the entry, which is never null, and
/// borrows the archive it was opened from: the archive can neither be used
/// nor given up while the entry is open.
#[derive(Debug)]
pub struct File<'a> {
    archive: &'a Archive,
    file_handle: usize,
    size: Option<u64>,
    need_reset: bool,
}

impl<'a> View for File<'a> {
    type V = FileState;

    closed spec fn view(&self) -> FileState {
        FileState { handle: self.file_handle, size: self.size, need_reset: self.need_reset }
    }
}

/// What becomes of the answer to a request to open an entry, once it is
/// finished on the archive with the handle `archive`: the handle of the
/// entry, or the error. A request that was made for another archive is
/// refused as an invalid handle, whatever the answer.
pub open spec fn opened_on(request: OpenFile, archive: usize, reply: Result<usize, ErrorCode>)
    -> Result<usize, StormError> {
    if request.archive != archive {
        Err(StormError::InvalidHandle)
    } else {
        attached(reply)
    }
}

impl OpenFile {
    /// The entry that the engine opened, fresh, or its failure translated. A
    /// success without a handle is an `InvalidHandle`, and so is a request
    /// that is finished on another archive than the one it was made for: an
    /// entry borrows the archive it was opened from and no other.
    pub fn finish<'a>(&self, archive: &'a mut Archive, reply: Result<usize, ErrorCode>) -> (r:
        Result<File<'a>, StormError>)
        ensures
            *final(archive) == *old(archive),
            match opened_on(*self, old(archive).handle(), reply) {
                Ok(handle) => r matches Ok(file) && file@ == FileState::fresh(handle)
                    && file.archive() == *old(archive) && file.archive().handle()
                    == self.archive,
                Err(e) => r matches Err(x) && x == e,
            },
    {
        if self.archive != archive.as_raw() {
            return Err(StormError::InvalidHandle);
        }
        match reply {
            Ok(handle) => if handle == 0 {
                Err(StormError::InvalidHandle)
            } else {
                Ok(File { archive, file_handle: handle, size: None, need_reset: false })
            },
            Err(code) => Err(StormError::from(code)),
        }
    }
}

impl<'a> File<'a> {
    #[verifier::type_invariant]
    spec fn holds_handle(&self) -> bool {
        self.file_handle != 0
    }

    /// The archive that the entry was opened from.
    pub closed spec fn archive(&self) -> Archive {
        *self.archive
    }

    /// The engine's handle of the entry, which is never null.
    pub fn as_raw(&self) -> (handle: usize)
        ensures
            handle == self@.handle,
            handle != 0,
    {
        proof {
            use_type_invariant(self);
        }
        self.file_handle
    }

    /// The size of the entry. The engine is asked the first time only: once
    /// the size is known, this is the size and there is nothing to ask.
    pub fn get_size(&mut self) -> (step: SizeStep)
        ensures
            *final(self) == *old(self),
            step == old(self)@.get_size(),
    {
        match self.size {
            Some(size) => SizeStep::Known(size),
            None => SizeStep::Query(GetFileSize { file: self.file_handle }),
        }
    }

    /// The size of the entry, once the engine has answered the query: the
    /// high half above the low half. The size is kept from here on and never
    /// asked for or changed again.
    pub fn size_received(&mut self, reply: Result<(u32, u32), ErrorCode>) -> (r: Result<
        u64,
        StormError,
    >)
        ensures
            (final(self)@, r) == old(self)@.size_received(reply),
            final(self).archive() == old(self).archive(),
    {
        match self.size {
            Some(size) => Ok(size),
            None => match reply {
                Ok((low, high)) => {
                    proof {
                        use_type_invariant(&*self);
                    }
                    let size = join(low, high);
                    self.size = Some(size);
                    Ok(size)
                },
                Err(code) => Err(StormError::from(code)),
            },
        }
    }

    fn size_or_read(&mut self) -> (step: ReadStep)
        ensures
            (final(self)@, step) == old(self)@.size_or_read(),
            final(self).archive() == old(self).archive(),
    {
        match self.size {
            Some(size) => {
                proof {
                    use_type_invariant(&*self);
                }
                self.need_reset = true;
                ReadStep::Read(
                    ReadFile { file: self.file_handle, len: low_u32_of_u64(size), size },
                )
            },
            None => ReadStep::QuerySize(GetFileSize { file: self.file_handle }),
        }
    }

    /// Reads the whole entry, from its start. This is the first step: an
    /// entry that was read before is rewound, a fresh one needs no rewinding.
    pub fn read_all(&mut self) -> (step: ReadStep)
        ensures
            (final(self)@, step) == old(self)@.read_all(),
            final(self).archive() == old(self).archive(),
    {
        if self.need_reset {
            ReadStep::Rewind(SetFilePointer { file: self.file_handle, position: 0 })
        } else {
            self.size_or_read()
        }
    }

    /// The step of a read after the rewinding. Where the engine could not
    /// rewind, the read ends with that failure, translated.
    pub fn after_rewind(&mut self, reply: Result<(), ErrorCode>) -> (r: Result<
        ReadStep,
        StormError,
    >)
        ensures
            (final(self)@, r) == old(self)@.after_rewind(reply),
            final(self).archive() == old(self).archive(),
    {
        match reply {
            Ok(_) => Ok(self.size_or_read()),
            Err(code) => Err(StormError::from(code)),
        }
    }

    /// The step of a read after the size query. Where the engine could not
    /// tell the size, the read ends with that failure, translated.
    pub fn after_size(&mut self, reply: Result<(u32, u32), ErrorCode>) -> (r: Result<
        ReadStep,
        StormError,
    >)
        ensures
            (final(self)@, r) == old(self)@.after_size(reply),
            final(self).archive() == old(self).archive(),
    {
        match self.size_received(reply) {
            Ok(_) => Ok(self.size_or_read()),
            Err(e) => Err(e),
        }
    }

    /// Gives the entry up. The file is gone after this, so the request to
    /// release its handle is made once, and the archive is free again.
    pub fn close(self) -> (request: CloseFile)
        ensures
            request.file == self@.handle,
            request.file != 0,
    {
        proof {
            use_type_invariant(&self);
        }
        CloseFile { file: self.file_handle }
    }
}

impl ReadFile {
    /// The buffer for the engine to read into: as many zero bytes as the
    /// entry is long, or as many of them as the host can address. Whatever
    /// the host, a request made by [`File::read_all`] asks for no more bytes
    /// than its buffer holds.
    pub fn buffer(&self) -> (buffer: Vec<u8>)
        ensures
            buffer@ == Seq::new((self.size as usize) as nat, |i: int| 0u8),
            self.len == low_u32(self.size as int) ==> self.len <= buffer@.len(),
    {
        let space: usize = self.size as usize;
        let buffer = vec![0u8; space];
        assert(buffer@ =~= Seq::new(space as nat, |i: int| 0u8));
        assert(low_u32(self.size as int) <= space) by {
            let size = self.size;
            assert(size % 0x1_0000_0000 <= (size as usize)) by (bit_vector);
        }
        buffer
    }

    /// The content that was read, or the engine's failure, translated.
    ///
    /// That fewer bytes arrived than the entry is long is no failure: the
    /// result is then what did arrive.
    pub fn finish(&self, reply: Result<(Vec<u8>, u32), ErrorCode>) -> (r: Result<
        Vec<u8>,
        StormError,
    >)
        ensures
            match reply {
                Ok((buffer, transferred)) => r matches Ok(data) && data@ == kept(
                    self.size,
                    buffer@,
                    transferred,
                ),
                Err(code) => r matches Err(e) && e == translate(code.0),
            },
    {
        match reply {
            Ok((buffer, transferred)) => {
                let mut data = buffer;
                if (transferred as u64) < self.size {
                    data.truncate(transferred as usize);
                }
                Ok(data)
            },
            Err(code) => Err(StormError::from(code)),
        }
    }
}

} // verus!
