//! What the access layer expects of an engine, and what follows from it.
//!
//! The layer never sees inside the engine, so nothing here is claimed of any
//! engine. The model says how an engine that keeps its promises answers the
//! requests of the layer, and the lemmas say what the layer's operations then
//! come to: they hold of every engine that answers as the model does.

use crate::archive::found;
use crate::engine::{size_replied, ReadFile, SetFilePointer, SFILE_INVALID_SIZE};
use crate::error::{ErrorCode, StormError, ERROR_FILE_NOT_FOUND};
use crate::file::{kept, FileState, ReadStep, SizeStep};
use crate::width::{joined, lemma_join_of_halves, low_u32};
use vstd::prelude::*;

verus! {

/// An open entry as the engine holds it: what it contains and where its read
/// cursor stands.
pub struct Entry {
    pub content: Seq<u8>,
    pub cursor: nat,
}

impl Entry {
    /// An entry right after it was opened.
    pub open spec fn opened(content: Seq<u8>) -> Entry {
        Entry { content, cursor: 0 }
    }

    /// Whether the engine can tell the size of the entry: it cannot where
    /// the low half of the size is the mark by which it reports a failure.
    pub open spec fn has_reportable_size(self) -> bool {
        low_u32(self.content.len() as int) != SFILE_INVALID_SIZE
    }

    /// The engine's answer to a size query on an entry whose size it can
    /// tell: the length of the content, in two halves.
    pub open spec fn size_reply(self) -> Result<(u32, u32), ErrorCode> {
        Ok(
            (
                low_u32(self.content.len() as int),
                (self.content.len() / 0x1_0000_0000) as u32,
            ),
        )
    }

    /// The entry after its cursor was moved.
    pub open spec fn moved(self, request: SetFilePointer) -> Entry {
        Entry { cursor: request.position as nat, ..self }
    }

    /// How many bytes a read hands over: as many as were asked for, or as
    /// are left after the cursor.
    pub open spec fn available(self, request: ReadFile) -> nat {
        if self.cursor >= self.content.len() {
            0
        } else if self.content.len() - self.cursor < request.len {
            (self.content.len() - self.cursor) as nat
        } else {
            request.len as nat
        }
    }

    /// The buffer after a read: the bytes from the cursor on at its start,
    /// zero bytes after them.
    pub open spec fn filled(self, request: ReadFile) -> Seq<u8> {
        Seq::new(
            request.size as nat,
            |i: int|
                if i < self.available(request) {
                    self.content[self.cursor + i]
                } else {
                    0u8
                },
        )
    }

    /// The entry after a read: the cursor stands behind what was read.
    pub open spec fn advanced(self, request: ReadFile) -> Entry {
        Entry { cursor: self.cursor + self.available(request), ..self }
    }
}

/// A whole read of `entry` through an open file in state `state`: each
/// request that the file hands out is answered as the model says, and the
/// file goes on with the answer. The result is the file's state and the
/// entry after the read, and what the read returned.
///
/// A file asks at most three times: to rewind, for the size, and to read. A
/// file that asked for something else in the third place would not be
/// served; [`lemma_read_through_completes`] shows that none does.
pub open spec fn read_through(state: FileState, entry: Entry) -> (
    FileState,
    Entry,
    Result<Seq<u8>, StormError>,
) {
    let (begun, first) = state.read_all();
    let (rewound, at_start, second) = match first {
        ReadStep::Rewind(request) => (
            begun.after_rewind(Ok(())).0,
            entry.moved(request),
            begun.after_rewind(Ok(())).1,
        ),
        _ => (begun, entry, Ok(first)),
    };
    let (sized, third) = match second {
        Ok(ReadStep::QuerySize(_)) => rewound.after_size(at_start.size_reply()),
        _ => (rewound, second),
    };
    match third {
        Ok(ReadStep::Read(request)) => (
            sized,
            at_start.advanced(request),
            Ok(kept(request.size, at_start.filled(request), at_start.available(request) as u32)),
        ),
        Ok(_) => (sized, at_start, Err(StormError::CanNotComplete)),
        Err(e) => (sized, at_start, Err(e)),
    }
}

/// Every read comes to its end: whatever state a file is in, the third
/// request at the latest is the read itself.
pub proof fn lemma_read_through_completes(state: FileState, entry: Entry)
    ensures
        read_through(state, entry).2 is Ok,
        read_through(state, entry).0.need_reset,
        read_through(state, entry).0.size is Some,
{
}

/// A file and an entry that belong together: the engine can tell the size
/// of the entry, the file has not been told a wrong one, and the cursor of a
/// fresh file stands at the start.
pub open spec fn in_step(state: FileState, entry: Entry) -> bool {
    &&& entry.content.len() <= u64::MAX
    &&& entry.has_reportable_size()
    &&& entry.cursor <= entry.content.len()
    &&& state.size matches Some(size) ==> size == entry.content.len()
    &&& !state.need_reset ==> entry.cursor == 0
}

/// A file and the entry it was opened on are in step from the start, and
/// stay so when the file learns the size.
pub proof fn lemma_in_step_from_the_start(handle: usize, content: Seq<u8>)
    requires
        content.len() <= u64::MAX,
        Entry::opened(content).has_reportable_size(),
    ensures
        in_step(FileState::fresh(handle), Entry::opened(content)),
        in_step(
            FileState::fresh(handle).size_received(Entry::opened(content).size_reply()).0,
            Entry::opened(content),
        ),
        FileState::fresh(handle).size_received(Entry::opened(content).size_reply()).1 == Ok::<
            u64,
            StormError,
        >(content.len() as u64),
{
    lemma_join_of_halves(content.len() as u64);
}

/// Where the engine can tell the size of an entry, the answer of the model
/// is the answer that the layer makes of the engine's return, whatever the
/// last-error slot holds; where it cannot, the layer takes the return for a
/// failure.
pub proof fn lemma_size_reply_is_the_layers(entry: Entry, last_error: u32)
    requires
        entry.content.len() <= u64::MAX,
    ensures
        ({
            let low = low_u32(entry.content.len() as int);
            let high = (entry.content.len() / 0x1_0000_0000) as u32;
            &&& entry.has_reportable_size() ==> size_replied(low, high, last_error)
                == entry.size_reply()
            &&& !entry.has_reportable_size() ==> size_replied(low, high, last_error) == Err::<
                (u32, u32),
                ErrorCode,
            >(ErrorCode(last_error))
        }),
{
}

/// The part of the content that one read returns: all of it, unless the
/// content is longer than the engine can be asked for at once.
pub open spec fn readable(content: Seq<u8>) -> Seq<u8> {
    content.subrange(0, low_u32(content.len() as int) as int)
}

/// One read returns the content from its start, leaves the file consumed
/// with the size known, and leaves file and entry in step.
pub proof fn lemma_read_all_returns_content(state: FileState, entry: Entry)
    requires
        in_step(state, entry),
    ensures
        ({
            let (after, left, data) = read_through(state, entry);
            &&& data == Ok::<Seq<u8>, StormError>(readable(entry.content))
            &&& entry.content.len() <= u32::MAX ==> data == Ok::<Seq<u8>, StormError>(
                entry.content,
            )
            &&& after.need_reset
            &&& after.size == Some(entry.content.len() as u64)
            &&& after.handle == state.handle
            &&& left.content == entry.content
            &&& in_step(after, left)
        }),
{
    let len = entry.content.len();
    let size = len as u64;
    lemma_join_of_halves(size);
    let (begun, first) = state.read_all();
    let at_start = if state.need_reset {
        entry.moved(SetFilePointer { file: state.handle, position: 0 })
    } else {
        entry
    };
    assert(at_start.cursor == 0);
    let request = ReadFile { file: state.handle, len: low_u32(size as int), size };
    assert(request.len <= len);
    assert(at_start.available(request) == request.len);
    let (after, left, data) = read_through(state, entry);
    assert(left == at_start.advanced(request));
    assert(data == Ok::<Seq<u8>, StormError>(
        kept(size, at_start.filled(request), request.len),
    ));
    assert(kept(size, at_start.filled(request), request.len) =~= readable(entry.content));
    if len <= u32::MAX {
        assert(readable(entry.content) =~= entry.content);
    }
}

/// Reading an entry twice returns the same bytes both times: the second
/// read rewinds the cursor that the first one moved, and asks for as much.
pub proof fn lemma_read_all_repeats(state: FileState, entry: Entry)
    requires
        in_step(state, entry),
    ensures
        ({
            let (after, left, first) = read_through(state, entry);
            let (_, _, second) = read_through(after, left);
            first is Ok && second == first
        }),
{
    lemma_read_all_returns_content(state, entry);
    let (after, left, first) = read_through(state, entry);
    lemma_read_all_returns_content(after, left);
}

/// The second read of an entry starts by rewinding, and no read after the
/// first asks for the size again.
pub proof fn lemma_second_read_rewinds(state: FileState, entry: Entry)
    requires
        in_step(state, entry),
    ensures
        ({
            let (after, _, _) = read_through(state, entry);
            &&& after.read_all().1 == ReadStep::Rewind(
                SetFilePointer { file: state.handle, position: 0 },
            )
            &&& after.after_rewind(Ok(())).1 matches Ok(ReadStep::Read(_))
        }),
{
    lemma_read_all_returns_content(state, entry);
}

/// The size is asked of the engine once. An entry whose size is not known
/// asks for it; once the engine has answered, the entry knows the size,
/// returns it without asking, and keeps it whatever it is told later.
pub proof fn lemma_size_is_asked_once(
    state: FileState,
    low: u32,
    high: u32,
    later: Result<(u32, u32), ErrorCode>,
)
    requires
        state.size is None,
    ensures
        ({
            let (after, first) = state.size_received(Ok((low, high)));
            &&& state.get_size() == SizeStep::Query(
                crate::engine::GetFileSize { file: state.handle },
            )
            &&& first == Ok::<u64, StormError>(joined(low, high))
            &&& after.get_size() == SizeStep::Known(joined(low, high))
            &&& after.size_received(later) == (after, first)
            &&& !(after.read_all().1 is QuerySize)
            &&& !(after.after_rewind(Ok(())).1 matches Ok(ReadStep::QuerySize(_)))
        }),
{
}

/// A container as the engine holds it: the content of each entry, by the
/// entry's encoded name.
pub struct Container {
    pub entries: Map<Seq<u8>, Seq<u8>>,
}

impl Container {
    /// The engine's answer to the question whether `name` is there.
    pub open spec fn has_reply(self, name: Seq<u8>) -> Result<(), ErrorCode> {
        if self.entries.dom().contains(name) {
            Ok(())
        } else {
            Err(ErrorCode(ERROR_FILE_NOT_FOUND))
        }
    }

    /// The engine's answer to the removal of `name`.
    pub open spec fn remove_reply(self, name: Seq<u8>) -> Result<(), ErrorCode> {
        self.has_reply(name)
    }

    /// The container after the removal of `name`.
    pub open spec fn removed(self, name: Seq<u8>) -> Container {
        Container { entries: self.entries.remove(name) }
    }

    /// The container after `size` bytes of `data` were written as the entry
    /// `name` and the entry was finalised.
    pub open spec fn written(self, name: Seq<u8>, data: Seq<u8>, size: u32) -> Container {
        Container { entries: self.entries.insert(name, data.subrange(0, size as int)) }
    }
}

/// Whatever a container holds, asking for an entry that is not in it, or
/// removing one, is answered `Ok(false)`, and asking for one that is in it
/// is answered `Ok(true)`.
pub proof fn lemma_absent_entry_is_false(container: Container, name: Seq<u8>)
    ensures
        !container.entries.dom().contains(name) ==> {
            &&& found(container.has_reply(name)) == Ok::<bool, StormError>(false)
            &&& found(container.remove_reply(name)) == Ok::<bool, StormError>(false)
        },
        container.entries.dom().contains(name) ==> {
            &&& found(container.has_reply(name)) == Ok::<bool, StormError>(true)
            &&& found(container.remove_reply(name)) == Ok::<bool, StormError>(true)
        },
{
}

/// What was written is what is read. After `data` was written as an entry,
/// an entry opened under that name and read through a fresh file returns
/// `data`, provided the payload is shorter than the 2^32 - 1 bytes from
/// which on the engine can no longer count or tell its length.
pub proof fn lemma_write_then_read(container: Container, name: Seq<u8>, data: Seq<u8>, file: usize)
    requires
        data.len() < u32::MAX,
    ensures
        ({
            let after = container.written(name, data, low_u32(data.len() as int));
            let entry = Entry::opened(after.entries[name]);
            &&& found(after.has_reply(name)) == Ok::<bool, StormError>(true)
            &&& read_through(FileState::fresh(file), entry).2 == Ok::<Seq<u8>, StormError>(data)
        }),
{
    let after = container.written(name, data, low_u32(data.len() as int));
    assert(after.entries[name] =~= data);
    let entry = Entry::opened(after.entries[name]);
    lemma_read_all_returns_content(FileState::fresh(file), entry);
}

} // verus!
