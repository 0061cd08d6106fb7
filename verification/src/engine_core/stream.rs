use crate::interop::vtable::{destructor, methods, Slot, Vtable, VtableLayout};
use vstd::prelude::*;

verus! {

/// What state a stream of the engine is in.
#[derive(Debug, Copy, Clone, PartialEq, Eq, Structural)]
pub enum StreamStatus {
    Okay,
    IoError,
    Eos,
    IllegalCall,
    Closed,
    UnknownError,
}

/// A stream of the engine: the address of its dispatch table, then its
/// status.
#[derive(Debug, Copy, Clone, PartialEq, Eq, Structural)]
pub struct Stream {
    vtable: usize,
    status: StreamStatus,
}

/// The names of the methods of a stream, which follow its destructor.
pub const STREAM_METHODS: [&'static str; 8] = [
    "read",
    "write",
    "has_capability",
    "get_position",
    "set_position",
    "get_stream_size",
    "read_string",
    "write_string",
];

/// The table of a stream.
#[derive(Debug, Clone, Copy, PartialEq, Eq)]
pub struct StreamVtable;

impl StreamVtable {
    /// The slots of the table: the destructor, then the methods.
    pub open spec fn slots() -> Seq<Slot> {
        seq![destructor("Stream")] + methods(STREAM_METHODS@)
    }

    /// Returns the slots of the table.
    pub fn layout() -> (layout: VtableLayout)
        ensures
            layout@ == Self::slots(),
    {
        let layout = VtableLayout::empty().with_destructor("Stream").with_methods(
            STREAM_METHODS.as_slice(),
        );
        assert(layout@ =~= Self::slots());
        layout
    }
}

impl Vtable for Stream {
    type Vtable = StreamVtable;

    closed spec fn table(&self) -> usize {
        self.vtable
    }

    fn vtable(&self) -> (address: usize) {
        self.vtable
    }
}

/// Where to seek to: so far from the start, from the present position or
/// from the end.
#[derive(Debug, Copy, Clone, PartialEq, Eq, Structural)]
pub enum SeekFrom {
    Start(u64),
    Current(i64),
    End(i64),
}

/// What a seek does to a stream.
#[derive(Debug, Copy, Clone, PartialEq, Eq, Structural)]
pub enum SeekPlan {
    /// Nothing: the present position is the answer.
    Tell,
    /// The position is set to this.
    Move(u32),
}

/// Why an operation on a stream fails.
#[derive(Debug, Copy, Clone, PartialEq, Eq, Structural)]
pub enum StreamError {
    ReadFailed,
    SeekFailed,
    WriteFailed,
}

impl StreamError {
    /// The text of the error.
    pub open spec fn text(self) -> Seq<char> {
        match self {
            StreamError::ReadFailed => "TGE stream read failed"@,
            StreamError::SeekFailed => "TGE stream seek failed"@,
            StreamError::WriteFailed => "TGE stream write failed"@,
        }
    }

    /// The text of the error.
    pub fn message(self) -> (m: &'static str)
        ensures
            m@ == self.text(),
    {
        match self {
            StreamError::ReadFailed => "TGE stream read failed",
            StreamError::SeekFailed => "TGE stream seek failed",
            StreamError::WriteFailed => "TGE stream write failed",
        }
    }
}

/// What a seek does to a stream that stands at `position` and holds `size`
/// bytes. The engine counts positions in thirty-two bits: a target keeps its
/// low thirty-two bits, and a sum wraps round.
pub open spec fn seek_plan(pos: SeekFrom, position: u32, size: u32) -> SeekPlan {
    match pos {
        SeekFrom::Start(offset) => SeekPlan::Move(offset as u32),
        SeekFrom::Current(offset) => if offset == 0 {
            SeekPlan::Tell
        } else {
            SeekPlan::Move(((position + (offset as u32)) % 0x1_0000_0000) as u32)
        },
        SeekFrom::End(offset) => SeekPlan::Move(
            ((size + (offset as u32)) % 0x1_0000_0000) as u32,
        ),
    }
}

impl Stream {
    /// The status of the stream.
    pub closed spec fn status_of(&self) -> StreamStatus {
        self.status
    }

    /// A stream with the table at `vtable`, in the state `status`.
    pub fn new(vtable: usize, status: StreamStatus) -> (stream: Self)
        ensures
            stream.table() == vtable,
            stream.status_of() == status,
    {
        Stream { vtable, status }
    }

    /// Returns the status of the stream.
    pub fn status(&self) -> (status: StreamStatus)
        ensures
            status == self.status_of(),
    {
        self.status
    }

    /// Tells whether a read asks the engine at all: at the end of the stream
    /// it does not, and nothing is read.
    pub fn reads(&self) -> (ask: bool)
        ensures
            ask == !(self.status_of() is Eos),
    {
        match self.status {
            StreamStatus::Eos => false,
            _ => true,
        }
    }

    /// The outcome of a read for which the engine was asked: the stream
    /// stood at `start` before, the engine answered `ok`, and the stream
    /// stands at `end` after. The engine does not tell how many bytes it
    /// read; the positions do.
    pub fn read(start: u32, ok: bool, end: u32) -> (r: Result<usize, StreamError>)
        requires
            ok ==> start <= end,
        ensures
            r == if ok {
                Ok::<usize, StreamError>((end - start) as usize)
            } else {
                Err::<usize, StreamError>(StreamError::ReadFailed)
            },
    {
        if ok {
            Ok((end - start) as usize)
        } else {
            Err(StreamError::ReadFailed)
        }
    }

    /// Decides what a seek does.
    pub fn seek(pos: SeekFrom, position: u32, size: u32) -> (plan: SeekPlan)
        ensures
            plan == seek_plan(pos, position, size),
    {
        match pos {
            SeekFrom::Start(offset) => SeekPlan::Move(#[verifier::truncate] (offset as u32)),
            SeekFrom::Current(offset) => {
                if offset == 0 {
                    SeekPlan::Tell
                } else {
                    SeekPlan::Move(position.wrapping_add(#[verifier::truncate] (offset as u32)))
                }
            },
            SeekFrom::End(offset) => SeekPlan::Move(
                size.wrapping_add(#[verifier::truncate] (offset as u32)),
            ),
        }
    }

    /// The outcome of a seek: the position that the stream has after it, or
    /// a failure where the engine refused to move.
    pub fn seek_result(plan: SeekPlan, position: u32, moved: bool) -> (r: Result<
        u64,
        StreamError,
    >)
        ensures
            r == match plan {
                SeekPlan::Tell => Ok::<u64, StreamError>(position as u64),
                SeekPlan::Move(target) => if moved {
                    Ok::<u64, StreamError>(target as u64)
                } else {
                    Err::<u64, StreamError>(StreamError::SeekFailed)
                },
            },
    {
        match plan {
            SeekPlan::Tell => Ok(position as u64),
            SeekPlan::Move(target) => {
                if moved {
                    Ok(target as u64)
                } else {
                    Err(StreamError::SeekFailed)
                }
            },
        }
    }

    /// The outcome of a write of `len` bytes to which the engine answered
    /// `ok`: all of them are written, or none is known to be.
    pub fn write(len: usize, ok: bool) -> (r: Result<usize, StreamError>)
        ensures
            r == if ok {
                Ok::<usize, StreamError>(len)
            } else {
                Err::<usize, StreamError>(StreamError::WriteFailed)
            },
    {
        if ok {
            Ok(len)
        } else {
            Err(StreamError::WriteFailed)
        }
    }
}

} // verus!
