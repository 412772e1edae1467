//! Bookkeeping of one load session.

use crate::interfaces::DalsError;
use vstd::prelude::*;

verus! {

/// The phases of the loader's state machine.
#[derive(Clone, Copy, PartialEq, Eq, Debug, Structural)]
pub enum State {
    /// No request is outstanding: the loader waits for `start_loading` or,
    /// inside a session, for the next chunk.
    Idle,
    /// A raw chunk was handed to the decompressor.
    Decompressing,
    /// A chunk other than the last one is being written to flash.
    Writing,
    /// The last chunk is being written to flash.
    WritingFinal,
    /// The complete image is being verified.
    Verifying,
    /// The verified image is being authorized.
    Authorizing,
    /// The last session ended with an authorized image.
    Done,
}

/// How a session ended.
#[derive(Clone, Copy, PartialEq, Eq, Debug, Structural)]
pub enum SessionOutcome {
    /// The image was authorized and is ready for process creation.
    Done,
    /// The session was aborted; what was written to flash must be discarded.
    Error(DalsError),
}

/// Mathematical model of a [`LoadSession`].
pub struct SessionModel {
    pub state: State,
    /// Flash offset of the first byte of the image.
    pub base_address: nat,
    /// Size of the image as announced when the session was opened.
    pub declared_size: nat,
    /// Next flash offset to write.
    pub write_cursor: nat,
    /// Bytes whose write has completed.
    pub bytes_written: nat,
    /// Whether the last chunk of the image has been received.
    pub final_chunk: bool,
}

impl SessionModel {
    /// What holds of every session at all times.
    pub open spec fn wf(self) -> bool {
        &&& self.state != State::Done
        &&& self.base_address + self.declared_size <= usize::MAX
        &&& self.bytes_written <= self.declared_size
        &&& self.base_address + self.bytes_written <= self.write_cursor
        &&& self.write_cursor <= self.base_address + self.declared_size
        &&& (self.writing() || self.write_cursor == self.base_address + self.bytes_written)
        &&& (self.state == State::Idle || self.state == State::Writing ==> !self.final_chunk)
        &&& (self.state == State::WritingFinal ==> self.final_chunk && self.write_cursor
            == self.base_address + self.declared_size)
        &&& (self.state == State::Verifying || self.state == State::Authorizing
            ==> self.final_chunk && self.bytes_written == self.declared_size)
    }

    /// Whether a flash write is in flight.
    pub open spec fn writing(self) -> bool {
        self.state == State::Writing || self.state == State::WritingFinal
    }

    /// Whether a request to some collaborator is outstanding.
    pub open spec fn busy(self) -> bool {
        self.state != State::Idle
    }

    /// Length of the flash write in flight, 0 if there is none.
    pub open spec fn pending(self) -> nat {
        (self.write_cursor - self.base_address - self.bytes_written) as nat
    }

    /// The session as `start_loading` creates it.
    pub open spec fn fresh(base_address: nat, declared_size: nat) -> SessionModel {
        SessionModel {
            state: State::Idle,
            base_address,
            declared_size,
            write_cursor: base_address,
            bytes_written: 0,
            final_chunk: false,
        }
    }

    /// Whether an empty chunk with this flag is in order: an empty last chunk
    /// is, only if the whole image is on flash already.
    pub open spec fn admits_chunk(self, length: nat, completed: bool) -> bool {
        length == 0 && completed ==> self.bytes_written == self.declared_size
    }

    /// Whether `length` decompressed bytes are in order for the chunk in
    /// flight: they must not overrun the declared size, and the last chunk must
    /// complete it exactly.
    pub open spec fn admits_write(self, length: nat) -> bool {
        &&& self.bytes_written + length <= self.declared_size
        &&& (self.final_chunk ==> self.bytes_written + length == self.declared_size)
    }

    /// The session after a chunk was handed to the decompressor.
    pub open spec fn chunk_accepted(self, completed: bool) -> SessionModel {
        SessionModel { state: State::Decompressing, final_chunk: completed, ..self }
    }

    /// The session after a write of `length` bytes was issued at the cursor.
    pub open spec fn write_issued(self, length: nat) -> SessionModel {
        SessionModel {
            state: if self.final_chunk {
                State::WritingFinal
            } else {
                State::Writing
            },
            write_cursor: self.write_cursor + length,
            ..self
        }
    }

    /// The session after the write in flight completed.
    pub open spec fn write_completed(self) -> SessionModel {
        SessionModel {
            state: if self.state == State::WritingFinal {
                State::Verifying
            } else {
                State::Idle
            },
            bytes_written: self.bytes_written + self.pending(),
            ..self
        }
    }

    /// The session after the image passed verification.
    pub open spec fn verified(self) -> SessionModel {
        SessionModel { state: State::Authorizing, ..self }
    }
}

/// The record of a load in progress. It exists from a successful
/// `start_loading` until the session ends in success or failure.
#[derive(Clone, Copy, PartialEq, Eq, Debug)]
pub struct LoadSession {
    state: State,
    base_address: usize,
    declared_size: usize,
    write_cursor: usize,
    bytes_written: usize,
    final_chunk: bool,
}

impl View for LoadSession {
    type V = SessionModel;

    closed spec fn view(&self) -> SessionModel {
        SessionModel {
            state: self.state,
            base_address: self.base_address as nat,
            declared_size: self.declared_size as nat,
            write_cursor: self.write_cursor as nat,
            bytes_written: self.bytes_written as nat,
            final_chunk: self.final_chunk,
        }
    }
}

impl LoadSession {
    #[verifier::type_invariant]
    spec fn inv(self) -> bool {
        self@.wf()
    }

    /// Opens a session for `declared_size` bytes at `base_address`.
    pub(crate) fn begin(base_address: usize, declared_size: usize) -> (r: LoadSession)
        requires
            base_address + declared_size <= usize::MAX,
        ensures
            r@ == SessionModel::fresh(base_address as nat, declared_size as nat),
    {
        LoadSession {
            state: State::Idle,
            base_address,
            declared_size,
            write_cursor: base_address,
            bytes_written: 0,
            final_chunk: false,
        }
    }

    /// Current phase of the session.
    pub fn state(&self) -> (r: State)
        ensures
            r == self@.state,
    {
        self.state
    }

    /// Flash offset of the first byte of the image.
    pub fn base_address(&self) -> (r: usize)
        ensures
            r == self@.base_address,
    {
        self.base_address
    }

    /// Size of the image as announced when the session was opened.
    pub fn declared_size(&self) -> (r: usize)
        ensures
            r == self@.declared_size,
    {
        self.declared_size
    }

    /// Next flash offset to write.
    pub fn write_cursor(&self) -> (r: usize)
        ensures
            r == self@.write_cursor,
    {
        self.write_cursor
    }

    /// Bytes whose write has completed.
    pub fn bytes_written(&self) -> (r: usize)
        ensures
            r == self@.bytes_written,
    {
        self.bytes_written
    }

    /// Whether the last chunk of the image has been received.
    pub fn final_chunk(&self) -> (r: bool)
        ensures
            r == self@.final_chunk,
    {
        self.final_chunk
    }

    /// Length of the flash write in flight, 0 if there is none.
    pub fn pending(&self) -> (r: usize)
        ensures
            r == self@.pending(),
    {
        proof {
            use_type_invariant(self);
        }
        self.write_cursor - self.base_address - self.bytes_written
    }

    /// Whether an empty chunk with this flag is in order.
    pub fn admits_chunk(&self, length: usize, completed: bool) -> (r: bool)
        ensures
            r == self@.admits_chunk(length as nat, completed),
    {
        !(length == 0 && completed) || self.bytes_written == self.declared_size
    }

    /// Whether `length` decompressed bytes are in order for the chunk in flight.
    pub fn admits_write(&self, length: usize) -> (r: bool)
        ensures
            r == self@.admits_write(length as nat),
    {
        proof {
            use_type_invariant(self);
        }
        let room: usize = self.declared_size - self.bytes_written;
        length <= room && (!self.final_chunk || length == room)
    }

    /// Records that a chunk was handed to the decompressor.
    pub(crate) fn chunk_accepted(self, completed: bool) -> (r: LoadSession)
        requires
            self@.state == State::Idle,
        ensures
            r@ == self@.chunk_accepted(completed),
    {
        proof {
            use_type_invariant(self);
        }
        LoadSession { state: State::Decompressing, final_chunk: completed, ..self }
    }

    /// Records that a write of `length` bytes was issued at the cursor.
    pub(crate) fn write_issued(self, length: usize) -> (r: LoadSession)
        requires
            self@.state == State::Decompressing,
            self@.admits_write(length as nat),
        ensures
            r@ == self@.write_issued(length as nat),
    {
        proof {
            use_type_invariant(self);
        }
        let state: State = if self.final_chunk {
            State::WritingFinal
        } else {
            State::Writing
        };
        LoadSession { state, write_cursor: self.write_cursor + length, ..self }
    }

    /// Records that the write in flight completed.
    pub(crate) fn write_completed(self) -> (r: LoadSession)
        requires
            self@.writing(),
        ensures
            r@ == self@.write_completed(),
    {
        proof {
            use_type_invariant(self);
        }
        let state: State = if self.state == State::WritingFinal {
            State::Verifying
        } else {
            State::Idle
        };
        LoadSession { state, bytes_written: self.write_cursor - self.base_address, ..self }
    }

    /// Records that the image passed verification.
    pub(crate) fn verified(self) -> (r: LoadSession)
        requires
            self@.state == State::Verifying,
        ensures
            r@ == self@.verified(),
    {
        proof {
            use_type_invariant(self);
        }
        LoadSession { state: State::Authorizing, ..self }
    }
}

} // verus!
