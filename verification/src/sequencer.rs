//! The loader's state machine.
//!
//! A [`Sequencer`] owns the control state of the loader: the flash region, the
//! session in progress if there is one, and how the last session ended. It
//! calls no collaborator itself. Given an [`Event`] it moves to the next state
//! and returns the [`Command`]s to carry out, in order. The state is updated
//! before the commands are handed out, so a completion that arrives while a
//! command is still being carried out finds the state that awaits it.

use crate::interfaces::DalsError;
use crate::session::{LoadSession, SessionModel, SessionOutcome, State};
use vstd::prelude::*;

verus! {

/// What the loader is told: a chunk from the data source, or the completion
/// of a request it made.
#[derive(PartialEq, Eq, Debug)]
pub enum Event<B> {
    /// The data source delivers a raw chunk of `length` bytes; `completed`
    /// marks the last chunk of the image.
    Chunk { buffer: B, length: usize, completed: bool },
    /// The decompressor is done with a chunk.
    Decompressed {
        decompressed_buffer: B,
        decompressed_length: usize,
        original_buffer: B,
        status: Result<(), DalsError>,
    },
    /// The storage refused the write request it was just given, and keeps
    /// the buffer that came with the request.
    WriteRefused,
    /// The storage is done with a write and reports `length` bytes written.
    Written { buffer: B, length: usize },
    /// The verifier is done; `error` is `None` if the image passed.
    Verified { error: Option<DalsError> },
    /// The authorizer is done.
    Authorized { status: Result<(), DalsError> },
}

/// What the loader asks of a collaborator. Each variant stands for one method
/// of one capability trait.
#[derive(PartialEq, Eq, Debug)]
pub enum Command<B> {
    /// `Decompressor::decompress_buffer`
    Decompress { buffer: B, length: usize },
    /// `AppLoaderClient::return_buffer`
    ReturnBuffer { buffer: B },
    /// `NonvolatileStorage::write`; where it is issued, it is the last
    /// command of the reaction.
    Write { buffer: B, offset: usize, length: usize },
    /// `Decompressor::return_buffer`
    ReleaseBuffer { buffer: B },
    /// `Verifier::verify_data`
    Verify { base_address: usize, length: usize },
    /// `Authorizer::authorize_data`
    Authorize { base_address: usize, length: usize },
    /// `AppLoaderClient::return_error`
    ReturnError { error: DalsError },
    /// `AppLoaderClient::loading_done`
    LoadingDone,
}

/// The collaborators of the loader.
#[derive(Clone, Copy, PartialEq, Eq, Debug, Structural)]
pub enum Role {
    DataSource,
    Decompressor,
    Storage,
    Verifier,
    Authorizer,
}

impl<B> Event<B> {
    /// The buffers that come with the event, in the order in which the loader
    /// hands them on.
    pub open spec fn buffers(self) -> Seq<B> {
        match self {
            Event::Chunk { buffer, .. } => seq![buffer],
            Event::Decompressed { decompressed_buffer, original_buffer, .. } => seq![
                original_buffer,
                decompressed_buffer,
            ],
            Event::WriteRefused => seq![],
            Event::Written { buffer, .. } => seq![buffer],
            Event::Verified { .. } => seq![],
            Event::Authorized { .. } => seq![],
        }
    }
}

impl<B> Command<B> {
    /// Whether the command is a request, that is, has a completion that the
    /// loader waits for.
    pub open spec fn is_request(self) -> bool {
        self is Decompress || self is Write || self is Verify || self is Authorize
    }

    /// The collaborator that the command is for.
    pub open spec fn recipient(self) -> Role {
        match self {
            Command::Decompress { .. } => Role::Decompressor,
            Command::ReturnBuffer { .. } => Role::DataSource,
            Command::Write { .. } => Role::Storage,
            Command::ReleaseBuffer { .. } => Role::Decompressor,
            Command::Verify { .. } => Role::Verifier,
            Command::Authorize { .. } => Role::Authorizer,
            Command::ReturnError { .. } => Role::DataSource,
            Command::LoadingDone => Role::DataSource,
        }
    }

    /// Whether one of `commands` is for the collaborator `role`.
    pub open spec fn any_for(commands: Seq<Command<B>>, role: Role) -> bool {
        exists|i: int| 0 <= i < commands.len() && #[trigger] commands[i].recipient() == role
    }

    /// The buffer that changes hands with the command.
    pub open spec fn buffers(self) -> Seq<B> {
        match self {
            Command::Decompress { buffer, .. } => seq![buffer],
            Command::ReturnBuffer { buffer } => seq![buffer],
            Command::Write { buffer, .. } => seq![buffer],
            Command::ReleaseBuffer { buffer } => seq![buffer],
            Command::Verify { .. } => seq![],
            Command::Authorize { .. } => seq![],
            Command::ReturnError { .. } => seq![],
            Command::LoadingDone => seq![],
        }
    }

    /// Number of bytes that the command asks the storage to write.
    pub open spec fn write_length(self) -> nat {
        match self {
            Command::Write { length, .. } => length as nat,
            _ => 0,
        }
    }
}

/// Mathematical model of a [`Sequencer`].
pub struct SequencerModel {
    /// Flash offset at which every image starts.
    pub base_address: nat,
    /// Number of bytes available at `base_address`.
    pub capacity: nat,
    /// The session in progress.
    pub session: Option<SessionModel>,
    /// How the last session ended, until the next one is opened.
    pub outcome: Option<SessionOutcome>,
}

/// The next state together with the commands to carry out, in order.
pub struct Reaction<B> {
    pub next: SequencerModel,
    pub commands: Seq<Command<B>>,
}

impl<B> Reaction<B> {
    /// Whether the reaction has a command for the collaborator `role`.
    pub open spec fn calls(self, role: Role) -> bool {
        Command::any_for(self.commands, role)
    }

    /// Whether the reaction starts by handing a buffer back to the data
    /// source.
    pub open spec fn returns_buffer(self) -> bool {
        self.commands.len() > 0 && self.commands[0] is ReturnBuffer
    }

    /// Whether the reaction asks the storage to write.
    pub open spec fn issues_write(self) -> bool {
        self.commands.len() > 0 && self.commands.last() is Write
    }

    /// The state in which the reaction leaves the sequencer if the storage
    /// refuses the write that it issues.
    pub open spec fn next_if_refused(self) -> SequencerModel {
        self.next.react(Event::<B>::WriteRefused).next
    }
}

impl SequencerModel {
    /// What holds of every sequencer at all times.
    pub open spec fn wf(self) -> bool {
        self.session matches Some(s) ==> {
            &&& s.wf()
            &&& s.base_address == self.base_address
            &&& s.declared_size <= self.capacity
            &&& self.outcome is None
        }
    }

    /// The phase shown to the outside: that of the session in progress, else
    /// `Done` after an authorized image, else `Idle`.
    pub open spec fn state(self) -> State {
        match self.session {
            Some(s) => s.state,
            None => if self.outcome == Some(SessionOutcome::Done) {
                State::Done
            } else {
                State::Idle
            },
        }
    }

    /// Whether the session in progress is in phase `state`.
    pub open spec fn session_in(self, state: State) -> bool {
        self.session matches Some(s) && s.state == state
    }

    /// Whether a session is in progress and waits for its next chunk.
    pub open spec fn awaiting_chunk(self) -> bool {
        self.session_in(State::Idle)
    }

    /// Whether a flash write is in flight.
    pub open spec fn writing(self) -> bool {
        self.session matches Some(s) && s.writing()
    }

    /// Whether an image of `app_size` bytes fits into the flash region.
    pub open spec fn fits(self, app_size: nat) -> bool {
        app_size <= self.capacity && self.base_address + app_size <= usize::MAX
    }

    /// Number of requests whose completion is outstanding: 0 or 1.
    pub open spec fn outstanding(self) -> nat {
        if self.session matches Some(s) && s.busy() {
            1
        } else {
            0
        }
    }

    /// Whether `event` is the completion of the outstanding request.
    pub open spec fn completes<B>(self, event: Event<B>) -> bool {
        match event {
            Event::Chunk { .. } => false,
            Event::Decompressed { .. } => self.session_in(State::Decompressing),
            Event::WriteRefused => self.writing(),
            Event::Written { .. } => self.writing(),
            Event::Verified { .. } => self.session_in(State::Verifying),
            Event::Authorized { .. } => self.session_in(State::Authorizing),
        }
    }

    /// The failure that `event` reports of the outstanding request, if any.
    pub open spec fn failure<B>(self, event: Event<B>) -> Option<DalsError> {
        if !self.completes(event) {
            None
        } else {
            match event {
                Event::Chunk { .. } => None,
                Event::Decompressed { status, .. } => if status is Err {
                    Some(DalsError::DecompressionFailed)
                } else {
                    None
                },
                Event::WriteRefused => Some(DalsError::StorageWriteFailed),
                Event::Written { length, .. } => if length != self.session->0.pending() {
                    Some(DalsError::StorageWriteFailed)
                } else {
                    None
                },
                Event::Verified { error } => if error is Some {
                    Some(DalsError::VerificationFailed)
                } else {
                    None
                },
                Event::Authorized { status } => if status is Err {
                    Some(DalsError::AuthorizationFailed)
                } else {
                    None
                },
            }
        }
    }

    /// Whether the session in progress in `self` has ended in failure in
    /// `after`.
    pub open spec fn failed_into(self, after: SequencerModel) -> bool {
        self.session is Some && after.session is None && after.outcome matches Some(
            SessionOutcome::Error(_),
        )
    }

    /// Whether the session in progress in `self` has ended in `after` with an
    /// authorized image.
    pub open spec fn done_into(self, after: SequencerModel) -> bool {
        self.session is Some && after.session is None && after.outcome == Some(
            SessionOutcome::Done,
        )
    }

    /// The sequencer with `session` in progress.
    pub open spec fn with_session(self, session: SessionModel) -> SequencerModel {
        SequencerModel { session: Some(session), outcome: None, ..self }
    }

    /// The sequencer after its session ended with `outcome`.
    pub open spec fn ended(self, outcome: SessionOutcome) -> SequencerModel {
        SequencerModel { session: None, outcome: Some(outcome), ..self }
    }

    /// What `start_loading` answers.
    pub open spec fn start_result(self, app_size: nat) -> Result<(), DalsError> {
        if self.session is Some {
            Err(DalsError::SessionBusy)
        } else if !self.fits(app_size) {
            Err(DalsError::InsufficientSpace)
        } else {
            Ok(())
        }
    }

    /// The sequencer after `start_loading`: with a fresh session if the call
    /// succeeds, unchanged if it fails.
    pub open spec fn started(self, app_size: nat) -> SequencerModel {
        if self.start_result(app_size) is Ok {
            self.with_session(SessionModel::fresh(self.base_address, app_size))
        } else {
            self
        }
    }

    /// Reaction to a chunk from the data source.
    pub open spec fn on_chunk<B>(self, buffer: B, length: usize, completed: bool) -> Reaction<B> {
        if !self.awaiting_chunk() {
            Reaction { next: self, commands: seq![Command::ReturnBuffer { buffer }] }
        } else if !self.session->0.admits_chunk(length as nat, completed) {
            Reaction {
                next: self.ended(SessionOutcome::Error(DalsError::SizeMismatch)),
                commands: seq![
                    Command::ReturnBuffer { buffer },
                    Command::ReturnError { error: DalsError::SizeMismatch },
                ],
            }
        } else {
            Reaction {
                next: self.with_session(self.session->0.chunk_accepted(completed)),
                commands: seq![Command::Decompress { buffer, length }],
            }
        }
    }

    /// The error that ends the session when the decompressor is done, if any.
    pub open spec fn decompressed_error(self, length: usize, status: Result<(), DalsError>) -> Option<
        DalsError,
    > {
        if status is Err {
            Some(DalsError::DecompressionFailed)
        } else if !self.session->0.admits_write(length as nat) {
            Some(DalsError::SizeMismatch)
        } else {
            None
        }
    }

    /// Reaction to the completion of a decompression.
    pub open spec fn on_decompressed<B>(
        self,
        decompressed_buffer: B,
        decompressed_length: usize,
        original_buffer: B,
        status: Result<(), DalsError>,
    ) -> Reaction<B> {
        if !self.session_in(State::Decompressing) {
            Reaction {
                next: self,
                commands: seq![
                    Command::ReturnBuffer { buffer: original_buffer },
                    Command::ReleaseBuffer { buffer: decompressed_buffer },
                ],
            }
        } else if let Some(error) = self.decompressed_error(decompressed_length, status) {
            Reaction {
                next: self.ended(SessionOutcome::Error(error)),
                commands: seq![
                    Command::ReturnBuffer { buffer: original_buffer },
                    Command::ReleaseBuffer { buffer: decompressed_buffer },
                    Command::ReturnError { error },
                ],
            }
        } else {
            Reaction {
                next: self.with_session(self.session->0.write_issued(decompressed_length as nat)),
                commands: seq![
                    Command::ReturnBuffer { buffer: original_buffer },
                    Command::Write {
                        buffer: decompressed_buffer,
                        offset: self.session->0.write_cursor as usize,
                        length: decompressed_length,
                    },
                ],
            }
        }
    }

    /// Reaction to the refusal of a write request.
    pub open spec fn on_write_refused<B>(self) -> Reaction<B> {
        if !self.writing() {
            Reaction { next: self, commands: seq![] }
        } else {
            Reaction {
                next: self.ended(SessionOutcome::Error(DalsError::StorageWriteFailed)),
                commands: seq![Command::ReturnError { error: DalsError::StorageWriteFailed }],
            }
        }
    }

    /// Reaction to the completion of a flash write.
    pub open spec fn on_written<B>(self, buffer: B, length: usize) -> Reaction<B> {
        if !self.writing() {
            Reaction { next: self, commands: seq![Command::ReleaseBuffer { buffer }] }
        } else if length != self.session->0.pending() {
            Reaction {
                next: self.ended(SessionOutcome::Error(DalsError::StorageWriteFailed)),
                commands: seq![
                    Command::ReleaseBuffer { buffer },
                    Command::ReturnError { error: DalsError::StorageWriteFailed },
                ],
            }
        } else if self.session_in(State::Writing) {
            Reaction {
                next: self.with_session(self.session->0.write_completed()),
                commands: seq![Command::ReleaseBuffer { buffer }],
            }
        } else {
            let session = self.session->0.write_completed();
            Reaction {
                next: self.with_session(session),
                commands: seq![
                    Command::ReleaseBuffer { buffer },
                    Command::Verify {
                        base_address: session.base_address as usize,
                        length: session.bytes_written as usize,
                    },
                ],
            }
        }
    }

    /// Reaction to the completion of the verification.
    pub open spec fn on_verified<B>(self, error: Option<DalsError>) -> Reaction<B> {
        if !self.session_in(State::Verifying) {
            Reaction { next: self, commands: seq![] }
        } else if error is Some {
            Reaction {
                next: self.ended(SessionOutcome::Error(DalsError::VerificationFailed)),
                commands: seq![Command::ReturnError { error: DalsError::VerificationFailed }],
            }
        } else {
            Reaction {
                next: self.with_session(self.session->0.verified()),
                commands: seq![
                    Command::Authorize {
                        base_address: self.session->0.base_address as usize,
                        length: self.session->0.bytes_written as usize,
                    },
                ],
            }
        }
    }

    /// Reaction to the completion of the authorization.
    pub open spec fn on_authorized<B>(self, status: Result<(), DalsError>) -> Reaction<B> {
        if !self.session_in(State::Authorizing) {
            Reaction { next: self, commands: seq![] }
        } else if status is Err {
            Reaction {
                next: self.ended(SessionOutcome::Error(DalsError::AuthorizationFailed)),
                commands: seq![Command::ReturnError { error: DalsError::AuthorizationFailed }],
            }
        } else {
            Reaction { next: self.ended(SessionOutcome::Done), commands: seq![Command::LoadingDone] }
        }
    }

    /// Reaction to any event.
    pub open spec fn react<B>(self, event: Event<B>) -> Reaction<B> {
        match event {
            Event::Chunk { buffer, length, completed } => self.on_chunk(buffer, length, completed),
            Event::Decompressed {
                decompressed_buffer,
                decompressed_length,
                original_buffer,
                status,
            } => self.on_decompressed(
                decompressed_buffer,
                decompressed_length,
                original_buffer,
                status,
            ),
            Event::WriteRefused => self.on_write_refused(),
            Event::Written { buffer, length } => self.on_written(buffer, length),
            Event::Verified { error } => self.on_verified(error),
            Event::Authorized { status } => self.on_authorized(status),
        }
    }

    /// Reaction to a sequence of events: the state after the last of them and
    /// all commands issued on the way.
    pub open spec fn run<B>(self, events: Seq<Event<B>>) -> Reaction<B>
        decreases events.len(),
    {
        if events.len() == 0 {
            Reaction { next: self, commands: seq![] }
        } else {
            let before = self.run(events.drop_last());
            let last = before.next.react(events.last());
            Reaction { next: last.next, commands: before.commands + last.commands }
        }
    }
}

/// The control state of the loader.
#[derive(Debug)]
pub struct Sequencer {
    base_address: usize,
    capacity: usize,
    session: Option<LoadSession>,
    outcome: Option<SessionOutcome>,
}

impl View for Sequencer {
    type V = SequencerModel;

    closed spec fn view(&self) -> SequencerModel {
        SequencerModel {
            base_address: self.base_address as nat,
            capacity: self.capacity as nat,
            session: match self.session {
                Some(s) => Some(s@),
                None => None,
            },
            outcome: self.outcome,
        }
    }
}

impl Sequencer {
    #[verifier::type_invariant]
    spec fn inv(self) -> bool {
        self@.wf()
    }

    /// A sequencer for the flash region of `capacity` bytes at `base_address`,
    /// with no session in progress.
    pub fn new(base_address: usize, capacity: usize) -> (r: Sequencer)
        ensures
            r@ == (SequencerModel {
                base_address: base_address as nat,
                capacity: capacity as nat,
                session: None,
                outcome: None,
            }),
    {
        Sequencer { base_address, capacity, session: None, outcome: None }
    }

    /// Flash offset at which every image starts.
    pub fn base_address(&self) -> (r: usize)
        ensures
            r == self@.base_address,
    {
        self.base_address
    }

    /// Number of bytes available at the base address.
    pub fn capacity(&self) -> (r: usize)
        ensures
            r == self@.capacity,
    {
        self.capacity
    }

    /// The session in progress.
    pub fn session(&self) -> (r: Option<LoadSession>)
        ensures
            self@.wf(),
            r is Some == self@.session is Some,
            r matches Some(s) ==> Some(s@) == self@.session,
    {
        proof {
            use_type_invariant(self);
        }
        self.session
    }

    /// How the last session ended, until the next one is opened.
    pub fn outcome(&self) -> (r: Option<SessionOutcome>)
        ensures
            r == self@.outcome,
    {
        self.outcome
    }

    /// The phase shown to the outside.
    pub fn state(&self) -> (r: State)
        ensures
            r == self@.state(),
    {
        match self.session {
            Some(session) => session.state(),
            None => match self.outcome {
                Some(SessionOutcome::Done) => State::Done,
                _ => State::Idle,
            },
        }
    }

    /// Whether a session is in progress and waits for its next chunk.
    pub fn awaiting_chunk(&self) -> (r: bool)
        ensures
            r == self@.awaiting_chunk(),
            self@.wf(),
    {
        proof {
            use_type_invariant(self);
        }
        match self.session {
            Some(session) => session.state() == State::Idle,
            None => false,
        }
    }

    /// Opens a session for an image of `app_size` bytes. Fails with
    /// `SessionBusy` while a session is in progress, else with
    /// `InsufficientSpace` if the image does not fit; a failed call changes
    /// nothing.
    pub fn start_loading(&mut self, app_size: usize) -> (r: Result<(), DalsError>)
        ensures
            r == old(self)@.start_result(app_size as nat),
            final(self)@ == old(self)@.started(app_size as nat),
            final(self)@.wf(),
    {
        proof {
            use_type_invariant(&*self);
        }
        if self.session.is_some() {
            Err(DalsError::SessionBusy)
        } else if app_size > self.capacity || app_size > usize::MAX - self.base_address {
            Err(DalsError::InsufficientSpace)
        } else {
            self.outcome = None;
            self.session = Some(LoadSession::begin(self.base_address, app_size));
            Ok(())
        }
    }

    /// Ends the session in progress with `error`.
    fn abort(&mut self, error: DalsError)
        ensures
            final(self)@ == old(self)@.ended(SessionOutcome::Error(error)),
    {
        self.session = None;
        self.outcome = Some(SessionOutcome::Error(error));
    }

    /// The session in progress, if it is in phase `state`.
    fn session_in(&self, state: State) -> (r: Option<LoadSession>)
        ensures
            self@.wf(),
            r is Some == self@.session_in(state),
            r matches Some(s) ==> self@.session == Some(s@),
    {
        proof {
            use_type_invariant(self);
        }
        match self.session {
            Some(session) => if session.state() == state {
                Some(session)
            } else {
                None
            },
            None => None,
        }
    }

    /// The session in progress, if a flash write is in flight.
    fn session_writing(&self) -> (r: Option<LoadSession>)
        ensures
            self@.wf(),
            r is Some == self@.writing(),
            r matches Some(s) ==> self@.session == Some(s@),
    {
        match self.session_in(State::Writing) {
            Some(session) => Some(session),
            None => self.session_in(State::WritingFinal),
        }
    }

    /// Takes in a chunk from the data source.
    fn on_chunk<B>(&mut self, buffer: B, length: usize, completed: bool) -> (commands: Vec<
        Command<B>,
    >)
        ensures
            final(self)@ == old(self)@.on_chunk(buffer, length, completed).next,
            commands@ == old(self)@.on_chunk(buffer, length, completed).commands,
    {
        let mut commands: Vec<Command<B>> = Vec::new();
        match self.session_in(State::Idle) {
            Some(session) => {
                if session.admits_chunk(length, completed) {
                    self.session = Some(session.chunk_accepted(completed));
                    commands.push(Command::Decompress { buffer, length });
                } else {
                    self.abort(DalsError::SizeMismatch);
                    commands.push(Command::ReturnBuffer { buffer });
                    commands.push(Command::ReturnError { error: DalsError::SizeMismatch });
                }
            },
            None => {
                commands.push(Command::ReturnBuffer { buffer });
            },
        }
        commands
    }

    /// Takes in the completion of a decompression.
    fn on_decompressed<B>(
        &mut self,
        decompressed_buffer: B,
        decompressed_length: usize,
        original_buffer: B,
        status: Result<(), DalsError>,
    ) -> (commands: Vec<Command<B>>)
        ensures
            final(self)@ == old(self)@.on_decompressed(
                decompressed_buffer,
                decompressed_length,
                original_buffer,
                status,
            ).next,
            commands@ == old(self)@.on_decompressed(
                decompressed_buffer,
                decompressed_length,
                original_buffer,
                status,
            ).commands,
    {
        let mut commands: Vec<Command<B>> = Vec::new();
        commands.push(Command::ReturnBuffer { buffer: original_buffer });
        match self.session_in(State::Decompressing) {
            Some(session) => {
                if status.is_err() {
                    self.abort(DalsError::DecompressionFailed);
                    commands.push(Command::ReleaseBuffer { buffer: decompressed_buffer });
                    commands.push(Command::ReturnError { error: DalsError::DecompressionFailed });
                } else if !session.admits_write(decompressed_length) {
                    self.abort(DalsError::SizeMismatch);
                    commands.push(Command::ReleaseBuffer { buffer: decompressed_buffer });
                    commands.push(Command::ReturnError { error: DalsError::SizeMismatch });
                } else {
                    self.session = Some(session.write_issued(decompressed_length));
                    commands.push(
                        Command::Write {
                            buffer: decompressed_buffer,
                            offset: session.write_cursor(),
                            length: decompressed_length,
                        },
                    );
                }
            },
            None => {
                commands.push(Command::ReleaseBuffer { buffer: decompressed_buffer });
            },
        }
        commands
    }

    /// Takes in the refusal of a write request.
    fn on_write_refused<B>(&mut self) -> (commands: Vec<Command<B>>)
        ensures
            final(self)@ == old(self)@.on_write_refused::<B>().next,
            commands@ == old(self)@.on_write_refused::<B>().commands,
    {
        let mut commands: Vec<Command<B>> = Vec::new();
        match self.session_writing() {
            Some(_) => {
                self.abort(DalsError::StorageWriteFailed);
                commands.push(Command::ReturnError { error: DalsError::StorageWriteFailed });
            },
            None => {},
        }
        commands
    }

    /// Takes in the completion of a flash write.
    fn on_written<B>(&mut self, buffer: B, length: usize) -> (commands: Vec<Command<B>>)
        ensures
            final(self)@ == old(self)@.on_written(buffer, length).next,
            commands@ == old(self)@.on_written(buffer, length).commands,
    {
        let mut commands: Vec<Command<B>> = Vec::new();
        commands.push(Command::ReleaseBuffer { buffer });
        match self.session_writing() {
            Some(session) => {
                if length != session.pending() {
                    self.abort(DalsError::StorageWriteFailed);
                    commands.push(Command::ReturnError { error: DalsError::StorageWriteFailed });
                } else {
                    let session: LoadSession = session.write_completed();
                    self.session = Some(session);
                    if session.state() == State::Verifying {
                        commands.push(
                            Command::Verify {
                                base_address: self.base_address,
                                length: session.bytes_written(),
                            },
                        );
                    }
                }
            },
            None => {},
        }
        commands
    }

    /// Takes in the completion of the verification.
    fn on_verified<B>(&mut self, error: Option<DalsError>) -> (commands: Vec<Command<B>>)
        ensures
            final(self)@ == old(self)@.on_verified::<B>(error).next,
            commands@ == old(self)@.on_verified::<B>(error).commands,
    {
        let mut commands: Vec<Command<B>> = Vec::new();
        match self.session_in(State::Verifying) {
            Some(session) => {
                if error.is_some() {
                    self.abort(DalsError::VerificationFailed);
                    commands.push(Command::ReturnError { error: DalsError::VerificationFailed });
                } else {
                    self.session = Some(session.verified());
                    commands.push(
                        Command::Authorize {
                            base_address: self.base_address,
                            length: session.bytes_written(),
                        },
                    );
                }
            },
            None => {},
        }
        commands
    }

    /// Takes in the completion of the authorization.
    fn on_authorized<B>(&mut self, status: Result<(), DalsError>) -> (commands: Vec<Command<B>>)
        ensures
            final(self)@ == old(self)@.on_authorized::<B>(status).next,
            commands@ == old(self)@.on_authorized::<B>(status).commands,
    {
        let mut commands: Vec<Command<B>> = Vec::new();
        match self.session_in(State::Authorizing) {
            Some(_) => {
                if status.is_err() {
                    self.abort(DalsError::AuthorizationFailed);
                    commands.push(Command::ReturnError { error: DalsError::AuthorizationFailed });
                } else {
                    self.session = None;
                    self.outcome = Some(SessionOutcome::Done);
                    commands.push(Command::LoadingDone);
                }
            },
            None => {},
        }
        commands
    }

    /// Takes in one event: moves to the next state and returns the commands
    /// to carry out, in order.
    pub fn react<B>(&mut self, event: Event<B>) -> (commands: Vec<Command<B>>)
        ensures
            final(self)@ == old(self)@.react(event).next,
            commands@ == old(self)@.react(event).commands,
            final(self)@.wf(),
    {
        let commands: Vec<Command<B>> = match event {
            Event::Chunk { buffer, length, completed } => self.on_chunk(buffer, length, completed),
            Event::Decompressed {
                decompressed_buffer,
                decompressed_length,
                original_buffer,
                status,
            } => self.on_decompressed(
                decompressed_buffer,
                decompressed_length,
                original_buffer,
                status,
            ),
            Event::WriteRefused => self.on_write_refused(),
            Event::Written { buffer, length } => self.on_written(buffer, length),
            Event::Verified { error } => self.on_verified(error),
            Event::Authorized { status } => self.on_authorized(status),
        };
        proof {
            use_type_invariant(&*self);
        }
        commands
    }
}

} // verus!
