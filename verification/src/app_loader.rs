//! The loader bound to its collaborators.

use crate::interfaces;
use crate::interfaces::DalsError;
use crate::sequencer::{Command, Event, Role, Sequencer, SequencerModel};
use crate::session::{LoadSession, SessionOutcome, State};
use core::marker::PhantomData;
use vstd::prelude::*;

verus! {

/// The loader: a [`Sequencer`] together with one instance of each
/// collaborator, bound at construction.
///
/// Every entry point hands its event to the sequencer and carries out the
/// commands that the sequencer returns, in order, each by one call of the
/// collaborator that the command names. The loader keeps no buffer: a buffer
/// that comes in with an event has gone to its next owner when the entry point
/// returns.
///
/// Nothing is known of what a collaborator does when it is called. So the
/// contracts state a call as a relation between the collaborator before and
/// after: there is a mutable reference whose value before is the one and whose
/// value after is the other, and of which `call_ensures` holds for the method
/// and the arguments named. A collaborator that is not called is unchanged.
pub struct AppLoader<B, C, D, V, A, S> {
    app_loader_client: C,
    decompressor: D,
    verifier: V,
    authorizer: A,
    nonvol_storage: S,
    sequencer: Sequencer,
    buffers: PhantomData<B>,
}

impl<B, C, D, V, A, S> View for AppLoader<B, C, D, V, A, S> {
    type V = SequencerModel;

    closed spec fn view(&self) -> SequencerModel {
        self.sequencer@
    }
}

impl<B, C, D, V, A, S> AppLoader<B, C, D, V, A, S> {
    /// The data source.
    pub closed spec fn bound_client(self) -> C {
        self.app_loader_client
    }

    /// The decompressor.
    pub closed spec fn bound_decompressor(self) -> D {
        self.decompressor
    }

    /// The verifier.
    pub closed spec fn bound_verifier(self) -> V {
        self.verifier
    }

    /// The authorizer.
    pub closed spec fn bound_authorizer(self) -> A {
        self.authorizer
    }

    /// The storage.
    pub closed spec fn bound_storage(self) -> S {
        self.nonvol_storage
    }

    /// Whether the collaborator `role` is in `self` what it is in `before`.
    /// A collaborator that has not been called in between is.
    pub open spec fn kept(self, before: Self, role: Role) -> bool {
        match role {
            Role::DataSource => self.bound_client() == before.bound_client(),
            Role::Decompressor => self.bound_decompressor() == before.bound_decompressor(),
            Role::Storage => self.bound_storage() == before.bound_storage(),
            Role::Verifier => self.bound_verifier() == before.bound_verifier(),
            Role::Authorizer => self.bound_authorizer() == before.bound_authorizer(),
        }
    }

    /// Whether every collaborator is in `self` what it is in `before`.
    pub open spec fn collaborators_kept(self, before: Self) -> bool {
        self.kept_but_for(before, Seq::empty())
    }

    /// Whether every collaborator that none of `commands` is for is in `self`
    /// what it is in `before`.
    pub open spec fn kept_but_for(self, before: Self, commands: Seq<Command<B>>) -> bool {
        &&& Command::any_for(commands, Role::DataSource) || self.kept(before, Role::DataSource)
        &&& Command::any_for(commands, Role::Decompressor) || self.kept(before, Role::Decompressor)
        &&& Command::any_for(commands, Role::Storage) || self.kept(before, Role::Storage)
        &&& Command::any_for(commands, Role::Verifier) || self.kept(before, Role::Verifier)
        &&& Command::any_for(commands, Role::Authorizer) || self.kept(before, Role::Authorizer)
    }

    /// What is for a collaborator among the first `k` commands is for it
    /// among the first `k + 1`, and so is the command at `k`.
    proof fn lemma_any_for_grows(commands: Seq<Command<B>>, k: int, role: Role)
        requires
            0 <= k < commands.len(),
            Command::any_for(commands.take(k), role) || commands[k].recipient() == role,
        ensures
            Command::any_for(commands.take(k + 1), role),
    {
        if commands[k].recipient() == role {
            assert(commands.take(k + 1)[k].recipient() == role);
        } else {
            let i = choose|i: int|
                0 <= i < commands.take(k).len() && #[trigger] commands.take(k)[i].recipient()
                    == role;
            assert(commands.take(k + 1)[i].recipient() == role);
        }
    }
}

impl<B, C, D, V, A, S> AppLoader<B, C, D, V, A, S> where
    C: interfaces::AppLoaderClient<B>,
    D: interfaces::Decompressor<B>,
    V: interfaces::Verifier,
    A: interfaces::Authorizer,
    S: interfaces::NonvolatileStorage<B>,
 {
    /// A loader for the flash region of `capacity` bytes at `base_address`,
    /// with no session in progress.
    pub fn new(
        app_loader_client: C,
        decompressor: D,
        verifier: V,
        authorizer: A,
        nonvol_storage: S,
        base_address: usize,
        capacity: usize,
    ) -> (r: Self)
        ensures
            r@ == (SequencerModel {
                base_address: base_address as nat,
                capacity: capacity as nat,
                session: None,
                outcome: None,
            }),
            r.bound_client() == app_loader_client,
            r.bound_decompressor() == decompressor,
            r.bound_verifier() == verifier,
            r.bound_authorizer() == authorizer,
            r.bound_storage() == nonvol_storage,
    {
        AppLoader {
            app_loader_client,
            decompressor,
            verifier,
            authorizer,
            nonvol_storage,
            sequencer: Sequencer::new(base_address, capacity),
            buffers: PhantomData,
        }
    }

    /// The phase shown to the outside.
    pub fn state(&self) -> (r: State)
        ensures
            r == self@.state(),
    {
        self.sequencer.state()
    }

    /// The session in progress.
    pub fn session(&self) -> (r: Option<LoadSession>)
        ensures
            self@.wf(),
            r is Some == self@.session is Some,
            r matches Some(s) ==> Some(s@) == self@.session,
    {
        self.sequencer.session()
    }

    /// How the last session ended, until the next one is opened.
    pub fn outcome(&self) -> (r: Option<SessionOutcome>)
        ensures
            r == self@.outcome,
    {
        self.sequencer.outcome()
    }

    /// Carries out one command by one call of the collaborator that it is for,
    /// with what the command holds; nothing else changes. Returns whether the
    /// collaborator took it: a write exactly if the storage answers `Ok`.
    fn perform(&mut self, command: Command<B>) -> (taken: bool)
        ensures
            final(self)@ == old(self)@,
            final(self).kept_but_for(*old(self), seq![command]),
            match command {
                Command::Decompress { buffer, length } => taken && exists|callee: &mut D|
                    *callee == old(self).bound_decompressor()
                    && *final(callee) == final(self).bound_decompressor()
                    && #[trigger] call_ensures(
                        <D as interfaces::Decompressor<B>>::decompress_buffer,
                        (callee, buffer, length),
                        (),
                    ),
                Command::ReturnBuffer { buffer } => taken && exists|callee: &mut C|
                    *callee == old(self).bound_client()
                    && *final(callee) == final(self).bound_client()
                    && #[trigger] call_ensures(
                        <C as interfaces::AppLoaderClient<B>>::return_buffer,
                        (callee, buffer),
                        (),
                    ),
                Command::Write { buffer, offset, length } => exists|
                    callee: &mut S,
                    answer: Result<(), DalsError>,
                |
                    *callee == old(self).bound_storage()
                    && *final(callee) == final(self).bound_storage()
                    && #[trigger] call_ensures(
                        <S as interfaces::NonvolatileStorage<B>>::write,
                        (callee, buffer, offset, length),
                        answer,
                    ) && taken == (answer is Ok),
                Command::ReleaseBuffer { buffer } => taken && exists|callee: &mut D|
                    *callee == old(self).bound_decompressor()
                    && *final(callee) == final(self).bound_decompressor()
                    && #[trigger] call_ensures(
                        <D as interfaces::Decompressor<B>>::return_buffer,
                        (callee, buffer),
                        (),
                    ),
                Command::Verify { base_address, length } => taken && exists|callee: &mut V|
                    *callee == old(self).bound_verifier()
                    && *final(callee) == final(self).bound_verifier()
                    && #[trigger] call_ensures(
                        <V as interfaces::Verifier>::verify_data,
                        (callee, base_address, length),
                        (),
                    ),
                Command::Authorize { base_address, length } => taken && exists|callee: &mut A|
                    *callee == old(self).bound_authorizer()
                    && *final(callee) == final(self).bound_authorizer()
                    && #[trigger] call_ensures(
                        <A as interfaces::Authorizer>::authorize_data,
                        (callee, base_address, length),
                        (),
                    ),
                Command::ReturnError { error } => taken && exists|callee: &mut C|
                    *callee == old(self).bound_client()
                    && *final(callee) == final(self).bound_client()
                    && #[trigger] call_ensures(
                        <C as interfaces::AppLoaderClient<B>>::return_error,
                        (callee, error),
                        (),
                    ),
                Command::LoadingDone => taken && exists|callee: &mut C|
                    *callee == old(self).bound_client()
                    && *final(callee) == final(self).bound_client()
                    && #[trigger] call_ensures(
                        <C as interfaces::AppLoaderClient<B>>::loading_done,
                        (callee,),
                        (),
                    ),
            },
    {
        assert(seq![command][0].recipient() == command.recipient());
        match command {
            Command::Decompress { buffer, length } => {
                self.decompressor.decompress_buffer(buffer, length);
                true
            },
            Command::ReturnBuffer { buffer } => {
                self.app_loader_client.return_buffer(buffer);
                true
            },
            Command::Write { buffer, offset, length } => {
                self.nonvol_storage.write(buffer, offset, length).is_ok()
            },
            Command::ReleaseBuffer { buffer } => {
                self.decompressor.return_buffer(buffer);
                true
            },
            Command::Verify { base_address, length } => {
                self.verifier.verify_data(base_address, length);
                true
            },
            Command::Authorize { base_address, length } => {
                self.authorizer.authorize_data(base_address, length);
                true
            },
            Command::ReturnError { error } => {
                self.app_loader_client.return_error(error);
                true
            },
            Command::LoadingDone => {
                self.app_loader_client.loading_done();
                true
            },
        }
    }

    /// Main state machine of the loader: takes in one event, moves to the
    /// next state and carries out the commands that follow from it, in order,
    /// each by one call of the collaborator that it is for. Where the storage
    /// refuses the write among them, the refusal is taken in as the next
    /// event, which ends the session with `StorageWriteFailed`.
    ///
    /// The contract states the calls collaborator by collaborator. The
    /// decompressor, the storage, the verifier and the authorizer get at most
    /// one command each, and are what that one call makes of them. The data
    /// source gets its buffer back first and the report of an error last, and
    /// is what these calls, in this order, make of it.
    pub fn action_complete(&mut self, event: Event<B>)
        ensures
            final(self)@ == old(self)@.react(event).next || (old(self)@.react(event).issues_write()
                && final(self)@ == old(self)@.react(event).next_if_refused()),
            final(self)@.wf(),
            final(self).kept_but_for(*old(self), old(self)@.react(event).commands),
            forall|k: int|
                0 <= k < old(self)@.react(event).commands.len() ==> match #[trigger] old(self)@.react(event).commands[k] {
                    Command::Decompress { buffer, length } => exists|callee: &mut D|
                        *callee == old(self).bound_decompressor()
                            && *final(callee) == final(self).bound_decompressor()
                            && #[trigger] call_ensures(
                            <D as interfaces::Decompressor<B>>::decompress_buffer,
                            (callee, buffer, length),
                            (),
                        ),
                    Command::ReleaseBuffer { buffer } => exists|callee: &mut D|
                        *callee == old(self).bound_decompressor()
                            && *final(callee) == final(self).bound_decompressor()
                            && #[trigger] call_ensures(
                            <D as interfaces::Decompressor<B>>::return_buffer,
                            (callee, buffer),
                            (),
                        ),
                    Command::Write { buffer, offset, length } => exists|callee: &mut S, answer: Result<(), DalsError>|
                        *callee == old(self).bound_storage()
                            && *final(callee) == final(self).bound_storage()
                            && #[trigger] call_ensures(
                            <S as interfaces::NonvolatileStorage<B>>::write,
                            (callee, buffer, offset, length),
                            answer,
                        ) && (answer is Ok ==> final(self)@ == old(self)@.react(event).next) && (answer is Err
                        ==> final(self)@ == old(self)@.react(event).next_if_refused()),
                    Command::Verify { base_address, length } => exists|callee: &mut V|
                        *callee == old(self).bound_verifier()
                            && *final(callee) == final(self).bound_verifier()
                            && #[trigger] call_ensures(
                            <V as interfaces::Verifier>::verify_data,
                            (callee, base_address, length),
                            (),
                        ),
                    Command::Authorize { base_address, length } => exists|callee: &mut A|
                        *callee == old(self).bound_authorizer()
                            && *final(callee) == final(self).bound_authorizer()
                            && #[trigger] call_ensures(
                            <A as interfaces::Authorizer>::authorize_data,
                            (callee, base_address, length),
                            (),
                        ),
                    _ => true,
                },
            old(self)@.react(event).returns_buffer() && old(self)@.failed_into(final(self)@) ==> exists|first: &mut C, second: &mut C|
                *first == old(self).bound_client() && *final(first) == *second
                    && #[trigger] call_ensures(
                    <C as interfaces::AppLoaderClient<B>>::return_buffer,
                    (first, old(self)@.react(event).commands[0]->ReturnBuffer_buffer),
                    (),
                )
                && *final(second) == final(self).bound_client()
                    && #[trigger] call_ensures(
                    <C as interfaces::AppLoaderClient<B>>::return_error,
                    (second, final(self)@.outcome->0->Error_0),
                    (),
                ),
            old(self)@.react(event).returns_buffer() && !old(self)@.failed_into(final(self)@) ==> exists|callee: &mut C|
                *callee == old(self).bound_client() && *final(callee) == final(self).bound_client()
                    && #[trigger] call_ensures(
                    <C as interfaces::AppLoaderClient<B>>::return_buffer,
                    (callee, old(self)@.react(event).commands[0]->ReturnBuffer_buffer),
                    (),
                ),
            !old(self)@.react(event).returns_buffer() && old(self)@.failed_into(final(self)@) ==> exists|callee: &mut C|
                *callee == old(self).bound_client() && *final(callee) == final(self).bound_client()
                    && #[trigger] call_ensures(
                    <C as interfaces::AppLoaderClient<B>>::return_error,
                    (callee, final(self)@.outcome->0->Error_0),
                    (),
                ),
            old(self)@.done_into(final(self)@) ==> exists|callee: &mut C|
                *callee == old(self).bound_client() && *final(callee) == final(self).bound_client()
                    && #[trigger] call_ensures(
                    <C as interfaces::AppLoaderClient<B>>::loading_done,
                    (callee,),
                    (),
                ),
    {
        let ghost reaction = old(self)@.react(event);
        let ghost mut after_return: C = old(self).bound_client();
        let ghost mut reported: bool = false;
        let ghost mut finished: bool = false;
        proof {
            crate::laws::lemma_reaction_shape(old(self)@, event);
        }
        let mut commands: Vec<Command<B>> = self.sequencer.react(event);
        let mut refused: bool = false;
        while commands.len() > 0
            invariant
                reaction == old(self)@.react(event),
                self@ == reaction.next,
                self@.wf(),
                commands@.len() <= reaction.commands.len(),
                commands@ == reaction.commands.skip(reaction.commands.len() - commands@.len()),
                refused ==> commands@.len() == 0 && reaction.issues_write(),
                self.kept_but_for(
                    *old(self),
                    reaction.commands.take(reaction.commands.len() - commands@.len()),
                ),
                forall|j: int|
                    0 <= j < reaction.commands.len() - commands@.len() ==> match #[trigger] reaction.commands[j] {
                        Command::Decompress { buffer, length } => exists|callee: &mut D|
                            *callee == old(self).bound_decompressor()
                                && *final(callee) == self.bound_decompressor()
                                && #[trigger] call_ensures(
                                <D as interfaces::Decompressor<B>>::decompress_buffer,
                                (callee, buffer, length),
                                (),
                            ),
                        Command::ReleaseBuffer { buffer } => exists|callee: &mut D|
                            *callee == old(self).bound_decompressor()
                                && *final(callee) == self.bound_decompressor()
                                && #[trigger] call_ensures(
                                <D as interfaces::Decompressor<B>>::return_buffer,
                                (callee, buffer),
                                (),
                            ),
                        Command::Write { buffer, offset, length } => exists|callee: &mut S, answer: Result<(), DalsError>|
                            *callee == old(self).bound_storage()
                                && *final(callee) == self.bound_storage()
                                && #[trigger] call_ensures(
                                <S as interfaces::NonvolatileStorage<B>>::write,
                                (callee, buffer, offset, length),
                                answer,
                            ) && (answer is Ok) == !refused,
                        Command::Verify { base_address, length } => exists|callee: &mut V|
                            *callee == old(self).bound_verifier()
                                && *final(callee) == self.bound_verifier()
                                && #[trigger] call_ensures(
                                <V as interfaces::Verifier>::verify_data,
                                (callee, base_address, length),
                                (),
                            ),
                        Command::Authorize { base_address, length } => exists|callee: &mut A|
                            *callee == old(self).bound_authorizer()
                                && *final(callee) == self.bound_authorizer()
                                && #[trigger] call_ensures(
                                <A as interfaces::Authorizer>::authorize_data,
                                (callee, base_address, length),
                                (),
                            ),
                        _ => true,
                    },
                reaction.returns_buffer() && commands@.len() < reaction.commands.len() ==> exists|first: &mut C|
                    *first == old(self).bound_client() && *final(first) == after_return
                        && #[trigger] call_ensures(
                        <C as interfaces::AppLoaderClient<B>>::return_buffer,
                        (first, reaction.commands[0]->ReturnBuffer_buffer),
                        (),
                    ),
                reported == (commands@.len() == 0 && reaction.commands.len() > 0 && reaction.commands.last() is ReturnError),
                finished == (commands@.len() == 0 && reaction.commands.len() > 0 && reaction.commands.last() is LoadingDone),
                !reported && !finished ==> self.bound_client() == (if reaction.returns_buffer() && commands@.len()
                    < reaction.commands.len() {
                    after_return
                } else {
                    old(self).bound_client()
                }),
                reported ==> exists|second: &mut C|
                    *second == (if reaction.returns_buffer() {
                        after_return
                    } else {
                        old(self).bound_client()
                    }) && *final(second) == self.bound_client()
                        && #[trigger] call_ensures(
                        <C as interfaces::AppLoaderClient<B>>::return_error,
                        (second, reaction.commands.last()->ReturnError_error),
                        (),
                    ),
                finished ==> exists|callee: &mut C|
                    *callee == old(self).bound_client() && *final(callee) == self.bound_client()
                        && #[trigger] call_ensures(
                        <C as interfaces::AppLoaderClient<B>>::loading_done,
                        (callee,),
                        (),
                    ),
            decreases commands.len(),
        {
            let ghost k = reaction.commands.len() - commands@.len();
            let command: Command<B> = commands.remove(0);
            let ghost done = command;
            let taken: bool = self.perform(command);
            proof {
                crate::laws::lemma_reaction_shape(old(self)@, event);
                assert forall|role: Role|
                    Command::any_for(reaction.commands.take(k), role) || Command::any_for(
                        seq![done],
                        role,
                    ) implies #[trigger] Command::any_for(reaction.commands.take(k + 1), role) by {
                    if Command::any_for(seq![done], role) {
                        assert(done.recipient() == role);
                    }
                    Self::lemma_any_for_grows(reaction.commands, k, role);
                }
                assert(reaction.commands.len() - commands@.len() == k + 1);
                if reaction.commands[k] is ReturnBuffer {
                    after_return = self.bound_client();
                }
                if reaction.commands[k] is ReturnError {
                    reported = true;
                }
                if reaction.commands[k] is LoadingDone {
                    finished = true;
                }
            }
            if !taken {
                refused = true;
            }
        }
        if refused {
            let ghost mid = *self;
            let mut commands: Vec<Command<B>> = self.sequencer.react(Event::WriteRefused);
            while commands.len() > 0
                invariant
                    self@ == reaction.next_if_refused(),
                    self@.wf(),
                    self.kept_but_for(mid, seq![Command::<B>::ReturnError { error: DalsError::StorageWriteFailed }]),
                    commands@.len() <= 1,
                    commands@.len() == 1 ==> commands@[0] == (Command::<B>::ReturnError {
                        error: DalsError::StorageWriteFailed,
                    }) && self.bound_client() == after_return,
                    commands@.len() == 0 ==> exists|second: &mut C|
                        *second == after_return && *final(second) == self.bound_client()
                            && #[trigger] call_ensures(
                            <C as interfaces::AppLoaderClient<B>>::return_error,
                            (second, DalsError::StorageWriteFailed),
                            (),
                        ),
                decreases commands.len(),
            {
                let command: Command<B> = commands.remove(0);
                let _ = self.perform(command);
            }
        }
    }
}

impl<B, C, D, V, A, S> interfaces::AppLoader<B> for AppLoader<B, C, D, V, A, S> where
    C: interfaces::AppLoaderClient<B>,
    D: interfaces::Decompressor<B>,
    V: interfaces::Verifier,
    A: interfaces::Authorizer,
    S: interfaces::NonvolatileStorage<B>,
 {
    /// Opens a session for an image of `app_size` bytes. Fails with
    /// `SessionBusy` while a session is in progress, else with
    /// `InsufficientSpace` if the image does not fit; a failed call changes
    /// nothing. No collaborator is called.
    fn start_loading(&mut self, app_size: usize) -> (r: Result<(), DalsError>)
        ensures
            r == old(self)@.start_result(app_size as nat),
            final(self)@ == old(self)@.started(app_size as nat),
            final(self)@.wf(),
            final(self).collaborators_kept(*old(self)),
    {
        self.sequencer.start_loading(app_size)
    }

    /// Takes the next raw chunk if a session is in progress and waits for
    /// one: the chunk goes to the decompressor by one call of
    /// `decompress_buffer`. An empty last chunk of an incomplete image goes
    /// back to the data source instead, followed by the report of
    /// `SizeMismatch`. Without a session that waits for a chunk the chunk is
    /// rejected: the buffer comes straight back and nothing changes.
    fn next_buffer(&mut self, data_buffer: B, length: usize, completed: bool) -> (r: Result<(), B>)
        ensures
            old(self)@.awaiting_chunk() ==> r is Ok && final(self)@ == old(self)@.react(
                Event::Chunk { buffer: data_buffer, length, completed },
            ).next && final(self).kept_but_for(
                *old(self),
                old(self)@.react(Event::Chunk { buffer: data_buffer, length, completed }).commands,
            ),
            !old(self)@.awaiting_chunk() ==> r == Err::<(), B>(data_buffer) && final(self)@ == old(
                self,
            )@ && final(self).collaborators_kept(*old(self)),
            final(self)@.wf(),
            old(self)@.awaiting_chunk() && old(self)@.session->0.admits_chunk(length as nat, completed)
                ==> exists|callee: &mut D|
                *callee == old(self).bound_decompressor() && *final(callee) == final(self).bound_decompressor()
                    && #[trigger] call_ensures(
                    <D as interfaces::Decompressor<B>>::decompress_buffer,
                    (callee, data_buffer, length),
                    (),
                ),
            old(self)@.awaiting_chunk() && !old(self)@.session->0.admits_chunk(
                length as nat,
                completed,
            ) ==> exists|first: &mut C, second: &mut C|
                *first == old(self).bound_client() && *final(first) == *second
                    && *final(second) == final(self).bound_client()
                    && #[trigger] call_ensures(
                    <C as interfaces::AppLoaderClient<B>>::return_buffer,
                    (first, data_buffer),
                    (),
                ) && #[trigger] call_ensures(
                    <C as interfaces::AppLoaderClient<B>>::return_error,
                    (second, DalsError::SizeMismatch),
                    (),
                ),
    {
        if self.sequencer.awaiting_chunk() {
            self.action_complete(Event::Chunk { buffer: data_buffer, length, completed });
            Ok(())
        } else {
            Err(data_buffer)
        }
    }
}

impl<B, C, D, V, A, S> interfaces::DecompressorClient<B> for AppLoader<B, C, D, V, A, S> where
    C: interfaces::AppLoaderClient<B>,
    D: interfaces::Decompressor<B>,
    V: interfaces::Verifier,
    A: interfaces::Authorizer,
    S: interfaces::NonvolatileStorage<B>,
 {
    /// Takes in the result of the decompression in flight: the raw buffer
    /// goes back to the data source, and the decompressed bytes are written
    /// at the cursor. A failed decompression ends the session with
    /// `DecompressionFailed`, bytes that the session does not admit with
    /// `SizeMismatch`, a write that the storage refuses with
    /// `StorageWriteFailed`.
    fn decompression_complete(
        &mut self,
        decompressed_buffer: B,
        decompressed_length: usize,
        original_buffer: B,
        status: Result<(), DalsError>,
    )
        ensures
            ({
                let reaction = old(self)@.react(
                    Event::Decompressed {
                        decompressed_buffer,
                        decompressed_length,
                        original_buffer,
                        status,
                    },
                );
                &&& final(self)@ == reaction.next || (reaction.issues_write() && final(self)@
                    == reaction.next_if_refused())
                &&& final(self).kept_but_for(*old(self), reaction.commands)
                &&& reaction.issues_write() ==> exists|callee: &mut S, answer: Result<(), DalsError>|
                    *callee == old(self).bound_storage() && *final(callee) == final(self).bound_storage()
                        && #[trigger] call_ensures(
                        <S as interfaces::NonvolatileStorage<B>>::write,
                        (callee, decompressed_buffer,
                            old(self)@.session->0.write_cursor as usize,
                            decompressed_length),
                        answer,
                    ) && (answer is Ok ==> final(self)@ == reaction.next) && (answer is Err
                        ==> final(self)@ == reaction.next_if_refused())
                &&& !reaction.issues_write() ==> exists|callee: &mut D|
                    *callee == old(self).bound_decompressor() && *final(callee) == final(self).bound_decompressor()
                        && #[trigger] call_ensures(
                        <D as interfaces::Decompressor<B>>::return_buffer,
                        (callee, decompressed_buffer),
                        (),
                    )
                &&& old(self)@.failed_into(final(self)@) ==> exists|first: &mut C, second: &mut C|
                    *first == old(self).bound_client() && *final(first) == *second
                        && *final(second) == final(self).bound_client()
                        && #[trigger] call_ensures(
                        <C as interfaces::AppLoaderClient<B>>::return_buffer,
                        (first, original_buffer),
                        (),
                    ) && #[trigger] call_ensures(
                        <C as interfaces::AppLoaderClient<B>>::return_error,
                        (second, final(self)@.outcome->0->Error_0),
                        (),
                    )
                &&& !old(self)@.failed_into(final(self)@) ==> exists|callee: &mut C|
                    *callee == old(self).bound_client() && *final(callee) == final(self).bound_client()
                        && #[trigger] call_ensures(
                        <C as interfaces::AppLoaderClient<B>>::return_buffer,
                        (callee, original_buffer),
                        (),
                    )
            }),
            final(self)@.wf(),
    {
        self.action_complete(
            Event::Decompressed {
                decompressed_buffer,
                decompressed_length,
                original_buffer,
                status,
            },
        );
    }
}

impl<B, C, D, V, A, S> interfaces::NonvolatileStorageClient<B> for AppLoader<B, C, D, V, A, S> where
    C: interfaces::AppLoaderClient<B>,
    D: interfaces::Decompressor<B>,
    V: interfaces::Verifier,
    A: interfaces::Authorizer,
    S: interfaces::NonvolatileStorage<B>,
 {
    /// Takes in the completion of the write in flight: the buffer goes back
    /// to the decompressor, and the session goes on to wait for the next
    /// chunk or, after the last chunk, to verification. A length other than
    /// the one asked for ends the session with `StorageWriteFailed`.
    fn write_done(&mut self, buffer: B, length: usize)
        ensures
            final(self)@ == old(self)@.react(Event::Written { buffer, length }).next,
            final(self)@.wf(),
            final(self).kept_but_for(
                *old(self),
                old(self)@.react(Event::Written { buffer, length }).commands,
            ),
            exists|callee: &mut D|
                *callee == old(self).bound_decompressor() && *final(callee) == final(self).bound_decompressor()
                    && #[trigger] call_ensures(
                    <D as interfaces::Decompressor<B>>::return_buffer,
                    (callee, buffer),
                    (),
                ),
            old(self)@.session_in(State::WritingFinal) && length == old(self)@.session->0.pending()
                ==> exists|callee: &mut V|
                *callee == old(self).bound_verifier() && *final(callee) == final(self).bound_verifier()
                    && #[trigger] call_ensures(
                    <V as interfaces::Verifier>::verify_data,
                    (callee, old(self)@.session->0.write_completed().base_address as usize,
                    old(self)@.session->0.write_completed().bytes_written as usize),
                    (),
                ),
            old(self)@.writing() && length != old(self)@.session->0.pending() ==> exists|callee: &mut C|
                *callee == old(self).bound_client() && *final(callee) == final(self).bound_client()
                    && #[trigger] call_ensures(
                    <C as interfaces::AppLoaderClient<B>>::return_error,
                    (callee, DalsError::StorageWriteFailed),
                    (),
                ),
    {
        self.action_complete(Event::Written { buffer, length });
    }
}

impl<B, C, D, V, A, S> interfaces::VerifierClient for AppLoader<B, C, D, V, A, S> where
    C: interfaces::AppLoaderClient<B>,
    D: interfaces::Decompressor<B>,
    V: interfaces::Verifier,
    A: interfaces::Authorizer,
    S: interfaces::NonvolatileStorage<B>,
 {
    /// Takes in the verifier's answer: the session goes on to authorization,
    /// or ends with `VerificationFailed`.
    fn verification_complete(&mut self, error: Option<DalsError>)
        ensures
            final(self)@ == old(self)@.react(Event::<B>::Verified { error }).next,
            final(self)@.wf(),
            final(self).kept_but_for(
                *old(self),
                old(self)@.react(Event::<B>::Verified { error }).commands,
            ),
            old(self)@.session_in(State::Verifying) && error is None ==> exists|callee: &mut A|
                *callee == old(self).bound_authorizer() && *final(callee) == final(self).bound_authorizer()
                    && #[trigger] call_ensures(
                    <A as interfaces::Authorizer>::authorize_data,
                    (callee, old(self)@.session->0.base_address as usize,
                    old(self)@.session->0.bytes_written as usize),
                    (),
                ),
            old(self)@.session_in(State::Verifying) && error is Some ==> exists|callee: &mut C|
                *callee == old(self).bound_client() && *final(callee) == final(self).bound_client()
                    && #[trigger] call_ensures(
                    <C as interfaces::AppLoaderClient<B>>::return_error,
                    (callee, DalsError::VerificationFailed),
                    (),
                ),
    {
        self.action_complete(Event::Verified { error });
    }
}

impl<B, C, D, V, A, S> interfaces::AuthorizerClient for AppLoader<B, C, D, V, A, S> where
    C: interfaces::AppLoaderClient<B>,
    D: interfaces::Decompressor<B>,
    V: interfaces::Verifier,
    A: interfaces::Authorizer,
    S: interfaces::NonvolatileStorage<B>,
 {
    /// Takes in the authorizer's decision: the session ends, in `Done` or
    /// with `AuthorizationFailed`.
    fn authorization_complete(&mut self, status: Result<(), DalsError>)
        ensures
            final(self)@ == old(self)@.react(Event::<B>::Authorized { status }).next,
            final(self)@.wf(),
            final(self).kept_but_for(
                *old(self),
                old(self)@.react(Event::<B>::Authorized { status }).commands,
            ),
            old(self)@.session_in(State::Authorizing) && status is Ok ==> exists|callee: &mut C|
                *callee == old(self).bound_client() && *final(callee) == final(self).bound_client()
                    && #[trigger] call_ensures(
                    <C as interfaces::AppLoaderClient<B>>::loading_done,
                    (callee,),
                    (),
                ),
            old(self)@.session_in(State::Authorizing) && status is Err ==> exists|callee: &mut C|
                *callee == old(self).bound_client() && *final(callee) == final(self).bound_client()
                    && #[trigger] call_ensures(
                    <C as interfaces::AppLoaderClient<B>>::return_error,
                    (callee, DalsError::AuthorizationFailed),
                    (),
                ),
    {
        self.action_complete(Event::Authorized { status });
    }
}

} // verus!
