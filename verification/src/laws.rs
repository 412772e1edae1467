//! What holds of every run of the loader's state machine.
//!
//! The laws are stated over [`SequencerModel::react`] and
//! [`SequencerModel::run`], the functions by which the contracts of
//! `Sequencer` and `AppLoader` describe what the loader does.

use crate::interfaces::DalsError;
use crate::sequencer::{Command, Event, Role, SequencerModel};
use crate::session::{SessionOutcome, State};
use vstd::prelude::*;

verus! {

/// The quantities that are summed over a sequence of commands.
pub enum Measure {
    /// One for each request.
    Requests,
    /// One for each `ReturnError`.
    Errors,
    /// The length of each `Write`.
    Bytes,
}

/// What one command contributes to a measure.
pub open spec fn weight<B>(command: Command<B>, measure: Measure) -> nat {
    match measure {
        Measure::Requests => if command.is_request() {
            1
        } else {
            0
        },
        Measure::Errors => if command is ReturnError {
            1
        } else {
            0
        },
        Measure::Bytes => command.write_length(),
    }
}

/// Sum of a measure over a sequence of commands.
pub open spec fn tally<B>(commands: Seq<Command<B>>, measure: Measure) -> nat
    decreases commands.len(),
{
    if commands.len() == 0 {
        0
    } else {
        tally(commands.drop_last(), measure) + weight(commands.last(), measure)
    }
}

/// Number of requests among the commands.
pub open spec fn requests<B>(commands: Seq<Command<B>>) -> nat {
    tally(commands, Measure::Requests)
}

/// Number of `ReturnError` commands among the commands.
pub open spec fn errors<B>(commands: Seq<Command<B>>) -> nat {
    tally(commands, Measure::Errors)
}

/// Total number of bytes that the commands ask the storage to write.
pub open spec fn bytes_to_write<B>(commands: Seq<Command<B>>) -> nat {
    tally(commands, Measure::Bytes)
}

/// The buffers that change hands with the commands, in order.
pub open spec fn handed_over<B>(commands: Seq<Command<B>>) -> Seq<B>
    decreases commands.len(),
{
    if commands.len() == 0 {
        seq![]
    } else {
        handed_over(commands.drop_last()) + commands.last().buffers()
    }
}

/// The buffers that come with the events, in order.
pub open spec fn received<B>(events: Seq<Event<B>>) -> Seq<B>
    decreases events.len(),
{
    if events.len() == 0 {
        seq![]
    } else {
        received(events.drop_last()) + events.last().buffers()
    }
}

/// Number of events of a run that complete the request outstanding when they
/// arrive.
pub open spec fn completions<B>(model: SequencerModel, events: Seq<Event<B>>) -> nat
    decreases events.len(),
{
    if events.len() == 0 {
        0
    } else {
        completions(model, events.drop_last()) + if model.run(events.drop_last()).next.completes(
            events.last(),
        ) {
            1nat
        } else {
            0nat
        }
    }
}

proof fn lemma_tally_concat<B>(a: Seq<Command<B>>, b: Seq<Command<B>>, measure: Measure)
    ensures
        tally(a + b, measure) == tally(a, measure) + tally(b, measure),
    decreases b.len(),
{
    if b.len() == 0 {
        assert(a + b =~= a);
    } else {
        assert((a + b).drop_last() =~= a + b.drop_last());
        lemma_tally_concat(a, b.drop_last(), measure);
    }
}

proof fn lemma_tally_short<B>(commands: Seq<Command<B>>, measure: Measure)
    requires
        commands.len() <= 3,
    ensures
        commands.len() == 0 ==> tally(commands, measure) == 0,
        commands.len() == 1 ==> tally(commands, measure) == weight(commands[0], measure),
        commands.len() == 2 ==> tally(commands, measure) == weight(commands[0], measure) + weight(
            commands[1],
            measure,
        ),
        commands.len() == 3 ==> tally(commands, measure) == weight(commands[0], measure) + weight(
            commands[1],
            measure,
        ) + weight(commands[2], measure),
    decreases commands.len(),
{
    if commands.len() > 0 {
        lemma_tally_short(commands.drop_last(), measure);
    }
}

proof fn lemma_handed_over_concat<B>(a: Seq<Command<B>>, b: Seq<Command<B>>)
    ensures
        handed_over(a + b) == handed_over(a) + handed_over(b),
    decreases b.len(),
{
    if b.len() == 0 {
        assert(a + b =~= a);
    } else {
        assert((a + b).drop_last() =~= a + b.drop_last());
        lemma_handed_over_concat(a, b.drop_last());
    }
}

proof fn lemma_handed_over_short<B>(commands: Seq<Command<B>>)
    requires
        commands.len() <= 3,
    ensures
        commands.len() == 0 ==> handed_over(commands) == Seq::<B>::empty(),
        commands.len() == 1 ==> handed_over(commands) == commands[0].buffers(),
        commands.len() == 2 ==> handed_over(commands) == commands[0].buffers()
            + commands[1].buffers(),
        commands.len() == 3 ==> handed_over(commands) == commands[0].buffers()
            + commands[1].buffers() + commands[2].buffers(),
    decreases commands.len(),
{
    if commands.len() > 0 {
        lemma_handed_over_short(commands.drop_last());
    }
}

/// A reaction leaves the sequencer well formed and its flash region as it
/// was, and issues at most three commands.
pub proof fn lemma_react_keeps_wf<B>(model: SequencerModel, event: Event<B>)
    requires
        model.wf(),
    ensures
        model.react(event).next.wf(),
        model.react(event).next.base_address == model.base_address,
        model.react(event).next.capacity == model.capacity,
        model.react(event).commands.len() <= 3,
        model.session is None ==> model.react(event).next == model,
{
}

/// At all times the bytes written do not exceed the declared size, and the
/// declared size does not exceed the capacity of the flash region.
pub proof fn lemma_run_keeps_wf<B>(model: SequencerModel, events: Seq<Event<B>>)
    requires
        model.wf(),
    ensures
        model.run(events).next.wf(),
        model.run(events).next.base_address == model.base_address,
        model.run(events).next.capacity == model.capacity,
        model.run(events).next.session matches Some(s) ==> s.bytes_written <= s.declared_size
            <= model.capacity,
        model.run(events).next.session is Some ==> model.session is Some,
    decreases events.len(),
{
    if events.len() > 0 {
        lemma_run_keeps_wf(model, events.drop_last());
        lemma_react_keeps_wf(model.run(events.drop_last()).next, events.last());
    }
}

/// Calling `start_loading` while a session is in progress fails with
/// `SessionBusy`, whatever the size, and leaves the session as it was.
pub proof fn lemma_start_loading_while_busy(model: SequencerModel, app_size: nat)
    requires
        model.session is Some,
    ensures
        model.start_result(app_size) == Err::<(), DalsError>(DalsError::SessionBusy),
        model.started(app_size) == model,
{
}

/// Decompressed bytes that the session does not admit, because they overrun
/// the declared size or because the last chunk leaves the image incomplete,
/// end the session with `SizeMismatch`: the buffers go back to their owners,
/// the error is reported once, and no write is issued.
pub proof fn lemma_size_mismatch_writes_nothing<B>(
    model: SequencerModel,
    decompressed_buffer: B,
    decompressed_length: usize,
    original_buffer: B,
)
    requires
        model.wf(),
        model.session_in(State::Decompressing),
        !model.session->0.admits_write(decompressed_length as nat),
    ensures
        ({
            let reaction = model.on_decompressed(
                decompressed_buffer,
                decompressed_length,
                original_buffer,
                Ok(()),
            );
            &&& reaction.next == model.ended(SessionOutcome::Error(DalsError::SizeMismatch))
            &&& reaction.commands == seq![
                Command::ReturnBuffer { buffer: original_buffer },
                Command::ReleaseBuffer { buffer: decompressed_buffer },
                Command::ReturnError { error: DalsError::SizeMismatch },
            ]
            &&& requests(reaction.commands) == 0
            &&& bytes_to_write(reaction.commands) == 0
        }),
{
    let reaction = model.on_decompressed(
        decompressed_buffer,
        decompressed_length,
        original_buffer,
        Ok(()),
    );
    lemma_tally_short(reaction.commands, Measure::Requests);
    lemma_tally_short(reaction.commands, Measure::Bytes);
}

/// A reaction issues at most one request, and none while a request is
/// outstanding that the event does not complete: such an event changes
/// nothing. The number of requests outstanding after the reaction is the
/// number before it, less the one completed, plus the one issued.
pub proof fn lemma_react_one_outstanding<B>(model: SequencerModel, event: Event<B>)
    requires
        model.wf(),
    ensures
        requests(model.react(event).commands) <= 1,
        model.outstanding() == 1 && !model.completes(event) ==> requests(
            model.react(event).commands,
        ) == 0 && model.react(event).next == model,
        requests(model.react(event).commands) + model.outstanding() == model.react(
            event,
        ).next.outstanding() + if model.completes(event) {
            1nat
        } else {
            0nat
        },
{
    lemma_tally_short(model.react(event).commands, Measure::Requests);
}

/// At most one request is outstanding at any time: over any run, the requests
/// issued and the one outstanding at the start are the completions taken in
/// and the one outstanding at the end.
pub proof fn lemma_run_one_outstanding<B>(model: SequencerModel, events: Seq<Event<B>>)
    requires
        model.wf(),
    ensures
        requests(model.run(events).commands) + model.outstanding() == completions(model, events)
            + model.run(events).next.outstanding(),
        model.run(events).next.outstanding() <= 1,
    decreases events.len(),
{
    if events.len() > 0 {
        let before = model.run(events.drop_last());
        let last = before.next.react(events.last());
        lemma_run_one_outstanding(model, events.drop_last());
        lemma_run_keeps_wf(model, events.drop_last());
        lemma_react_one_outstanding(before.next, events.last());
        lemma_tally_concat(before.commands, last.commands, Measure::Requests);
    } else {
        lemma_tally_short(model.run(events).commands, Measure::Requests);
    }
}

/// Every buffer that comes with an event changes hands exactly once in the
/// reaction to it, and no other buffer does: the sequencer keeps none, drops
/// none and hands none to two owners.
pub proof fn lemma_react_hands_buffers_on<B>(model: SequencerModel, event: Event<B>)
    ensures
        handed_over(model.react(event).commands) == event.buffers(),
{
    lemma_handed_over_short(model.react(event).commands);
}

/// Over any run, the buffers handed over are the buffers received, in order.
pub proof fn lemma_run_hands_buffers_on<B>(model: SequencerModel, events: Seq<Event<B>>)
    ensures
        handed_over(model.run(events).commands) == received(events),
    decreases events.len(),
{
    if events.len() > 0 {
        let before = model.run(events.drop_last());
        let last = before.next.react(events.last());
        lemma_run_hands_buffers_on(model, events.drop_last());
        lemma_react_hands_buffers_on(before.next, events.last());
        lemma_handed_over_concat(before.commands, last.commands);
    }
}

/// A failure reported by the decompressor, the storage, the verifier or the
/// authorizer ends the session with the error of that stage. The error is
/// reported once, as the last command, and no request is issued. Afterwards
/// `start_loading` answers as it does before any session: it succeeds for
/// every size that fits and is never answered with `SessionBusy`.
pub proof fn lemma_failure_ends_session<B>(
    model: SequencerModel,
    event: Event<B>,
    error: DalsError,
    app_size: nat,
)
    requires
        model.wf(),
        model.failure(event) == Some(error),
    ensures
        model.react(event).next == model.ended(SessionOutcome::Error(error)),
        errors(model.react(event).commands) == 1,
        requests(model.react(event).commands) == 0,
        model.react(event).commands.len() > 0,
        model.react(event).commands.last() == (Command::<B>::ReturnError { error }),
        model.react(event).next.start_result(app_size) == if model.fits(app_size) {
            Ok::<(), DalsError>(())
        } else {
            Err::<(), DalsError>(DalsError::InsufficientSpace)
        },
{
    lemma_tally_short(model.react(event).commands, Measure::Errors);
    lemma_tally_short(model.react(event).commands, Measure::Requests);
}

/// A reaction reports an error exactly if it ends the session in failure.
pub proof fn lemma_react_one_error<B>(model: SequencerModel, event: Event<B>)
    requires
        model.wf(),
    ensures
        errors(model.react(event).commands) == if model.session is Some && model.react(
            event,
        ).next.session is None && model.react(event).next.outcome != Some(SessionOutcome::Done) {
            1nat
        } else {
            0nat
        },
{
    lemma_tally_short(model.react(event).commands, Measure::Errors);
}

/// Over any run, at most one error is reported for the session in progress at
/// its start: one if the session ended in failure, none otherwise.
pub proof fn lemma_run_one_error<B>(model: SequencerModel, events: Seq<Event<B>>)
    requires
        model.wf(),
    ensures
        errors(model.run(events).commands) == if model.session is Some && model.run(
            events,
        ).next.session is None && model.run(events).next.outcome != Some(SessionOutcome::Done) {
            1nat
        } else {
            0nat
        },
    decreases events.len(),
{
    if events.len() > 0 {
        let before = model.run(events.drop_last());
        let last = before.next.react(events.last());
        lemma_run_one_error(model, events.drop_last());
        lemma_run_keeps_wf(model, events.drop_last());
        lemma_react_one_error(before.next, events.last());
        lemma_react_keeps_wf(before.next, events.last());
        lemma_tally_concat(before.commands, last.commands, Measure::Errors);
    } else {
        lemma_tally_short(model.run(events).commands, Measure::Errors);
    }
}

proof fn lemma_tally_prefix<B>(commands: Seq<Command<B>>, measure: Measure, i: int)
    requires
        0 <= i < commands.len(),
    ensures
        tally(commands.take(i + 1), measure) == tally(commands.take(i), measure) + weight(
            commands[i],
            measure,
        ),
        tally(commands.take(i + 1), measure) <= tally(commands, measure),
{
    assert(commands.take(i + 1).drop_last() =~= commands.take(i));
    assert(commands =~= commands.take(i + 1) + commands.skip(i + 1));
    lemma_tally_concat(commands.take(i + 1), commands.skip(i + 1), measure);
}

/// A write is the last command of the reaction that issues it. It is issued
/// only when a decompression has completed, after the raw buffer has gone
/// back to the data source, and the session waits for its completion.
pub proof fn lemma_write_comes_last<B>(model: SequencerModel, event: Event<B>, k: int)
    requires
        0 <= k < model.react(event).commands.len(),
        model.react(event).commands[k] is Write,
    ensures
        k == model.react(event).commands.len() - 1,
        model.react(event).issues_write(),
        event is Decompressed,
        model.react(event).calls(Role::DataSource),
        model.react(event).next.writing(),
        model.react(event).next_if_refused() == model.react(event).next.ended(
            SessionOutcome::Error(DalsError::StorageWriteFailed),
        ),
{
    assert(model.react(event).commands[0].recipient() == Role::DataSource);
}

/// In a reaction only the completion of a decompression issues a write, as
/// its second command, at the write cursor; the cursor of the session moves
/// forward by the length of that write.
proof fn lemma_react_writes<B>(model: SequencerModel, event: Event<B>)
    requires
        model.wf(),
    ensures
        ({
            let reaction = model.react(event);
            &&& forall|k: int|
                0 <= k < reaction.commands.len() && #[trigger] reaction.commands[k] is Write ==> {
                    &&& model.session is Some
                    &&& k == 1
                    &&& reaction.commands[k]->offset == model.session->0.write_cursor
                    &&& bytes_to_write(reaction.commands.take(k)) == 0
                }
            &&& reaction.next.session is None ==> bytes_to_write(reaction.commands) == 0
            &&& reaction.next.session matches Some(s) ==> {
                &&& model.session is Some
                &&& s.declared_size == model.session->0.declared_size
                &&& s.write_cursor == model.session->0.write_cursor + bytes_to_write(
                    reaction.commands,
                )
            }
        }),
{
    let reaction = model.react(event);
    lemma_tally_short(reaction.commands, Measure::Bytes);
    if reaction.commands.len() > 1 {
        lemma_tally_short(reaction.commands.take(1), Measure::Bytes);
    }
}

/// Over any run that starts inside a session, the write cursor moves forward
/// by the bytes that the run asks the storage to write, each write is issued
/// at the offset that the cursor had reached by then, and all of them stay
/// inside the part of the flash region that the session declared. For a
/// session that starts with the run, the cursor therefore is the base address
/// plus the lengths of all chunks written so far.
pub proof fn lemma_run_writes_follow_cursor<B>(model: SequencerModel, events: Seq<Event<B>>)
    requires
        model.wf(),
        model.session is Some,
    ensures
        ({
            let start = model.session->0;
            let run = model.run(events);
            &&& start.write_cursor + bytes_to_write(run.commands) <= start.base_address
                + start.declared_size
            &&& run.next.session matches Some(s) ==> {
                &&& s.base_address == start.base_address
                &&& s.declared_size == start.declared_size
                &&& s.write_cursor == start.write_cursor + bytes_to_write(run.commands)
            }
            &&& forall|i: int|
                0 <= i < run.commands.len() && #[trigger] run.commands[i] is Write
                    ==> run.commands[i]->offset == start.write_cursor + bytes_to_write(
                    run.commands.take(i),
                )
        }),
    decreases events.len(),
{
    let start = model.session->0;
    let run = model.run(events);
    if events.len() == 0 {
        lemma_tally_short(run.commands, Measure::Bytes);
    } else {
        let before = model.run(events.drop_last());
        let last = before.next.react(events.last());
        lemma_run_writes_follow_cursor(model, events.drop_last());
        lemma_run_keeps_wf(model, events.drop_last());
        lemma_react_keeps_wf(before.next, events.last());
        lemma_react_writes(before.next, events.last());
        lemma_tally_concat(before.commands, last.commands, Measure::Bytes);
        assert forall|i: int|
            0 <= i < run.commands.len() && #[trigger] run.commands[i] is Write
                implies run.commands[i]->offset == start.write_cursor + bytes_to_write(
            run.commands.take(i),
        ) by {
            if i < before.commands.len() {
                assert(run.commands.take(i) =~= before.commands.take(i));
            } else {
                let k = i - before.commands.len();
                assert(run.commands.take(i) =~= before.commands + last.commands.take(k));
                lemma_tally_concat(before.commands, last.commands.take(k), Measure::Bytes);
            }
        }
    }
}

/// From `start_loading` on, the write cursor is the base address plus the
/// lengths of all writes issued so far, and whenever no write is in flight the
/// bytes written are the lengths of all writes issued so far.
pub proof fn lemma_cursor_is_sum_of_writes<B>(
    model: SequencerModel,
    app_size: nat,
    events: Seq<Event<B>>,
)
    requires
        model.wf(),
        model.start_result(app_size) is Ok,
    ensures
        model.started(app_size).run(events).next.session matches Some(s) ==> {
            &&& s.write_cursor == model.base_address + bytes_to_write(
                model.started(app_size).run(events).commands,
            )
            &&& !s.writing() ==> s.bytes_written == bytes_to_write(
                model.started(app_size).run(events).commands,
            )
        },
{
    lemma_run_writes_follow_cursor(model.started(app_size), events);
    lemma_run_keeps_wf(model.started(app_size), events);
}

/// Writes are issued at ascending offsets and never overlap: of two writes of
/// one session, the later one starts where the earlier one ends or beyond.
/// Where the earlier one is not empty, the later offset is strictly greater.
pub proof fn lemma_writes_do_not_overlap<B>(
    model: SequencerModel,
    events: Seq<Event<B>>,
    i: int,
    j: int,
)
    requires
        model.wf(),
        model.session is Some,
        0 <= i < j < model.run(events).commands.len(),
        model.run(events).commands[i] is Write,
        model.run(events).commands[j] is Write,
    ensures
        ({
            let start = model.session->0;
            let earlier = model.run(events).commands[i];
            let later = model.run(events).commands[j];
            &&& start.write_cursor <= earlier->offset
            &&& earlier->offset + earlier->Write_length <= later->offset
            &&& earlier->Write_length > 0 ==> earlier->offset < later->offset
            &&& later->offset + later->Write_length <= start.base_address + start.declared_size
        }),
{
    let commands = model.run(events).commands;
    lemma_run_writes_follow_cursor(model, events);
    lemma_tally_prefix(commands, Measure::Bytes, i);
    lemma_tally_prefix(commands, Measure::Bytes, j);
    lemma_tally_prefix(commands.take(j), Measure::Bytes, i);
    assert(commands.take(j).take(i + 1) =~= commands.take(i + 1));
}

/// The shape of every reaction. It has at most three commands. At most one
/// of them is for the decompressor, the storage, the verifier and the
/// authorizer each. A buffer goes back to the data source first, a write is
/// issued second and last, an error or the success is reported last, and
/// they are reported exactly when the session in progress ends.
pub proof fn lemma_reaction_shape<B>(model: SequencerModel, event: Event<B>)
    ensures
        ({
            let reaction = model.react(event);
            let commands = reaction.commands;
            &&& commands.len() <= 3
            &&& forall|i: int, j: int|
                0 <= i < commands.len() && 0 <= j < commands.len() && i != j
                    && #[trigger] commands[i].recipient() != Role::DataSource
                    ==> #[trigger] commands[j].recipient() != commands[i].recipient()
            &&& forall|i: int|
                0 <= i < commands.len() ==> match #[trigger] commands[i] {
                    Command::ReturnBuffer { .. } => i == 0,
                    Command::Write { .. } => {
                        &&& i == 1
                        &&& commands.len() == 2
                        &&& reaction.returns_buffer()
                        &&& model.session is Some
                        &&& reaction.next.writing()
                        &&& reaction.next_if_refused() == reaction.next.ended(
                            SessionOutcome::Error(DalsError::StorageWriteFailed),
                        )
                    },
                    Command::ReturnError { error } => {
                        &&& i == commands.len() - 1
                        &&& model.failed_into(reaction.next)
                        &&& reaction.next.outcome == Some(SessionOutcome::Error(error))
                    },
                    Command::LoadingDone => commands.len() == 1 && model.done_into(reaction.next),
                    _ => true,
                }
            &&& model.failed_into(reaction.next) ==> commands.len() > 0 && commands.last() is ReturnError
            &&& model.done_into(reaction.next) ==> commands.len() == 1 && commands[0] is LoadingDone
        }),
{
}

} // verus!
