//! Runs of the acquisition loop: what holds of the state after any sequence
//! of events.

use crate::acquire::{Action, Ending, Event, LoopState, Phase, BUFFER_LEN, PUBLISH_THRESHOLD};
use crate::channel::{Cmd, Delivery, TryRecv};
use crate::source::ReadOutcome;
use vstd::prelude::*;

verus! {

/// The state that `events`, taken in order, lead to from `state`, if each of
/// them came in turn.
pub open spec fn run(state: LoopState, events: Seq<Event>) -> Option<LoopState>
    decreases events.len(),
{
    if events.len() == 0 {
        Some(state)
    } else {
        match state.next(events[0]) {
            Some(after) => run(after, events.drop_first()),
            None => None,
        }
    }
}

/// How many times a snapshot falls due along `events` from `state`.
pub open spec fn publications(state: LoopState, events: Seq<Event>) -> nat
    decreases events.len(),
{
    if events.len() == 0 {
        0
    } else {
        match state.next(events[0]) {
            Some(after) => (if after.phase is Publishing {
                1nat
            } else {
                0nat
            }) + publications(after, events.drop_first()),
            None => 0,
        }
    }
}

/// Whether `event` reports a frame that went to the accumulators.
pub open spec fn is_ingest(event: Event) -> bool {
    event is Ingested
}

/// Whether `event` reports a reset command.
pub open spec fn is_reset(event: Event) -> bool {
    event == Event::Polled(TryRecv::Item(Cmd::Reset))
}

/// How many of `events` report a frame that went to the accumulators.
pub open spec fn ingests(events: Seq<Event>) -> nat
    decreases events.len(),
{
    if events.len() == 0 {
        0
    } else {
        (if is_ingest(events[0]) {
            1nat
        } else {
            0nat
        }) + ingests(events.drop_first())
    }
}

/// How many of `events` report a reset command.
pub open spec fn resets(events: Seq<Event>) -> nat
    decreases events.len(),
{
    if events.len() == 0 {
        0
    } else {
        (if is_reset(events[0]) {
            1nat
        } else {
            0nat
        }) + resets(events.drop_first())
    }
}

/// Frames between one snapshot and the next.
pub open spec fn period() -> int {
    PUBLISH_THRESHOLD + 1
}

/// A step keeps the invariant, the source and the configured averaging.
pub proof fn lemma_step_keeps_invariant(state: LoopState, event: Event)
    requires
        state.inv(),
        state.next(event) is Some,
    ensures
        state.next(event)->0.inv(),
        state.next(event)->0.source == state.source,
        state.next(event)->0.min_avg == state.min_avg,
{
}

/// A run keeps the invariant, the source and the configured averaging.
pub proof fn lemma_run_keeps_invariant(state: LoopState, events: Seq<Event>)
    requires
        state.inv(),
        run(state, events) is Some,
    ensures
        run(state, events)->0.inv(),
        run(state, events)->0.source == state.source,
        run(state, events)->0.min_avg == state.min_avg,
    decreases events.len(),
{
    if events.len() > 0 {
        lemma_step_keeps_invariant(state, events[0]);
        lemma_run_keeps_invariant(state.next(events[0])->0, events.drop_first());
    }
}

/// A reset command empties the bank at once, and the frame count is zero
/// from then until a frame has gone to the accumulators, whatever else
/// happens in between, further resets included.
pub proof fn lemma_reset_clears_count(state: LoopState, events: Seq<Event>)
    requires
        state.inv(),
        state.phase is Polling,
        ingests(events) == 0,
        run(state.polled(TryRecv::Item(Cmd::Reset)), events) is Some,
    ensures
        state.next(Event::Polled(TryRecv::Item(Cmd::Reset))) == Some(
            state.polled(TryRecv::Item(Cmd::Reset)),
        ),
        state.polled(TryRecv::Item(Cmd::Reset)).bank is Empty,
        state.polled(TryRecv::Item(Cmd::Reset)).frames() == 0,
        run(state.polled(TryRecv::Item(Cmd::Reset)), events)->0.frames() == 0,
{
    lemma_count_stays_zero(state.polled(TryRecv::Item(Cmd::Reset)), events);
}

/// While no frame goes to the accumulators, a frame count of zero stays
/// zero.
pub proof fn lemma_count_stays_zero(state: LoopState, events: Seq<Event>)
    requires
        state.inv(),
        state.frames() == 0,
        ingests(events) == 0,
        run(state, events) is Some,
    ensures
        run(state, events)->0.frames() == 0,
    decreases events.len(),
{
    if events.len() > 0 {
        lemma_count_stays_zero(state.next(events[0])->0, events.drop_first());
    }
}

/// A snapshot falls due exactly when a frame goes to the accumulators and
/// takes the count past the threshold; the count is zero right after.
pub proof fn lemma_publish_exactly_past_threshold(state: LoopState, event: Event)
    requires
        state.inv(),
        state.next(event) is Some,
    ensures
        state.next(event)->0.phase is Publishing <==> is_ingest(event) && state.frames() + 1
            > PUBLISH_THRESHOLD,
        state.next(event)->0.phase is Publishing ==> state.next(event)->0.frames() == 0,
        is_ingest(event) && state.frames() + 1 <= PUBLISH_THRESHOLD ==> state.next(
            event,
        )->0.frames() == state.frames() + 1,
        !is_ingest(event) && !is_reset(event) ==> state.next(event)->0.frames() == state.frames(),
{
}

/// Along a run without resets a snapshot falls due once for every full
/// period of frames that went to the accumulators, counted from the last
/// time the count was zero, and the count holds the rest.
pub proof fn lemma_publications_count(state: LoopState, events: Seq<Event>)
    requires
        state.inv(),
        resets(events) == 0,
        run(state, events) is Some,
    ensures
        publications(state, events) == (state.frames() + ingests(events)) as int / period(),
        run(state, events)->0.frames() == (state.frames() + ingests(events)) as int % period(),
    decreases events.len(),
{
    if events.len() > 0 {
        lemma_publications_count(state.next(events[0])->0, events.drop_first());
    }
}

/// Whatever the loop asks to read or to decode fits the buffer.
pub proof fn lemma_work_fits_buffer(state: LoopState)
    requires
        state.inv(),
    ensures
        state.awaits() matches Action::Read(len) ==> len <= BUFFER_LEN,
        state.awaits() matches Action::Decode(len) ==> len <= BUFFER_LEN,
{
}

/// A loop that has stopped takes no further event.
pub proof fn lemma_stopped_is_final(state: LoopState, event: Event)
    requires
        state.phase is Stopped,
    ensures
        state.next(event) is None,
{
}

/// At a poll, an exit command ends the loop, and so does a controller that
/// hung up; nothing else about the loop changes.
pub proof fn lemma_exit_ends_loop(state: LoopState, found: TryRecv<Cmd>)
    requires
        state.phase is Polling,
        found == TryRecv::Item(Cmd::Exit) || found == TryRecv::<Cmd>::Disconnected,
    ensures
        state.next(Event::Polled(found)) == Some(
            LoopState { phase: Phase::Stopped(Ending::Commanded), ..state },
        ),
{
}

/// A command takes effect at a poll and nowhere else: a step that ends the
/// loop on command, or that empties the bank, answers a poll.
pub proof fn lemma_commands_act_at_poll(state: LoopState, event: Event)
    requires
        state.inv(),
        state.next(event) is Some,
        state.next(event)->0.phase == Phase::Stopped(Ending::Commanded) || (state.bank is Ready
            && state.next(event)->0.bank is Empty),
    ensures
        state.phase is Polling,
        event is Polled,
{
}

/// Whatever became of a snapshot that was offered, the loop goes on to poll
/// for commands and changes nothing else: a full slot costs the snapshot
/// and nothing more.
pub proof fn lemma_publication_never_stalls(state: LoopState, delivery: Delivery)
    requires
        state.phase is Publishing,
    ensures
        state.next(Event::Published(delivery)) == Some(
            LoopState { phase: Phase::Polling, ..state },
        ),
{
}

/// The end of a file never ends the loop: the file is sought to its start
/// and read again, and nothing else about the loop changes.
pub proof fn lemma_end_of_file_rewinds(state: LoopState)
    requires
        state.inv(),
        state.phase is Fetching,
        state.source is File,
    ensures
        state.next(Event::Read(ReadOutcome::EndOfInput)) == Some(
            LoopState { phase: Phase::Rewinding, ..state },
        ),
        run(state, seq![Event::Read(ReadOutcome::EndOfInput), Event::Rewound(true)]) == Some(
            state,
        ),
{
    reveal_with_fuel(run, 3);
}

/// A buffer that is no frame is skipped: the count stays, and the loop goes
/// on to poll for commands.
pub proof fn lemma_decode_failure_is_skipped(state: LoopState)
    requires
        state.inv(),
        state.phase is Decoding,
    ensures
        state.next(Event::Decoded(false)) == Some(LoopState { phase: Phase::Polling, ..state }),
{
}

/// A read that timed out on a datagram endpoint leads straight to a poll of
/// the command channel, where an exit command, or a controller that hung up,
/// ends the loop.
pub proof fn lemma_exit_observed_after_idle_read(state: LoopState, found: TryRecv<Cmd>)
    requires
        state.inv(),
        state.phase is Fetching,
        state.source is Udp,
        found == TryRecv::Item(Cmd::Exit) || found == TryRecv::<Cmd>::Disconnected,
    ensures
        state.next(Event::Read(ReadOutcome::TimedOut)) == Some(
            LoopState { phase: Phase::Polling, ..state },
        ),
        run(state, seq![Event::Read(ReadOutcome::TimedOut), Event::Polled(found)]) == Some(
            LoopState { phase: Phase::Stopped(Ending::Commanded), ..state },
        ),
{
    reveal_with_fuel(run, 3);
}

} // verus!
