//! The typing-indicator side task: while one inbound message's links are
//! being processed, the room's typing indicator is asserted roughly once a
//! second; when the batch finishes, the task drains for one grace period
//! before it stops, so the indicator does not flicker off under the last
//! reply. Typing-assertion failures are best-effort and ignored.

use vstd::prelude::*;

verus! {

/// Seconds between two typing assertions.
pub const TYPING_PULSE_SECS: u64 = 1;

/// Seconds the task keeps running after the batch finished.
pub const TYPING_GRACE_SECS: u64 = 1;

/// Where the typing task stands.
#[derive(Clone, Copy, PartialEq, Eq, Structural, Debug)]
pub enum TypingState {
    /// The message's links are still being processed.
    Active,
    /// The batch finished; the grace period is running.
    Draining,
    /// The grace period elapsed; no further assertion is made.
    Stopped,
}

/// What the typing task observes.
#[derive(Clone, Copy, PartialEq, Eq, Structural, Debug)]
pub enum TypingEvent {
    /// A pulse interval elapsed.
    Tick,
    /// All links of the message finished processing.
    BatchFinished,
    /// The grace period elapsed.
    GraceElapsed,
}

/// One step of the typing task: ticks assert typing while active or
/// draining; the batch's end starts the grace period; its elapse stops the
/// task. An event a state does not await is ignored.
pub open spec fn typing_step_spec(s: TypingState, e: TypingEvent) -> (TypingState, bool) {
    match (s, e) {
        (TypingState::Active, TypingEvent::Tick) => (TypingState::Active, true),
        (TypingState::Active, TypingEvent::BatchFinished) => (TypingState::Draining, false),
        (TypingState::Draining, TypingEvent::Tick) => (TypingState::Draining, true),
        (TypingState::Draining, TypingEvent::GraceElapsed) => (TypingState::Stopped, false),
        _ => (s, false),
    }
}

/// Advances the typing task; the boolean says whether to assert typing now.
pub fn typing_step(s: TypingState, e: TypingEvent) -> (r: (TypingState, bool))
    ensures
        r == typing_step_spec(s, e),
{
    match (s, e) {
        (TypingState::Active, TypingEvent::Tick) => (TypingState::Active, true),
        (TypingState::Active, TypingEvent::BatchFinished) => (TypingState::Draining, false),
        (TypingState::Draining, TypingEvent::Tick) => (TypingState::Draining, true),
        (TypingState::Draining, TypingEvent::GraceElapsed) => (TypingState::Stopped, false),
        _ => (s, false),
    }
}

/// The state after a sequence of observations, starting active.
pub open spec fn typing_run(events: Seq<TypingEvent>) -> TypingState
    decreases events.len(),
{
    if events.len() == 0 {
        TypingState::Active
    } else {
        typing_step_spec(typing_run(events.drop_last()), events.last()).0
    }
}

/// The task stops only after the batch finished: the indicator outlives the
/// message's processing by the grace period, never the other way round.
pub proof fn lemma_typing_outlives_batch(events: Seq<TypingEvent>)
    ensures
        typing_run(events) is Stopped ==> events.contains(TypingEvent::BatchFinished),
    decreases events.len(),
{
    if events.len() > 0 {
        lemma_typing_outlives_batch(events.drop_last());
        if typing_run(events) is Stopped {
            if typing_run(events.drop_last()) is Stopped {
                let i = choose|i: int|
                    0 <= i < events.drop_last().len() && events.drop_last()[i]
                        == TypingEvent::BatchFinished;
                assert(events[i] == TypingEvent::BatchFinished);
            } else {
                assert(typing_run(events.drop_last()) is Draining);
                lemma_draining_saw_batch(events.drop_last());
                let i = choose|i: int|
                    0 <= i < events.drop_last().len() && events.drop_last()[i]
                        == TypingEvent::BatchFinished;
                assert(events[i] == TypingEvent::BatchFinished);
            }
        }
    }
}

/// A draining task has seen the batch finish.
proof fn lemma_draining_saw_batch(events: Seq<TypingEvent>)
    ensures
        typing_run(events) is Draining ==> events.contains(TypingEvent::BatchFinished),
    decreases events.len(),
{
    if events.len() > 0 {
        lemma_draining_saw_batch(events.drop_last());
        if typing_run(events) is Draining {
            if typing_run(events.drop_last()) is Draining {
                let i = choose|i: int|
                    0 <= i < events.drop_last().len() && events.drop_last()[i]
                        == TypingEvent::BatchFinished;
                assert(events[i] == TypingEvent::BatchFinished);
            } else {
                assert(events.last() == TypingEvent::BatchFinished);
                assert(events[events.len() - 1] == TypingEvent::BatchFinished);
            }
        }
    }
}

} // verus!
