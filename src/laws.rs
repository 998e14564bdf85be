//! Properties of the timer that hold over every input and every run.
use vstd::prelude::*;
use crate::engine::{Effect, Message, PomoModel, PomoState, SECOND_MS};
use crate::parse::length_from_text;

verus! {

/// The data after handling each `(message, clock reading)` pair of
/// `events` in order.
pub open spec fn run(m: PomoModel, events: Seq<(Message, u64)>) -> PomoModel
    decreases events.len(),
{
    if events.len() == 0 {
        m
    } else {
        let e = events.last();
        run(m, events.drop_last()).step(e.0, e.1).0
    }
}

/// How many completion signals a run of ticks at the readings `times` gives.
pub open spec fn tick_completions(m: PomoModel, times: Seq<u64>) -> nat
    decreases times.len(),
{
    if times.len() == 0 {
        0
    } else {
        let (n, e) = m.tick(times[0]);
        (if e == Effect::Completed { 1nat } else { 0nat }) + tick_completions(n, times.drop_first())
    }
}

/// Handling any message keeps the time left between zero and the length.
pub proof fn lemma_step_keeps_bounds(m: PomoModel, msg: Message, now: u64)
    requires
        m.wf(),
    ensures
        m.step(msg, now).0.wf(),
{
}

/// Along any sequence of messages from a well-formed start, the time left
/// stays between zero and the length after every message handled.
pub proof fn lemma_run_keeps_bounds(m: PomoModel, events: Seq<(Message, u64)>)
    requires
        m.wf(),
    ensures
        forall|i: int| 0 <= i <= events.len() ==> (#[trigger] run(m, events.take(i))).wf(),
    decreases events.len(),
{
    if events.len() > 0 {
        let prefix = events.drop_last();
        lemma_run_keeps_bounds(m, prefix);
        assert forall|i: int| 0 <= i <= events.len() implies (#[trigger] run(m, events.take(i))).wf() by {
            if i < events.len() {
                assert(events.take(i) =~= prefix.take(i));
            } else {
                assert(events.take(i) =~= events);
                assert(prefix.take(prefix.len() as int) =~= prefix);
                let e = events.last();
                lemma_step_keeps_bounds(run(m, prefix), e.0, e.1);
            }
        }
    }
}

/// Cancelling while idle changes nothing; cancelling while ticking always
/// leaves the engine idle with the full length left, however much time had
/// passed; and cancelling twice is the same as cancelling once.
pub proof fn lemma_cancel(m: PomoModel, now: u64)
    ensures
        m.state is Idle ==> m.step(Message::CancelPressed, now) == (m, Effect::Nothing),
        m.state is Ticking ==> {
            let n = m.step(Message::CancelPressed, now).0;
            &&& n.state is Idle
            &&& n.remaining == m.length
            &&& n.length == m.length
        },
        m.cancel().cancel() == m.cancel(),
        m.state is Ticking ==> m.step(Message::TogglePressed, now) == m.step(
            Message::CancelPressed,
            now,
        ),
{
}

/// A tick that comes later than the last one, while ticking, either
/// completes the countdown, leaving the engine idle with the full length
/// left, or leaves it ticking with strictly less time left than before. It
/// completes exactly when less than one second would be left.
pub proof fn lemma_tick_decreases(m: PomoModel, now: u64)
    requires
        m.wf(),
        m.state matches PomoState::Ticking { last_tick } && last_tick < now,
    ensures
        ({
            let (n, e) = m.tick(now);
            let delta = now - m.state->last_tick;
            &&& e == Effect::Completed <==> m.remaining < delta + SECOND_MS
            &&& e == Effect::Completed ==> n.state is Idle && n.remaining == n.length
            &&& e == Effect::Nothing ==> n.state == PomoState::Ticking { last_tick: now }
                && n.remaining < m.remaining
            &&& n.length == m.length
        }),
{
}

/// An idle engine ignores ticks.
pub proof fn lemma_idle_ignores_ticks(m: PomoModel, now: u64)
    requires
        m.state is Idle,
    ensures
        m.tick(now) == (m, Effect::Nothing),
{
}

/// Any run of ticks gives at most one completion signal: once the countdown
/// crosses zero the engine is idle and ignores the ticks that follow.
pub proof fn lemma_one_completion_per_crossing(m: PomoModel, times: Seq<u64>)
    ensures
        tick_completions(m, times) <= 1,
        m.state is Idle ==> tick_completions(m, times) == 0,
    decreases times.len(),
{
    if times.len() > 0 {
        lemma_one_completion_per_crossing(m.tick(times[0]).0, times.drop_first());
    }
}

/// After a completion signal the engine is idle with the full length left.
pub proof fn lemma_completion_resets(m: PomoModel, msg: Message, now: u64)
    ensures
        m.step(msg, now).1 == Effect::Completed ==> {
            let n = m.step(msg, now).0;
            n.state is Idle && n.remaining == n.length && n.length == m.length
        },
{
}

/// Length text that does not read as a length leaves the engine as it was;
/// text that does sets the length, and while idle the time left with it.
pub proof fn lemma_length_text(m: PomoModel, text: String, now: u64)
    ensures
        length_from_text(text@) is None ==> m.step(Message::PomoLengthChanged(text), now) == (
            m,
            Effect::Nothing,
        ),
        length_from_text(text@) matches Some(len) ==> {
            let n = m.step(Message::PomoLengthChanged(text), now).0;
            &&& n.length == len
            &&& n.state == m.state
            &&& m.state is Idle ==> n.remaining == len
        },
{
}

} // verus!
