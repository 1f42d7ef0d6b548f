//! What holds of the recording controller over every sequence of events.

use vstd::prelude::*;
use crate::capture::REQUIRED_SAMPLE_RATE;
use crate::recorder::{CaptureState, Event, RecorderModel};
use crate::resample::{is_resampling, resampled_len};

verus! {

/// Whether `event` may take a controller from the state `from` to the other
/// state `to`: the edges of the machine.
pub open spec fn is_permitted<T>(from: CaptureState, event: Event<T>, to: CaptureState) -> bool {
    ||| from == CaptureState::Idle && event is Start && to == CaptureState::Starting
    ||| from == CaptureState::Starting && event is Ready && to == CaptureState::Active
    ||| from == CaptureState::Starting && (event is Abort || event is Poll) && to
        == CaptureState::Idle
    ||| from == CaptureState::Active && event is Stop && to == CaptureState::Idle
}

/// Whether the readiness report at `i` in `events` made a fresh controller
/// `Active` and it has stayed so through the rest of `events`.
pub open spec fn confirmed_at<T>(events: Seq<Event<T>>, i: int) -> bool {
    &&& 0 <= i < events.len()
    &&& events[i] is Ready
    &&& RecorderModel::<T>::initial().run(events.take(i)).state == CaptureState::Starting
    &&& forall|j: int|
        i < j <= events.len() ==> (#[trigger] RecorderModel::<T>::initial().run(
            events.take(j),
        )).state == CaptureState::Active
}

/// The state changes only along the machine's edges: a start takes `Idle` to
/// `Starting`; a readiness report takes `Starting` to `Active`; a failure
/// report, or a poll past the timeout, takes `Starting` to `Idle`; a stop
/// takes `Active` to `Idle`. No event changes the state in any other way.
pub proof fn lemma_only_permitted_transitions<T>(model: RecorderModel<T>, event: Event<T>)
    ensures
        model.step(event).state != model.state ==> is_permitted(
            model.state,
            event,
            model.step(event).state,
        ),
{
}

/// A prefix of a sequence without its last element is a prefix of the
/// sequence.
proof fn lemma_take_of_drop_last<T>(events: Seq<Event<T>>, j: int)
    requires
        0 <= j < events.len(),
    ensures
        events.drop_last().take(j) == events.take(j),
{
    assert(events.drop_last().take(j) =~= events.take(j));
}

/// A controller that started idle is `Active` only behind a readiness report:
/// whatever the events were, if it is `Active` after them, then one of them
/// was a readiness report that met the controller `Starting`, and the
/// controller has been `Active` from that report on.
pub proof fn lemma_active_only_after_ready<T>(events: Seq<Event<T>>)
    ensures
        RecorderModel::<T>::initial().run(events).state == CaptureState::Active ==> exists|i: int|
            confirmed_at(events, i),
    decreases events.len(),
{
    let start = RecorderModel::<T>::initial();
    if events.len() > 0 && start.run(events).state == CaptureState::Active {
        let earlier = events.drop_last();
        let n = events.len() as int;
        assert(events.take(n) =~= events);
        assert(events.take(n - 1) =~= earlier);
        if start.run(earlier).state == CaptureState::Active {
            lemma_active_only_after_ready(earlier);
            let i = choose|i: int| confirmed_at(earlier, i);
            lemma_take_of_drop_last(events, i);
            assert(events[i] == earlier[i]);
            assert forall|j: int| i < j <= events.len() implies (#[trigger] start.run(
                events.take(j),
            )).state == CaptureState::Active by {
                if j < n {
                    lemma_take_of_drop_last(events, j);
                    assert(start.run(earlier.take(j)).state == CaptureState::Active);
                }
            }
            assert(confirmed_at(events, i));
        } else {
            lemma_only_permitted_transitions(start.run(earlier), events.last());
            assert(events[n - 1] is Ready);
            assert(confirmed_at(events, n - 1));
        }
    }
}

/// There is never more than one session: over any events, the sessions
/// opened exceed the sessions ended by one while the controller is `Starting`
/// or `Active`, and by none while it is `Idle`.
pub proof fn lemma_at_most_one_session<T>(events: Seq<Event<T>>)
    ensures
        RecorderModel::<T>::initial().run(events).state == CaptureState::Idle
            ==> RecorderModel::<T>::initial().open_sessions(events) == 0,
        RecorderModel::<T>::initial().run(events).state != CaptureState::Idle
            ==> RecorderModel::<T>::initial().open_sessions(events) == 1,
    decreases events.len(),
{
    if events.len() > 0 {
        lemma_at_most_one_session(events.drop_last());
        lemma_only_permitted_transitions(
            RecorderModel::<T>::initial().run(events.drop_last()),
            events.last(),
        );
    }
}

/// A start on a controller that has a session changes nothing, and a stop on
/// one that does not record changes nothing.
pub proof fn lemma_refused_calls_change_nothing<T>(model: RecorderModel<T>)
    ensures
        model.state != CaptureState::Idle ==> model.step(Event::Start) == model,
        model.state != CaptureState::Active ==> model.step(Event::Stop) == model,
{
}

/// The capture path returns what went in. Start a session on a fresh
/// controller, confirm it at `rate`, and let it deliver the mono samples
/// `data`. The controller is then recording and holds exactly `data`; and
/// whatever a stop returns as the conversion of that recording is `data`
/// itself where `rate` is the recognizer's rate, and else has
/// `floor(len * required / rate)` samples.
pub proof fn lemma_capture_path<T, F: Fn(T, T, u32, u32) -> T>(
    lerp: F,
    rate: u32,
    data: Seq<T>,
    out: Seq<T>,
)
    requires
        is_resampling(lerp, data, rate, REQUIRED_SAMPLE_RATE, out),
    ensures
        ({
            let session = RecorderModel::<T>::initial().step(Event::Start).step(
                Event::Ready(rate),
            ).step(Event::Capture(data));
            &&& session.state == CaptureState::Active
            &&& session.sample_rate == rate
            &&& session.samples == data
            &&& session.step(Event::Stop).state == CaptureState::Idle
            &&& session.step(Event::Stop).samples.len() == 0
        }),
        rate == REQUIRED_SAMPLE_RATE ==> out == data,
        rate != REQUIRED_SAMPLE_RATE && data.len() > 0 ==> out.len() == resampled_len(
            data.len(),
            rate as nat,
            REQUIRED_SAMPLE_RATE as nat,
        ),
        rate != REQUIRED_SAMPLE_RATE && data.len() == 0 ==> out.len() == 0,
{
    let session = RecorderModel::<T>::initial().step(Event::Start).step(Event::Ready(rate)).step(
        Event::Capture(data),
    );
    assert(session.samples =~= data);
}

/// Samples stay where they are while a session records: after any capture,
/// what was stored before is a prefix of what is stored now, so the samples
/// behind an offset that a reader remembers only ever grow at their end.
pub proof fn lemma_capture_only_appends<T>(model: RecorderModel<T>, mono: Seq<T>)
    ensures
        model.step(Event::Capture(mono)).samples.len() >= model.samples.len(),
        model.step(Event::Capture(mono)).samples.subrange(0, model.samples.len() as int)
            == model.samples,
        model.step(Event::Capture(mono)).state == model.state,
{
    assert(model.step(Event::Capture(mono)).samples.subrange(0, model.samples.len() as int)
        =~= model.samples);
}

/// The blocks of `blocks` one behind the other.
pub open spec fn concatenated<T>(blocks: Seq<Seq<T>>) -> Seq<T>
    decreases blocks.len(),
{
    if blocks.len() == 0 {
        Seq::empty()
    } else {
        concatenated(blocks.drop_last()) + blocks.last()
    }
}

/// The events in which a session delivers `blocks`, one block per event.
pub open spec fn deliveries<T>(blocks: Seq<Seq<T>>) -> Seq<Event<T>> {
    Seq::new(blocks.len(), |i: int| Event::Capture(blocks[i]))
}

/// However a recording is cut into blocks, it is stored whole and in order:
/// a controller with a session that takes `blocks` one after the other holds
/// what it held before and then the blocks' samples, and is in the state it
/// was in.
pub proof fn lemma_blocks_accumulate<T>(model: RecorderModel<T>, blocks: Seq<Seq<T>>)
    requires
        model.gate_open(),
    ensures
        model.run(deliveries(blocks)).samples == model.samples + concatenated(blocks),
        model.run(deliveries(blocks)).state == model.state,
        model.run(deliveries(blocks)).sample_rate == model.sample_rate,
    decreases blocks.len(),
{
    if blocks.len() == 0 {
        assert(model.samples + concatenated(blocks) =~= model.samples);
    } else {
        let earlier = blocks.drop_last();
        lemma_blocks_accumulate(model, earlier);
        assert(deliveries(blocks).drop_last() =~= deliveries(earlier));
        assert(deliveries(blocks).last() == Event::Capture(blocks.last()));
        assert(model.run(deliveries(blocks)).samples =~= model.samples + concatenated(blocks));
    }
}

} // verus!
