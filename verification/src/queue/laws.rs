//! What holds of the queue across its operations.

use crate::queue::buffer::after_arrival;
use crate::queue::buffer::after_tick;
use crate::queue::buffer::chosen_pts;
use crate::queue::buffer::survivor;
use crate::queue::buffer::caught_up;
use crate::queue::buffer::chosen_frame;
use crate::queue::clock::silent_for_longer;
use crate::queue::clock::tick_is_due;
use crate::queue::clock::tick_is_overdue;
use crate::queue::clock::tick_pts;
use crate::queue::clock::MAX_TICK;
use crate::queue::frame::RawFrame;
use crate::queue::model::BatchModel;
use crate::queue::model::InputModel;
use crate::queue::model::ListenerId;
use crate::queue::model::QueueModel;
use crate::queue::model::Subscription;
use crate::queue::model::TickModel;
use vstd::prelude::*;

verus! {

/// Filtering one identifier out of inputs with distinct identifiers removes
/// the one input that has it, and nothing where no input has it.
pub proof fn lemma_filter_out_one(inputs: Seq<InputModel>, id: Seq<char>)
    requires
        forall|i: int, j: int| 0 <= i < j < inputs.len() ==> inputs[i].id != inputs[j].id,
    ensures
        forall|at: int|
            0 <= at < inputs.len() && inputs[at].id == id ==> inputs.filter(
                |input: InputModel| input.id != id,
            ) == inputs.remove(at),
        (forall|i: int| 0 <= i < inputs.len() ==> inputs[i].id != id) ==> inputs.filter(
            |input: InputModel| input.id != id,
        ) == inputs,
    decreases inputs.len(),
{
    let test = |input: InputModel| input.id != id;
    reveal(Seq::filter);
    if inputs.len() > 0 {
        let head = inputs.drop_last();
        lemma_filter_out_one(head, id);
        assert forall|i: int| 0 <= i < head.len() implies head[i] == inputs[i] by {}
        if inputs.last().id == id {
            assert forall|i: int| 0 <= i < head.len() implies head[i].id != id by {
                assert(inputs[i].id != inputs[inputs.len() - 1].id);
            }
            assert(head.filter(test) == head);
            assert(inputs.remove(inputs.len() - 1) =~= head);
            assert forall|at: int| 0 <= at < inputs.len() && inputs[at].id == id implies at
                == inputs.len() - 1 by {
                if at < inputs.len() - 1 {
                    assert(inputs[at].id != inputs[inputs.len() - 1].id);
                }
            }
        } else {
            assert forall|at: int| 0 <= at < inputs.len() && inputs[at].id == id implies inputs.filter(
                test,
            ) == inputs.remove(at) by {
                assert(head[at].id == id);
                assert(head.filter(test) == head.remove(at));
                assert(head.remove(at).push(inputs.last()) =~= inputs.remove(at));
            }
            if forall|i: int| 0 <= i < inputs.len() ==> inputs[i].id != id {
                assert(head.filter(test) == head);
                assert(head.push(inputs.last()) =~= inputs);
            }
        }
    }
}

/// Taking in a frame leaves a sound queue sound.
pub proof fn lemma_enqueue_keeps_sound(queue: QueueModel, frame: RawFrame, now: nat)
    requires
        queue.is_sound(),
        frame.is_valid(),
    ensures
        queue.enqueue(frame, now).is_sound(),
{
    let after = queue.enqueue(frame, now);
    assert forall|i: int, j: int|
        0 <= i < after.inputs.len() && 0 <= j < after.inputs[i].frames.len() implies (
    #[trigger] after.inputs[i].frames[j]).is_valid() && after.inputs[i].frames[j].input_id@
        == after.inputs[i].id by {
        let was = queue.inputs[i];
        if was.id == frame.input_id@ {
            let grown = was.frames.push(frame);
            assert(after.inputs[i].frames == after_arrival(was.frames, frame, queue.buffer_bound));
            if was.frames.len() + 1 > queue.buffer_bound {
                assert(after.inputs[i].frames[j] == grown[j + 1]);
                if j + 1 < was.frames.len() {
                    assert(grown[j + 1] == was.frames[j + 1]);
                }
            } else {
                if j < was.frames.len() {
                    assert(grown[j] == was.frames[j]);
                }
            }
        } else {
            assert(after.inputs[i].frames[j] == was.frames[j]);
        }
    }
}

/// Serving a tick leaves a sound queue sound, as long as the queue runs and
/// the tick counter has room.
pub proof fn lemma_advance_keeps_sound(queue: QueueModel)
    requires
        queue.is_sound(),
        queue.started_at is Some,
        queue.next_tick <= MAX_TICK,
    ensures
        queue.advance().is_sound(),
{
    let after = queue.advance();
    assert forall|i: int, j: int|
        0 <= i < after.inputs.len() && 0 <= j < after.inputs[i].frames.len() implies (
    #[trigger] after.inputs[i].frames[j]).is_valid() && after.inputs[i].frames[j].input_id@
        == after.inputs[i].id by {
        let was = queue.inputs[i].frames;
        let tick = queue.next_tick as int;
        let test = survivor(chosen_pts(was, tick, queue.framerate), tick, queue.framerate);
        assert(after.inputs[i].frames == after_tick(was, tick, queue.framerate));
        let kept = was.filter(test);
        assert(kept.contains(kept[j]));
        was.lemma_filter_contains_rev(test, kept[j]);
        let k = choose|k: int| 0 <= k < was.len() && was[k] == kept[j];
        assert(was[k].is_valid());
    }
}

/// One thing that can happen to a queue.
pub enum QueueEvent {
    /// An input is registered at a time.
    AddInput(Seq<char>, nat),
    /// An input is removed.
    RemoveInput(Seq<char>),
    /// A frame is handed in at a time.
    Enqueue(RawFrame, nat),
    /// A listener subscribes to an input.
    Subscribe(Seq<char>, ListenerId),
    /// The queue is started at a time.
    Start(nat),
    /// The queue looks at the clock at a time.
    Poll(nat),
}

/// The queue after `event`, as the operation of that name leaves it.
pub open spec fn after_event(queue: QueueModel, event: QueueEvent) -> QueueModel {
    match event {
        QueueEvent::AddInput(id, now) => queue.add_input(id, now),
        QueueEvent::RemoveInput(id) => queue.remove_input(id),
        QueueEvent::Enqueue(frame, now) => if frame.is_valid() && queue.has_input(
            frame.input_id@,
        ) {
            queue.enqueue(frame, now)
        } else {
            queue
        },
        QueueEvent::Subscribe(id, listener) => queue.subscribe(id, listener),
        QueueEvent::Start(now) => if queue.started_at is None {
            queue.start(now)
        } else {
            queue
        },
        QueueEvent::Poll(now) => queue.poll(now),
    }
}

/// The queue after `events`, one after the other.
pub open spec fn after_events(queue: QueueModel, events: Seq<QueueEvent>) -> QueueModel
    decreases events.len(),
{
    if events.len() == 0 {
        queue
    } else {
        after_event(after_events(queue, events.drop_last()), events.last())
    }
}

/// The indices of the ticks that were served in the course of `events`, in
/// the order in which they were served.
pub open spec fn ticks_served(queue: QueueModel, events: Seq<QueueEvent>) -> Seq<nat>
    decreases events.len(),
{
    if events.len() == 0 {
        Seq::empty()
    } else {
        let earlier = ticks_served(queue, events.drop_last());
        let reached = after_events(queue, events.drop_last());
        match events.last() {
            QueueEvent::Poll(now) => if reached.is_ready(now) {
                earlier.push(reached.next_tick)
            } else {
                earlier
            },
            _ => earlier,
        }
    }
}

/// No event makes a sound queue unsound.
pub proof fn lemma_event_keeps_sound(queue: QueueModel, event: QueueEvent)
    requires
        queue.is_sound(),
    ensures
        after_event(queue, event).is_sound(),
{
    let after = after_event(queue, event);
    match event {
        QueueEvent::AddInput(id, now) => {},
        QueueEvent::RemoveInput(id) => {
            lemma_filter_out_one(queue.inputs, id);
            if queue.has_input(id) {
                let at = choose|i: int| 0 <= i < queue.inputs.len() && queue.inputs[i].id == id;
                assert(after.inputs == queue.inputs.remove(at));
                assert forall|i: int| 0 <= i < after.inputs.len() implies after.inputs[i]
                    == queue.inputs[if i < at {
                    i
                } else {
                    i + 1
                }] by {}
            } else {
                assert(after.inputs == queue.inputs);
            }
        },
        QueueEvent::Enqueue(frame, now) => {
            if frame.is_valid() && queue.has_input(frame.input_id@) {
                lemma_enqueue_keeps_sound(queue, frame, now);
            }
        },
        QueueEvent::Subscribe(id, listener) => {},
        QueueEvent::Start(now) => {},
        QueueEvent::Poll(now) => {
            if queue.is_ready(now) {
                lemma_advance_keeps_sound(queue);
            }
        },
    }
}

/// Whatever happens to a sound queue, it stays sound.
pub proof fn law_queue_stays_sound(queue: QueueModel, events: Seq<QueueEvent>)
    requires
        queue.is_sound(),
    ensures
        after_events(queue, events).is_sound(),
    decreases events.len(),
{
    if events.len() > 0 {
        law_queue_stays_sound(queue, events.drop_last());
        lemma_event_keeps_sound(after_events(queue, events.drop_last()), events.last());
    }
}

/// Ticks come one by one: whatever happens to a queue, the ticks that it serves
/// are consecutive. The first one served is the queue's next tick, the one
/// after that the next, with no gap and no repetition; for a fresh queue
/// they are 0, 1, 2 and so on. The tick counter always stands one past the
/// last tick served.
pub proof fn law_ticks_are_consecutive(queue: QueueModel, events: Seq<QueueEvent>)
    ensures
        forall|i: int|
            0 <= i < ticks_served(queue, events).len() ==> #[trigger] ticks_served(
                queue,
                events,
            )[i] == queue.next_tick + i,
        after_events(queue, events).next_tick == queue.next_tick + ticks_served(
            queue,
            events,
        ).len(),
        after_events(queue, events).framerate == queue.framerate,
    decreases events.len(),
{
    if events.len() > 0 {
        law_ticks_are_consecutive(queue, events.drop_last());
    }
}

/// Ticks are counted from zero at the start: whatever happens to a sound
/// queue that has not been started, the ticks that it serves are 0, 1, 2 and
/// so on, without a gap and without a repetition, and none is served before
/// the queue is started. The `k`-th batch-or-skip after the start is tick
/// `k`, to be presented at `k * den / num` seconds.
pub proof fn law_ticks_count_from_zero(queue: QueueModel, events: Seq<QueueEvent>)
    requires
        queue.is_sound(),
        queue.started_at is None,
    ensures
        forall|k: int|
            0 <= k < ticks_served(queue, events).len() ==> #[trigger] ticks_served(
                queue,
                events,
            )[k] == k,
        after_events(queue, events).next_tick == ticks_served(queue, events).len(),
        after_events(queue, events).started_at is None ==> ticks_served(queue, events).len() == 0,
        forall|i: int|
            0 <= i < batches_emitted(queue, events).len() ==> {
                let batch = #[trigger] batches_emitted(queue, events)[i];
                &&& i <= batch.tick < ticks_served(queue, events).len()
                &&& batch.pts == tick_pts(batch.tick, queue.framerate)
                &&& batch.pts.num == batch.tick * queue.framerate.den
                &&& batch.pts.den == queue.framerate.num
            },
        batches_emitted(queue, events).len() == ticks_served(queue, events).len() ==> forall|
            i: int,
        |
            0 <= i < batches_emitted(queue, events).len() ==> (#[trigger] batches_emitted(
                queue,
                events,
            )[i]).tick == i,
{
    law_ticks_are_consecutive(queue, events);
    law_batches_follow_the_ticks(queue, events);
    law_queue_stays_sound(queue, events);
    assert forall|i: int| 0 <= i < batches_emitted(queue, events).len() implies {
        let batch = #[trigger] batches_emitted(queue, events)[i];
        batch.pts.num == batch.tick * queue.framerate.den
    } by {
        let batch = batches_emitted(queue, events)[i];
        assert(batch.tick <= MAX_TICK);
        assert(batch.tick * queue.framerate.den <= MAX_TICK * 0xFFFF_FFFF) by (nonlinear_arith)
            requires
                batch.tick <= MAX_TICK,
                queue.framerate.den <= 0xFFFF_FFFF,
        ;
    }
}

/// The batches that were handed on in the course of `events`, in the order
/// in which they were handed on.
pub open spec fn batches_emitted(queue: QueueModel, events: Seq<QueueEvent>) -> Seq<BatchModel>
    decreases events.len(),
{
    if events.len() == 0 {
        Seq::empty()
    } else {
        let earlier = batches_emitted(queue, events.drop_last());
        let reached = after_events(queue, events.drop_last());
        match events.last() {
            QueueEvent::Poll(now) => match reached.poll_outcome(now) {
                TickModel::Emitted(batch) => earlier.push(batch),
                _ => earlier,
            },
            _ => earlier,
        }
    }
}

/// Batches follow the ticks: whatever happens to a queue, the
/// batches that it hands on carry increasing tick indices, each batch the
/// presentation time `index * den / num` of its tick, and none a tick before
/// the queue's next one. Where no served tick was skipped for want of
/// frames, the batches carry the ticks one by one, without a gap: for a
/// fresh queue the presentation times 0, `den / num`, twice that, and so on.
pub proof fn law_batches_follow_the_ticks(queue: QueueModel, events: Seq<QueueEvent>)
    ensures
        batches_emitted(queue, events).len() <= ticks_served(queue, events).len(),
        forall|i: int|
            0 <= i < batches_emitted(queue, events).len() ==> {
                let batch = #[trigger] batches_emitted(queue, events)[i];
                &&& queue.next_tick + i <= batch.tick < after_events(queue, events).next_tick
                &&& batch.pts == tick_pts(batch.tick, queue.framerate)
            },
        forall|i: int, j: int|
            0 <= i < j < batches_emitted(queue, events).len() ==> batches_emitted(
                queue,
                events,
            )[i].tick < batches_emitted(queue, events)[j].tick,
        batches_emitted(queue, events).len() == ticks_served(queue, events).len() ==> forall|
            i: int,
        |
            0 <= i < batches_emitted(queue, events).len() ==> (#[trigger] batches_emitted(
                queue,
                events,
            )[i]).tick == queue.next_tick + i,
    decreases events.len(),
{
    if events.len() > 0 {
        let earlier = events.drop_last();
        law_batches_follow_the_ticks(queue, earlier);
        law_ticks_are_consecutive(queue, earlier);
        law_ticks_are_consecutive(queue, events);
        let batches = batches_emitted(queue, events);
        let before = batches_emitted(queue, earlier);
        assert forall|i: int, j: int| 0 <= i < j < batches.len() implies batches[i].tick
            < batches[j].tick by {
            if j < before.len() {
                assert(batches[i] == before[i] && batches[j] == before[j]);
            } else {
                assert(batches[i] == before[i]);
            }
        }
    }
}

/// Tick presentation times: a served tick that has frames to show is handed
/// on under its own index, at the presentation time `index * den / num`; one
/// that has none is skipped under its own index. With
/// [`law_ticks_are_consecutive`], the presentation times of the ticks served
/// by a fresh queue are 0, `den / num`, twice that, and so on.
pub proof fn law_tick_carries_its_time(queue: QueueModel, now: nat)
    requires
        queue.is_ready(now),
    ensures
        match queue.poll_outcome(now) {
            TickModel::Emitted(batch) => batch.tick == queue.next_tick && batch.pts == tick_pts(
                queue.next_tick,
                queue.framerate,
            ) && batch.pts.num == queue.next_tick * queue.framerate.den && batch.pts.den
                == queue.framerate.num,
            TickModel::Skipped(tick) => tick == queue.next_tick,
            _ => false,
        },
        queue.poll(now).next_tick == queue.next_tick + 1,
{
    assert(queue.next_tick * queue.framerate.den <= MAX_TICK * 0xFFFF_FFFF) by (nonlinear_arith)
        requires
            queue.next_tick <= MAX_TICK,
            queue.framerate.den <= 0xFFFF_FFFF,
    ;
}

/// No tick waits for ever: a look at the clock at or after the moment at which the
/// next tick is late by the fallback timeout serves that tick, whatever the
/// inputs hold. No tick waits longer than that for an input.
pub proof fn law_overdue_tick_is_served(queue: QueueModel, now: nat)
    requires
        queue.framerate.is_valid(),
        queue.started_at is Some,
        queue.next_tick <= MAX_TICK,
        tick_is_overdue(
            now as int,
            queue.started_at->0 as int,
            queue.next_tick as int,
            queue.framerate,
            queue.fallback_timeout as int,
        ),
    ensures
        queue.is_ready(now),
        queue.poll(now).next_tick == queue.next_tick + 1,
        queue.poll_outcome(now) is Emitted || queue.poll_outcome(now) is Skipped,
{
    let elapsed = now - queue.started_at->0;
    let timeout = queue.fallback_timeout as int;
    let rate = queue.framerate.num as int;
    assert(elapsed * rate >= (elapsed - timeout) * rate) by (nonlinear_arith)
        requires
            timeout >= 0,
            rate > 0,
    ;
}

/// An input that has been silent for longer than the fallback timeout holds
/// no tick back, and neither does one that has reached the tick.
pub proof fn law_silent_input_is_not_waited_for(queue: QueueModel, input: InputModel, now: nat)
    requires
        silent_for_longer(now as int, input.last_seen as int, queue.fallback_timeout as int)
            || caught_up(input.frames, queue.next_tick as int, queue.framerate),
    ensures
        !queue.waits_for(input, now),
{
}

/// A tick whose instant has come is served as soon as no input holds it
/// back; in particular at once by a queue without inputs, which then skips
/// it.
pub proof fn law_unhindered_tick_is_served(queue: QueueModel, now: nat)
    requires
        queue.started_at is Some,
        queue.next_tick <= MAX_TICK,
        tick_is_due(
            now as int,
            queue.started_at->0 as int,
            queue.next_tick as int,
            queue.framerate,
        ),
        forall|i: int| 0 <= i < queue.inputs.len() ==> !queue.waits_for(queue.inputs[i], now),
    ensures
        queue.is_ready(now),
        queue.inputs.len() == 0 ==> queue.poll_outcome(now) == TickModel::Skipped(queue.next_tick),
{
    if queue.inputs.len() == 0 {
        assert(queue.contributions() =~= Seq::<RawFrame>::empty());
    }
}

/// Every input lives its own life in the queue: a frame that is taken in
/// arrives at its own input and leaves the frames of every other input
/// alone, and a tick that is served is served from each input's own frames.
/// These are the steps that [`crate::queue::order`] follows.
pub proof fn law_inputs_are_served_apart(queue: QueueModel, frame: RawFrame, now: nat, i: int)
    requires
        0 <= i < queue.inputs.len(),
    ensures
        queue.enqueue(frame, now).inputs[i].frames == if queue.inputs[i].id == frame.input_id@ {
            after_arrival(queue.inputs[i].frames, frame, queue.buffer_bound)
        } else {
            queue.inputs[i].frames
        },
        queue.advance().inputs[i].frames == after_tick(
            queue.inputs[i].frames,
            queue.next_tick as int,
            queue.framerate,
        ),
        queue.enqueue(frame, now).inputs[i].id == queue.inputs[i].id,
        queue.advance().inputs[i].id == queue.inputs[i].id,
{
}

/// Where the frames of a batch come from: each from an input of its own, the
/// inputs in the order of their registration.
pub open spec fn is_drawn_from(batch: Seq<RawFrame>, queue: QueueModel, from: Seq<int>) -> bool {
    &&& from.len() == batch.len()
    &&& forall|j: int|
        0 <= j < from.len() ==> 0 <= #[trigger] from[j] < queue.inputs.len() && chosen_frame(
            queue.inputs[from[j]].frames,
            queue.next_tick as int,
            queue.framerate,
        ) == Some(batch[j])
    &&& forall|j: int, k: int| 0 <= j < k < from.len() ==> from[j] < from[k]
}

proof fn lemma_contributions(queue: QueueModel, upto: int) -> (from: Seq<int>)
    requires
        0 <= upto <= queue.inputs.len(),
    ensures
        is_drawn_from(
            queue.inputs.take(upto).filter_map(
                |input: InputModel|
                    chosen_frame(input.frames, queue.next_tick as int, queue.framerate),
            ),
            queue,
            from,
        ),
        forall|j: int| 0 <= j < from.len() ==> from[j] < upto,
        forall|i: int|
            0 <= i < upto && chosen_frame(
                queue.inputs[i].frames,
                queue.next_tick as int,
                queue.framerate,
            ) is Some ==> exists|j: int| 0 <= j < from.len() && #[trigger] from[j] == i,
    decreases upto,
{
    let give = |input: InputModel|
        chosen_frame(input.frames, queue.next_tick as int, queue.framerate);
    if upto == 0 {
        assert(queue.inputs.take(0).filter_map(give) =~= Seq::<RawFrame>::empty());
        Seq::empty()
    } else {
        let before = lemma_contributions(queue, upto - 1);
        queue.inputs.lemma_filter_map_take_succ(give, upto - 1);
        let from = match give(queue.inputs[upto - 1]) {
            Some(frame) => before.push(upto - 1),
            None => before,
        };
        assert forall|i: int|
            0 <= i < upto && chosen_frame(
                queue.inputs[i].frames,
                queue.next_tick as int,
                queue.framerate,
            ) is Some implies exists|j: int| 0 <= j < from.len() && #[trigger] from[j] == i by {
            if i < upto - 1 {
                let j = choose|j: int| 0 <= j < before.len() && #[trigger] before[j] == i;
                assert(from[j] == i);
            } else {
                assert(from[from.len() - 1] == i);
            }
        }
        from
    }
}

/// A batch is a map from inputs to frames: every frame of a tick is the
/// chosen frame of a registered input, no input gives more than one, each
/// frame carries the identifier of the input that gave it, and every input
/// that has a chosen frame gives it.
pub proof fn law_batch_is_a_map(queue: QueueModel)
    requires
        queue.is_sound(),
    ensures
        forall|j: int|
            0 <= j < queue.contributions().len() ==> queue.has_input(
                (#[trigger] queue.contributions()[j]).input_id@,
            ),
        forall|j: int, k: int|
            0 <= j < k < queue.contributions().len() ==> queue.contributions()[j].input_id@
                != queue.contributions()[k].input_id@,
        exists|from: Seq<int>| is_drawn_from(queue.contributions(), queue, from),
        forall|i: int|
            0 <= i < queue.inputs.len() ==> match chosen_frame(
                (#[trigger] queue.inputs[i]).frames,
                queue.next_tick as int,
                queue.framerate,
            ) {
                Some(frame) => queue.contributions().contains(frame),
                None => true,
            },
{
    let from = lemma_contributions(queue, queue.inputs.len() as int);
    assert forall|i: int| 0 <= i < queue.inputs.len() implies match chosen_frame(
        (#[trigger] queue.inputs[i]).frames,
        queue.next_tick as int,
        queue.framerate,
    ) {
        Some(frame) => queue.contributions().contains(frame),
        None => true,
    } by {
        if chosen_frame(queue.inputs[i].frames, queue.next_tick as int, queue.framerate) is Some {
            assert(queue.inputs.take(queue.inputs.len() as int) =~= queue.inputs);
            let j = choose|j: int| 0 <= j < from.len() && #[trigger] from[j] == i;
            assert(queue.contributions()[j] == chosen_frame(
                queue.inputs[from[j]].frames,
                queue.next_tick as int,
                queue.framerate,
            )->0);
        }
    }
    assert(queue.inputs.take(queue.inputs.len() as int) =~= queue.inputs);
    let batch = queue.contributions();
    assert(is_drawn_from(batch, queue, from));
    assert forall|j: int| 0 <= j < batch.len() implies (#[trigger] batch[j]).input_id@
        == queue.inputs[from[j]].id by {
        let frames = queue.inputs[from[j]].frames;
        crate::queue::buffer::lemma_chosen_index(frames, queue.next_tick as int, queue.framerate);
        let at = crate::queue::buffer::chosen_index(
            frames,
            queue.next_tick as int,
            queue.framerate,
        )->0;
        assert(frames[at] == batch[j]);
        assert(queue.inputs[from[j]].frames[at].input_id@ == queue.inputs[from[j]].id);
    }
    assert forall|j: int, k: int| 0 <= j < k < batch.len() implies batch[j].input_id@
        != batch[k].input_id@ by {
        assert(from[j] < from[k]);
        assert(queue.inputs[from[j]].id != queue.inputs[from[k]].id);
    }
}

/// A listener waits for the next frame: a subscription only adds the listener,
/// behind those that wait already for the same input; the listeners of every
/// other input stay as they are.
pub proof fn law_subscription_waits(
    queue: QueueModel,
    id: Seq<char>,
    listener: ListenerId,
    other: Seq<char>,
)
    ensures
        queue.subscribe(id, listener).listeners_of(id) == queue.listeners_of(id).push(listener),
        other != id ==> queue.subscribe(id, listener).listeners_of(other) == queue.listeners_of(
            other,
        ),
{
    let leaves = |s: Subscription| s.input == id;
    let others = |s: Subscription| s.input == other;
    let added = Subscription { input: id, listener };
    queue.subscriptions.lemma_filter_push(added, leaves);
    queue.subscriptions.lemma_filter_push(added, others);
    assert(queue.subscribe(id, listener).listeners_of(id) =~= queue.listeners_of(id).push(
        listener,
    ));
}

/// A listener fires once: a frame that is taken in uses up the
/// subscriptions to its input, so that the listeners handed back with it are
/// handed back with no later frame; the subscriptions to every other input
/// stay as they are.
pub proof fn law_listeners_fire_once(queue: QueueModel, frame: RawFrame, now: nat, other: Seq<char>)
    ensures
        queue.enqueue(frame, now).listeners_of(frame.input_id@) == Seq::<ListenerId>::empty(),
        other != frame.input_id@ ==> queue.enqueue(frame, now).listeners_of(other)
            == queue.listeners_of(other),
{
    let id = frame.input_id@;
    let stays = |s: Subscription| s.input != id;
    let leaves = |s: Subscription| s.input == id;
    let others = |s: Subscription| s.input == other;
    let left = queue.subscriptions.filter(stays);
    lemma_filter_twice(queue.subscriptions, stays, leaves);
    lemma_filter_twice(queue.subscriptions, stays, others);
    lemma_filter_none(queue.subscriptions, |s: Subscription| stays(s) && leaves(s));
    assert(left.filter(leaves) == Seq::<Subscription>::empty());
    assert(queue.enqueue(frame, now).listeners_of(id) =~= Seq::<ListenerId>::empty());
    if other != id {
        lemma_filter_same(
            queue.subscriptions,
            |s: Subscription| stays(s) && others(s),
            others,
        );
    }
}

/// Only frames fire listeners: registering or removing an
/// input, starting the queue and looking at the clock leave every
/// subscription where it is, and so does a frame that is refused.
pub proof fn law_only_frames_fire(queue: QueueModel, event: QueueEvent)
    requires
        !(event is Subscribe),
        event matches QueueEvent::Enqueue(frame, _) ==> !(frame.is_valid() && queue.has_input(
            frame.input_id@,
        )),
    ensures
        after_event(queue, event).subscriptions == queue.subscriptions,
{
}

/// Filtering twice is filtering by both tests at once.
pub proof fn lemma_filter_twice<A>(
    items: Seq<A>,
    first: spec_fn(A) -> bool,
    second: spec_fn(A) -> bool,
)
    ensures
        items.filter(first).filter(second) == items.filter(|a: A| first(a) && second(a)),
    decreases items.len(),
{
    reveal(Seq::filter);
    let both = |a: A| first(a) && second(a);
    if items.len() > 0 {
        let head = items.drop_last();
        lemma_filter_twice(head, first, second);
        if first(items.last()) {
            head.filter(first).lemma_filter_push(items.last(), second);
        }
    }
}

/// A filter that no element passes leaves nothing.
pub proof fn lemma_filter_none<A>(items: Seq<A>, test: spec_fn(A) -> bool)
    requires
        forall|a: A| !#[trigger] test(a),
    ensures
        items.filter(test) == Seq::<A>::empty(),
    decreases items.len(),
{
    reveal(Seq::filter);
    if items.len() > 0 {
        lemma_filter_none(items.drop_last(), test);
    }
}

/// Two tests that agree on every element filter alike.
pub proof fn lemma_filter_same<A>(
    items: Seq<A>,
    first: spec_fn(A) -> bool,
    second: spec_fn(A) -> bool,
)
    requires
        forall|a: A| #[trigger] first(a) == second(a),
    ensures
        items.filter(first) == items.filter(second),
    decreases items.len(),
{
    reveal(Seq::filter);
    if items.len() > 0 {
        lemma_filter_same(items.drop_last(), first, second);
    }
}

} // verus!
