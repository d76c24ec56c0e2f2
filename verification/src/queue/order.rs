//! The order of the frames of each input.
//!
//! The queue treats the frames of each input on their own: a frame that is
//! taken in goes through [`after_arrival`], and a tick that is served shows
//! the input's [`chosen_frame`] and leaves [`after_tick`] behind. This file
//! follows one input through any run of arrivals and ticks and shows that
//! the frames come out in the order in which they went in, as long as the
//! decoder hands them in with presentation times that never go back.

use crate::queue::buffer::after_arrival;
use crate::queue::buffer::after_tick;
use crate::queue::buffer::chosen_frame;
use crate::queue::buffer::chosen_index;
use crate::queue::buffer::chosen_pts;
use crate::queue::buffer::lemma_chosen_index;
use crate::queue::buffer::survivor;
use crate::queue::clock::in_window;
use crate::queue::clock::not_after_window;
use crate::queue::clock::not_before_window;
use crate::queue::clock::Pts;
use crate::queue::frame::RawFrame;
use crate::queue::laws::after_event;
use crate::queue::laws::after_events;
use crate::queue::laws::QueueEvent;
use crate::queue::model::QueueModel;
use crate::types::Framerate;
use vstd::prelude::*;

verus! {

/// One thing that can happen to the frames of an input.
pub enum StreamEvent {
    /// The decoder hands in a frame.
    Arrival(RawFrame),
    /// The tick with this index is served.
    Tick(nat),
}

/// The life of one input so far.
pub struct Stream {
    /// The frames that wait, oldest first.
    pub waiting: Seq<RawFrame>,
    /// Every frame that the decoder has handed in, in its order.
    pub produced: Seq<RawFrame>,
    /// Every frame that a tick has shown, in the order of the ticks.
    pub shown: Seq<RawFrame>,
}

/// The life of an input that has seen `events`, in a queue at `framerate`
/// whose inputs keep at most `bound` frames waiting.
pub open spec fn stream_after(events: Seq<StreamEvent>, framerate: Framerate, bound: nat) -> Stream
    decreases events.len(),
{
    if events.len() == 0 {
        Stream { waiting: Seq::empty(), produced: Seq::empty(), shown: Seq::empty() }
    } else {
        let before = stream_after(events.drop_last(), framerate, bound);
        match events.last() {
            StreamEvent::Arrival(frame) => Stream {
                waiting: after_arrival(before.waiting, frame, bound),
                produced: before.produced.push(frame),
                shown: before.shown,
            },
            StreamEvent::Tick(tick) => Stream {
                waiting: after_tick(before.waiting, tick as int, framerate),
                produced: before.produced,
                shown: match chosen_frame(before.waiting, tick as int, framerate) {
                    Some(frame) => before.shown.push(frame),
                    None => before.shown,
                },
            },
        }
    }
}

/// The ticks are served in increasing order.
pub open spec fn ticks_increase(events: Seq<StreamEvent>) -> bool {
    forall|i: int, j: int|
        0 <= i < j < events.len() && events[i] is Tick && events[j] is Tick ==> events[i]->Tick_0
            < events[j]->Tick_0
}

/// Every frame has a usable presentation time, and no frame is to be
/// presented before one that the decoder handed in earlier.
pub open spec fn times_never_go_back(produced: Seq<RawFrame>) -> bool {
    &&& forall|i: int| 0 <= i < produced.len() ==> (#[trigger] produced[i]).is_valid()
    &&& forall|i: int, j: int|
        0 <= i < j < produced.len() ==> produced[j].pts.at_or_after(produced[i].pts)
}

/// `at` sends every shown frame to a position in `produced` that holds that
/// frame, and never steps back.
pub open spec fn places_in_order(at: Seq<int>, shown: Seq<RawFrame>, produced: Seq<RawFrame>) -> bool {
    &&& at.len() == shown.len()
    &&& forall|i: int|
        0 <= i < at.len() ==> 0 <= #[trigger] at[i] < produced.len() && produced[at[i]] == shown[i]
    &&& forall|i: int, j: int| 0 <= i < j < at.len() ==> at[i] <= at[j]
}

/// The shown frames are frames that the decoder produced, in the decoder's
/// order; a frame may be shown by more than one tick in a row.
pub open spec fn in_decoder_order(shown: Seq<RawFrame>, produced: Seq<RawFrame>) -> bool {
    exists|at: Seq<int>| places_in_order(at, shown, produced)
}

proof fn lemma_later_window_later_time(
    earlier: Pts,
    earlier_tick: int,
    later: Pts,
    later_tick: int,
    framerate: Framerate,
)
    requires
        framerate.is_valid(),
        earlier.is_valid(),
        later.is_valid(),
        earlier_tick < later_tick,
        not_after_window(earlier, earlier_tick, framerate),
        not_before_window(later, later_tick, framerate),
    ensures
        later.at_or_after(earlier),
{
    let n = framerate.num as int;
    let d = framerate.den as int;
    let p = earlier.num as int;
    let pd = earlier.den as int;
    let q = later.num as int;
    let qd = later.den as int;
    let a = 2 * earlier_tick + 1;
    let b = 2 * later_tick - 1;
    assert(2 * n * p <= a * (d * pd));
    assert(2 * n * q >= b * (d * qd));
    assert((2 * n * q) * pd >= (b * (d * qd)) * pd) by (nonlinear_arith)
        requires
            2 * n * q >= b * (d * qd),
            pd > 0,
    ;
    assert((2 * n * p) * qd <= (a * (d * pd)) * qd) by (nonlinear_arith)
        requires
            2 * n * p <= a * (d * pd),
            qd > 0,
    ;
    assert((b * (d * qd)) * pd >= (a * (d * pd)) * qd) by (nonlinear_arith)
        requires
            b >= a,
            d > 0,
            pd > 0,
            qd > 0,
    ;
    assert(q * pd >= p * qd) by (nonlinear_arith)
        requires
            (2 * n * q) * pd >= (2 * n * p) * qd,
            n > 0,
    ;
}

proof fn lemma_same_time_same_window(a: Pts, b: Pts, tick: int, framerate: Framerate)
    requires
        a.is_valid(),
        b.is_valid(),
        a.at_or_after(b),
        b.at_or_after(a),
        in_window(a, tick, framerate),
    ensures
        in_window(b, tick, framerate),
{
    let n = framerate.num as int;
    let d = framerate.den as int;
    let ad = a.den as int;
    let bd = b.den as int;
    let an = a.num as int;
    let bn = b.num as int;
    let lo = 2 * tick - 1;
    let hi = 2 * tick + 1;
    assert(an * bd == bn * ad);
    assert((2 * n * an) * bd == (2 * n * bn) * ad) by (nonlinear_arith)
        requires
            an * bd == bn * ad,
    ;
    assert((2 * n * an) * bd >= (lo * (d * ad)) * bd) by (nonlinear_arith)
        requires
            2 * n * an >= lo * (d * ad),
            bd > 0,
    ;
    assert((2 * n * an) * bd <= (hi * (d * ad)) * bd) by (nonlinear_arith)
        requires
            2 * n * an <= hi * (d * ad),
            bd > 0,
    ;
    assert((lo * (d * ad)) * bd == (lo * (d * bd)) * ad) by (nonlinear_arith);
    assert((hi * (d * ad)) * bd == (hi * (d * bd)) * ad) by (nonlinear_arith);
    assert(2 * n * bn >= lo * (d * bd)) by (nonlinear_arith)
        requires
            (2 * n * bn) * ad >= (lo * (d * bd)) * ad,
            ad > 0,
    ;
    assert(2 * n * bn <= hi * (d * bd)) by (nonlinear_arith)
        requires
            (2 * n * bn) * ad <= (hi * (d * bd)) * ad,
            ad > 0,
    ;
}

proof fn lemma_not_earlier_is_transitive(a: Pts, b: Pts, c: Pts)
    requires
        a.is_valid(),
        b.is_valid(),
        c.is_valid(),
        a.at_or_after(b),
        b.at_or_after(c),
    ensures
        a.at_or_after(c),
{
    let an = a.num as int;
    let ad = a.den as int;
    let bn = b.num as int;
    let bd = b.den as int;
    let cn = c.num as int;
    let cd = c.den as int;
    assert((an * bd) * cd >= (bn * ad) * cd) by (nonlinear_arith)
        requires
            an * bd >= bn * ad,
            cd > 0,
    ;
    assert((bn * cd) * ad >= (cn * bd) * ad) by (nonlinear_arith)
        requires
            bn * cd >= cn * bd,
            ad > 0,
    ;
    assert((bn * ad) * cd == (bn * cd) * ad) by (nonlinear_arith);
    assert((an * bd) * cd == (an * cd) * bd) by (nonlinear_arith);
    assert((cn * bd) * ad == (cn * ad) * bd) by (nonlinear_arith);
    assert(an * cd >= cn * ad) by (nonlinear_arith)
        requires
            (an * cd) * bd >= (cn * ad) * bd,
            bd > 0,
    ;
}

proof fn lemma_window_start_is_upward_closed(a: Pts, b: Pts, tick: int, framerate: Framerate)
    requires
        a.is_valid(),
        b.is_valid(),
        a.at_or_after(b),
        not_before_window(b, tick, framerate),
    ensures
        not_before_window(a, tick, framerate),
{
    let n = framerate.num as int;
    let d = framerate.den as int;
    let an = a.num as int;
    let ad = a.den as int;
    let bn = b.num as int;
    let bd = b.den as int;
    let lo = 2 * tick - 1;
    assert((2 * n * bn) * ad >= (lo * (d * bd)) * ad) by (nonlinear_arith)
        requires
            2 * n * bn >= lo * (d * bd),
            ad > 0,
    ;
    assert((2 * n) * (an * bd) >= (2 * n) * (bn * ad)) by (nonlinear_arith)
        requires
            an * bd >= bn * ad,
            n >= 0,
    ;
    assert((2 * n) * (an * bd) == (2 * n * an) * bd) by (nonlinear_arith);
    assert((2 * n) * (bn * ad) == (2 * n * bn) * ad) by (nonlinear_arith);
    assert((lo * (d * bd)) * ad == (lo * (d * ad)) * bd) by (nonlinear_arith);
    assert(2 * n * an >= lo * (d * ad)) by (nonlinear_arith)
        requires
            (2 * n * an) * bd >= (lo * (d * ad)) * bd,
            bd > 0,
    ;
}

/// A test that, once passed by a frame, is passed by every later frame
/// filters a beginning away and nothing else.
proof fn lemma_filter_cuts_a_beginning(frames: Seq<RawFrame>, test: spec_fn(RawFrame) -> bool) -> (cut:
    int)
    requires
        forall|i: int, j: int| 0 <= i < j < frames.len() && test(frames[i]) ==> test(frames[j]),
    ensures
        0 <= cut <= frames.len(),
        frames.filter(test) == frames.skip(cut),
        forall|i: int| 0 <= i < cut ==> !test(frames[i]),
        forall|i: int| cut <= i < frames.len() ==> test(frames[i]),
    decreases frames.len(),
{
    reveal(Seq::filter);
    if frames.len() == 0 {
        assert(frames.filter(test) =~= frames.skip(0));
        0
    } else {
        let head = frames.drop_last();
        assert forall|i: int, j: int| 0 <= i < j < head.len() && test(head[i]) implies test(
            head[j],
        ) by {
            assert(head[i] == frames[i] && head[j] == frames[j]);
        }
        let head_cut = lemma_filter_cuts_a_beginning(head, test);
        if test(frames.last()) {
            assert(head.skip(head_cut).push(frames.last()) =~= frames.skip(head_cut));
            assert forall|i: int| 0 <= i < head_cut implies !test(frames[i]) by {
                assert(head[i] == frames[i]);
            }
            assert forall|i: int| head_cut <= i < frames.len() implies test(frames[i]) by {
                if i < head.len() {
                    assert(head[i] == frames[i]);
                }
            }
            head_cut
        } else {
            assert forall|i: int| 0 <= i < frames.len() implies !test(frames[i]) by {
                if i < frames.len() - 1 {
                    if test(frames[i]) {
                        assert(test(frames[frames.len() - 1]));
                    }
                }
            }
            if head_cut < head.len() {
                assert(test(head[head_cut]));
                assert(head[head_cut] == frames[head_cut]);
            }
            assert(head.skip(head_cut) =~= frames.skip(frames.len() as int));
            frames.len() as int
        }
    }
}

/// What the proof of [`law_frames_keep_their_order`] carries along: where
/// the waiting frames begin in `produced`, where each shown frame sits, and
/// the tick that showed the last of them.
struct Trail {
    start: int,
    at: Seq<int>,
    last_tick: int,
}

spec fn trail_fits(trail: Trail, events: Seq<StreamEvent>, framerate: Framerate, bound: nat) -> bool {
    let stream = stream_after(events, framerate, bound);
    &&& 0 <= trail.start <= stream.produced.len()
    &&& stream.waiting == stream.produced.skip(trail.start)
    &&& places_in_order(trail.at, stream.shown, stream.produced)
    &&& stream.shown.len() > 0 ==> {
        &&& not_after_window(stream.shown.last().pts, trail.last_tick, framerate)
        &&& exists|e: int|
            0 <= e < events.len() && events[e] is Tick && events[e]->Tick_0 == trail.last_tick
    }
}

proof fn lemma_produced_grows(events: Seq<StreamEvent>, framerate: Framerate, bound: nat)
    requires
        events.len() > 0,
    ensures
        stream_after(events.drop_last(), framerate, bound).produced.len() <= stream_after(
            events,
            framerate,
            bound,
        ).produced.len(),
        forall|i: int|
            0 <= i < stream_after(events.drop_last(), framerate, bound).produced.len()
                ==> stream_after(events.drop_last(), framerate, bound).produced[i]
                == stream_after(events, framerate, bound).produced[i],
{
}

proof fn lemma_follow(events: Seq<StreamEvent>, framerate: Framerate, bound: nat) -> (trail: Trail)
    requires
        framerate.is_valid(),
        ticks_increase(events),
        times_never_go_back(stream_after(events, framerate, bound).produced),
    ensures
        trail_fits(trail, events, framerate, bound),
    decreases events.len(),
{
    if events.len() == 0 {
        let trail = Trail { start: 0, at: Seq::empty(), last_tick: 0 };
        let stream = stream_after(events, framerate, bound);
        assert(stream.waiting =~= stream.produced.skip(0));
        trail
    } else {
        let earlier = events.drop_last();
        let before = stream_after(earlier, framerate, bound);
        let after = stream_after(events, framerate, bound);
        lemma_produced_grows(events, framerate, bound);
        assert(ticks_increase(earlier)) by {
            assert forall|i: int, j: int|
                0 <= i < j < earlier.len() && earlier[i] is Tick
                    && earlier[j] is Tick implies earlier[i]->Tick_0 < earlier[j]->Tick_0 by {
                assert(earlier[i] == events[i] && earlier[j] == events[j]);
            }
        }
        assert(times_never_go_back(before.produced)) by {
            assert forall|i: int| 0 <= i < before.produced.len() implies (
            #[trigger] before.produced[i]).is_valid() by {
                assert(before.produced[i] == after.produced[i]);
            }
            assert forall|i: int, j: int|
                0 <= i < j < before.produced.len() implies before.produced[j].pts.at_or_after(
                before.produced[i].pts,
            ) by {
                assert(before.produced[i] == after.produced[i]);
                assert(before.produced[j] == after.produced[j]);
            }
        }
        let old_trail = lemma_follow(earlier, framerate, bound);
        let start = old_trail.start;
        match events.last() {
            StreamEvent::Arrival(frame) => {
                let grown = before.waiting.push(frame);
                assert(grown =~= after.produced.skip(start));
                let new_start = if before.waiting.len() + 1 > bound {
                    start + 1
                } else {
                    start
                };
                assert(after.waiting =~= after.produced.skip(new_start));
                assert(places_in_order(old_trail.at, after.shown, after.produced)) by {
                    assert forall|i: int| 0 <= i < old_trail.at.len() implies 0
                        <= #[trigger] old_trail.at[i] < after.produced.len()
                        && after.produced[old_trail.at[i]] == after.shown[i] by {
                        assert(before.produced[old_trail.at[i]] == after.produced[old_trail.at[i]]);
                    }
                }
                if after.shown.len() > 0 {
                    let e = choose|e: int|
                        0 <= e < earlier.len() && earlier[e] is Tick && earlier[e]->Tick_0
                            == old_trail.last_tick;
                    assert(events[e] == earlier[e]);
                }
                Trail { start: new_start, at: old_trail.at, last_tick: old_trail.last_tick }
            },
            StreamEvent::Tick(tick) => {
                let waiting = before.waiting;
                let k = tick as int;
                lemma_chosen_index(waiting, k, framerate);
                let test = survivor(chosen_pts(waiting, k, framerate), k, framerate);
                assert forall|i: int, j: int|
                    0 <= i < j < waiting.len() && test(waiting[i]) implies test(waiting[j]) by {
                    let a = waiting[j];
                    let b = waiting[i];
                    assert(a == before.produced[start + j]);
                    assert(b == before.produced[start + i]);
                    assert(a.pts.at_or_after(b.pts));
                    match chosen_pts(waiting, k, framerate) {
                        Some(pts) => {
                            let at = chosen_index(waiting, k, framerate)->0;
                            assert(waiting[at] == before.produced[start + at]);
                            lemma_not_earlier_is_transitive(a.pts, b.pts, pts);
                        },
                        None => {
                            lemma_window_start_is_upward_closed(a.pts, b.pts, k, framerate);
                        },
                    }
                }
                let cut = lemma_filter_cuts_a_beginning(waiting, test);
                assert(after.waiting == waiting.skip(cut));
                assert(waiting.skip(cut) =~= after.produced.skip(start + cut));
                match chosen_index(waiting, k, framerate) {
                    None => {
                        if after.shown.len() > 0 {
                            let e = choose|e: int|
                                0 <= e < earlier.len() && earlier[e] is Tick && earlier[e]->Tick_0
                                    == old_trail.last_tick;
                            assert(events[e] == earlier[e]);
                        }
                        Trail {
                            start: start + cut,
                            at: old_trail.at,
                            last_tick: old_trail.last_tick,
                        }
                    },
                    Some(chosen) => {
                        let place = start + chosen;
                        let frame = waiting[chosen];
                        assert(frame == before.produced[place]);
                        let at = old_trail.at.push(place);
                        assert(after.shown == before.shown.push(frame));
                        if before.shown.len() > 0 {
                            let last_place = old_trail.at.last();
                            let last_frame = before.shown.last();
                            assert(before.produced[last_place] == last_frame);
                            let e = choose|e: int|
                                0 <= e < earlier.len() && earlier[e] is Tick && earlier[e]->Tick_0
                                    == old_trail.last_tick;
                            assert(events[e] == earlier[e]);
                            assert(events[events.len() - 1] == events.last());
                            assert(old_trail.last_tick < k);
                            lemma_later_window_later_time(
                                last_frame.pts,
                                old_trail.last_tick,
                                frame.pts,
                                k,
                                framerate,
                            );
                            if place < last_place {
                                assert(last_frame.pts.at_or_after(frame.pts));
                                lemma_same_time_same_window(
                                    frame.pts,
                                    last_frame.pts,
                                    k,
                                    framerate,
                                );
                                assert(waiting[last_place - start] == before.produced[last_place]);
                                assert(false);
                            }
                        }
                        assert(places_in_order(at, after.shown, after.produced)) by {
                            assert forall|i: int| 0 <= i < at.len() implies 0 <= #[trigger] at[i]
                                < after.produced.len() && after.produced[at[i]]
                                == after.shown[i] by {
                                if i < old_trail.at.len() {
                                    assert(at[i] == old_trail.at[i]);
                                }
                            }
                            assert forall|i: int, j: int| 0 <= i < j < at.len() implies at[i]
                                <= at[j] by {
                                if j < old_trail.at.len() {
                                    assert(at[i] == old_trail.at[i] && at[j] == old_trail.at[j]);
                                } else {
                                    assert(at[i] == old_trail.at[i]);
                                    assert(old_trail.at[i] <= old_trail.at.last());
                                }
                            }
                        }
                        assert(events[events.len() - 1] is Tick);
                        Trail { start: start + cut, at, last_tick: k }
                    },
                }
            },
        }
    }
}

/// Frames keep their order: whatever arrivals and ticks an input sees,
/// the frames that the ticks show are frames that the decoder handed in, in
/// the order in which it handed them in. The queue may leave frames out, and
/// may show a frame on the border between two windows to both ticks, but it
/// never shows a frame after one that the decoder produced later.
///
/// The ticks are taken in increasing order, which
/// [`crate::queue::laws::law_ticks_are_consecutive`] shows of the queue, and
/// the decoder is taken to hand in frames whose presentation times never go
/// back.
pub proof fn law_frames_keep_their_order(
    events: Seq<StreamEvent>,
    framerate: Framerate,
    bound: nat,
)
    requires
        framerate.is_valid(),
        ticks_increase(events),
        times_never_go_back(stream_after(events, framerate, bound).produced),
    ensures
        in_decoder_order(
            stream_after(events, framerate, bound).shown,
            stream_after(events, framerate, bound).produced,
        ),
{
    let trail = lemma_follow(events, framerate, bound);
    assert(places_in_order(
        trail.at,
        stream_after(events, framerate, bound).shown,
        stream_after(events, framerate, bound).produced,
    ));
}

/// Where the input `id` stands among the inputs of `queue`.
pub open spec fn position_of(queue: QueueModel, id: Seq<char>) -> int {
    choose|i: int| 0 <= i < queue.inputs.len() && queue.inputs[i].id == id
}

/// The frames that the input `id` has waiting in `queue`.
pub open spec fn frames_of(queue: QueueModel, id: Seq<char>) -> Seq<RawFrame> {
    queue.inputs[position_of(queue, id)].frames
}

/// What the input `id` sees of `events` as they happen to `queue`: the
/// frames of its own that the queue takes in, and the ticks that the queue
/// serves.
pub open spec fn seen_by(queue: QueueModel, events: Seq<QueueEvent>, id: Seq<char>) -> Seq<
    StreamEvent,
>
    decreases events.len(),
{
    if events.len() == 0 {
        Seq::empty()
    } else {
        let earlier = seen_by(queue, events.drop_last(), id);
        let reached = after_events(queue, events.drop_last());
        match events.last() {
            QueueEvent::Enqueue(frame, _) => if frame.is_valid() && frame.input_id@ == id
                && reached.has_input(id) {
                earlier.push(StreamEvent::Arrival(frame))
            } else {
                earlier
            },
            QueueEvent::Poll(now) => if reached.is_ready(now) {
                earlier.push(StreamEvent::Tick(reached.next_tick))
            } else {
                earlier
            },
            _ => earlier,
        }
    }
}

/// The input `id` is not removed in the course of `events`.
pub open spec fn never_removed(events: Seq<QueueEvent>, id: Seq<char>) -> bool {
    forall|i: int|
        0 <= i < events.len() ==> !(events[i] is RemoveInput && events[i]->RemoveInput_0 == id)
}

proof fn lemma_frames_of(queue: QueueModel, id: Seq<char>, at: int)
    requires
        queue.distinct_inputs(),
        0 <= at < queue.inputs.len(),
        queue.inputs[at].id == id,
    ensures
        queue.has_input(id),
        position_of(queue, id) == at,
        frames_of(queue, id) == queue.inputs[at].frames,
{
    let found = position_of(queue, id);
    if found < at {
        assert(queue.inputs[found].id != queue.inputs[at].id);
    } else if at < found {
        assert(queue.inputs[at].id != queue.inputs[found].id);
    }
}

proof fn lemma_event_mirrored(queue: QueueModel, event: QueueEvent, id: Seq<char>)
    requires
        queue.is_sound(),
        queue.has_input(id),
        !(event is RemoveInput && event->RemoveInput_0 == id),
    ensures
        after_event(queue, event).has_input(id),
        frames_of(after_event(queue, event), id) == match event {
            QueueEvent::Enqueue(frame, _) => if frame.is_valid() && frame.input_id@ == id {
                after_arrival(frames_of(queue, id), frame, queue.buffer_bound)
            } else {
                frames_of(queue, id)
            },
            QueueEvent::Poll(now) => if queue.is_ready(now) {
                after_tick(frames_of(queue, id), queue.next_tick as int, queue.framerate)
            } else {
                frames_of(queue, id)
            },
            _ => frames_of(queue, id),
        },
{
    let after = after_event(queue, event);
    let at = position_of(queue, id);
    lemma_frames_of(queue, id, at);
    crate::queue::laws::lemma_event_keeps_sound(queue, event);
    match event {
        QueueEvent::AddInput(other, now) => {
            assert(after.inputs[at] == queue.inputs[at]);
            lemma_frames_of(after, id, at);
        },
        QueueEvent::RemoveInput(other) => {
            crate::queue::laws::lemma_filter_out_one(queue.inputs, other);
            if queue.has_input(other) {
                let gone = choose|i: int| 0 <= i < queue.inputs.len() && queue.inputs[i].id == other;
                assert(after.inputs == queue.inputs.remove(gone));
                let moved = if at < gone {
                    at
                } else {
                    at - 1
                };
                assert(after.inputs[moved] == queue.inputs[at]);
                lemma_frames_of(after, id, moved);
            } else {
                assert(after.inputs == queue.inputs);
                lemma_frames_of(after, id, at);
            }
        },
        QueueEvent::Enqueue(frame, now) => {
            if frame.is_valid() && queue.has_input(frame.input_id@) {
                assert(after.inputs[at].id == id);
                lemma_frames_of(after, id, at);
            } else {
                lemma_frames_of(after, id, at);
            }
        },
        QueueEvent::Subscribe(other, listener) => {
            lemma_frames_of(after, id, at);
        },
        QueueEvent::Start(now) => {
            assert(after.inputs[at].id == id);
            lemma_frames_of(after, id, at);
        },
        QueueEvent::Poll(now) => {
            assert(after.inputs[at].id == id);
            lemma_frames_of(after, id, at);
        },
    }
}

/// The life of an input in the queue is the life that
/// [`stream_after`] tells: after any events that do not remove it, an input
/// that was registered with nothing waiting has waiting exactly what the
/// arrivals and ticks that it has seen leave behind.
pub proof fn law_stream_mirrors_queue(queue: QueueModel, events: Seq<QueueEvent>, id: Seq<char>)
    requires
        queue.is_sound(),
        queue.has_input(id),
        frames_of(queue, id).len() == 0,
        never_removed(events, id),
    ensures
        after_events(queue, events).is_sound(),
        after_events(queue, events).has_input(id),
        after_events(queue, events).framerate == queue.framerate,
        after_events(queue, events).buffer_bound == queue.buffer_bound,
        frames_of(after_events(queue, events), id) == stream_after(
            seen_by(queue, events, id),
            queue.framerate,
            queue.buffer_bound,
        ).waiting,
    decreases events.len(),
{
    if events.len() == 0 {
        assert(frames_of(queue, id) =~= Seq::<RawFrame>::empty());
    } else {
        let earlier = events.drop_last();
        assert(never_removed(earlier, id)) by {
            assert forall|i: int| 0 <= i < earlier.len() implies !(earlier[i] is RemoveInput
                && earlier[i]->RemoveInput_0 == id) by {
                assert(earlier[i] == events[i]);
            }
        }
        law_stream_mirrors_queue(queue, earlier, id);
        let reached = after_events(queue, earlier);
        assert(events[events.len() - 1] == events.last());
        lemma_event_mirrored(reached, events.last(), id);
        crate::queue::laws::lemma_event_keeps_sound(reached, events.last());
        let seen = seen_by(queue, events, id);
        let seen_earlier = seen_by(queue, earlier, id);
        match events.last() {
            QueueEvent::Enqueue(frame, _) => {
                if frame.is_valid() && frame.input_id@ == id {
                    assert(seen.drop_last() =~= seen_earlier);
                }
            },
            QueueEvent::Poll(now) => {
                if reached.is_ready(now) {
                    assert(seen.drop_last() =~= seen_earlier);
                }
            },
            _ => {},
        }
    }
}

proof fn lemma_seen_ticks_increase(queue: QueueModel, events: Seq<QueueEvent>, id: Seq<char>)
    ensures
        ticks_increase(seen_by(queue, events, id)),
        forall|i: int|
            0 <= i < seen_by(queue, events, id).len() && seen_by(queue, events, id)[i] is Tick
                ==> seen_by(queue, events, id)[i]->Tick_0 < after_events(queue, events).next_tick,
        queue.next_tick <= after_events(queue, events).next_tick,
    decreases events.len(),
{
    if events.len() > 0 {
        let earlier = events.drop_last();
        lemma_seen_ticks_increase(queue, earlier, id);
        let seen = seen_by(queue, events, id);
        let seen_earlier = seen_by(queue, earlier, id);
        let reached = after_events(queue, earlier);
        assert forall|i: int, j: int|
            0 <= i < j < seen.len() && seen[i] is Tick && seen[j] is Tick implies seen[i]->Tick_0
            < seen[j]->Tick_0 by {
            if j < seen_earlier.len() {
                assert(seen[i] == seen_earlier[i] && seen[j] == seen_earlier[j]);
            } else {
                assert(seen[i] == seen_earlier[i]);
            }
        }
        assert forall|i: int| 0 <= i < seen.len() && seen[i] is Tick implies seen[i]->Tick_0
            < after_events(queue, events).next_tick by {
            if i < seen_earlier.len() {
                assert(seen[i] == seen_earlier[i]);
            }
        }
    }
}

/// Frames keep their order in the queue itself: take any input that
/// is registered with nothing waiting, and any events that do not remove it.
/// If its decoder hands in frames whose presentation times never go back,
/// then the frames of it that the served ticks show are frames that the
/// decoder handed in, in the decoder's order.
///
/// The frames handed in and the frames shown are those of the input's life
/// as [`seen_by`] and [`stream_after`] tell it, which
/// [`law_stream_mirrors_queue`] shows to be its life in the queue.
pub proof fn law_queue_keeps_the_order_of_every_input(
    queue: QueueModel,
    events: Seq<QueueEvent>,
    id: Seq<char>,
)
    requires
        queue.is_sound(),
        queue.has_input(id),
        frames_of(queue, id).len() == 0,
        never_removed(events, id),
        times_never_go_back(
            stream_after(seen_by(queue, events, id), queue.framerate, queue.buffer_bound).produced,
        ),
    ensures
        in_decoder_order(
            stream_after(seen_by(queue, events, id), queue.framerate, queue.buffer_bound).shown,
            stream_after(seen_by(queue, events, id), queue.framerate, queue.buffer_bound).produced,
        ),
{
    lemma_seen_ticks_increase(queue, events, id);
    law_frames_keep_their_order(seen_by(queue, events, id), queue.framerate, queue.buffer_bound);
}

} // verus!
