//! The frames that one input has waiting, oldest first.

use crate::queue::clock::in_window;
use crate::queue::clock::is_in_window;
use crate::queue::clock::is_not_before_window;
use crate::queue::clock::not_before_window;
use crate::queue::clock::Pts;
use crate::queue::clock::MAX_TICK;
use crate::queue::frame::RawFrame;
use crate::types::Framerate;
use vstd::prelude::*;

verus! {

/// The buffer once `frame` has arrived: the frame goes to the end, and where
/// that makes more than `bound` frames the oldest one leaves.
pub open spec fn after_arrival(frames: Seq<RawFrame>, frame: RawFrame, bound: nat) -> Seq<
    RawFrame,
> {
    if frames.len() + 1 > bound {
        frames.push(frame).drop_first()
    } else {
        frames.push(frame)
    }
}

/// Position of the frame that tick `tick` shows: the youngest frame, that is
/// the one that arrived last, among those whose presentation time lies in the
/// tick's window.
pub open spec fn chosen_index(frames: Seq<RawFrame>, tick: int, framerate: Framerate) -> Option<
    int,
>
    decreases frames.len(),
{
    if frames.len() == 0 {
        None
    } else if in_window(frames.last().pts, tick, framerate) {
        Some(frames.len() - 1)
    } else {
        chosen_index(frames.drop_last(), tick, framerate)
    }
}

/// The frame that tick `tick` shows, if any.
pub open spec fn chosen_frame(frames: Seq<RawFrame>, tick: int, framerate: Framerate) -> Option<
    RawFrame,
> {
    match chosen_index(frames, tick, framerate) {
        Some(at) => Some(frames[at]),
        None => None,
    }
}

/// The input has reached tick `tick`: it holds a frame that is not older than
/// the tick's window.
pub open spec fn caught_up(frames: Seq<RawFrame>, tick: int, framerate: Framerate) -> bool {
    exists|i: int| 0 <= i < frames.len() && not_before_window(frames[i].pts, tick, framerate)
}

/// Whether `frame` stays in the buffer after tick `tick`: with a chosen frame,
/// whatever is not earlier than it; without one, whatever is not older than
/// the tick's window.
pub open spec fn survives(
    frame: RawFrame,
    chosen: Option<Pts>,
    tick: int,
    framerate: Framerate,
) -> bool {
    match chosen {
        Some(pts) => frame.pts.at_or_after(pts),
        None => not_before_window(frame.pts, tick, framerate),
    }
}

/// The test that [`after_tick`] filters by.
pub open spec fn survivor(chosen: Option<Pts>, tick: int, framerate: Framerate) -> spec_fn(
    RawFrame,
) -> bool {
    |frame: RawFrame| survives(frame, chosen, tick, framerate)
}

/// Presentation time of the chosen frame, if any.
pub open spec fn chosen_pts(frames: Seq<RawFrame>, tick: int, framerate: Framerate) -> Option<
    Pts,
> {
    match chosen_index(frames, tick, framerate) {
        Some(at) => Some(frames[at].pts),
        None => None,
    }
}

/// The buffer once tick `tick` has been served: the surviving frames, in the
/// order in which they arrived.
pub open spec fn after_tick(frames: Seq<RawFrame>, tick: int, framerate: Framerate) -> Seq<
    RawFrame,
> {
    frames.filter(survivor(chosen_pts(frames, tick, framerate), tick, framerate))
}

/// What [`chosen_index`] finds is a position in the buffer whose frame lies in
/// the window, and no later frame does.
pub proof fn lemma_chosen_index(frames: Seq<RawFrame>, tick: int, framerate: Framerate)
    ensures
        match chosen_index(frames, tick, framerate) {
            Some(at) => {
                &&& 0 <= at < frames.len()
                &&& in_window(frames[at].pts, tick, framerate)
                &&& forall|i: int| at < i < frames.len() ==> !in_window(frames[i].pts, tick, framerate)
            },
            None => forall|i: int| 0 <= i < frames.len() ==> !in_window(frames[i].pts, tick, framerate),
        },
    decreases frames.len(),
{
    if frames.len() > 0 && !in_window(frames.last().pts, tick, framerate) {
        let head = frames.drop_last();
        lemma_chosen_index(head, tick, framerate);
        assert forall|i: int| 0 <= i < head.len() implies head[i] == frames[i] by {}
        match chosen_index(head, tick, framerate) {
            Some(at) => {
                assert forall|i: int| at < i < frames.len() implies !in_window(
                    frames[i].pts,
                    tick,
                    framerate,
                ) by {
                    if i < head.len() {
                        assert(head[i] == frames[i]);
                    }
                }
            },
            None => {
                assert forall|i: int| 0 <= i < frames.len() implies !in_window(
                    frames[i].pts,
                    tick,
                    framerate,
                ) by {
                    if i < head.len() {
                        assert(head[i] == frames[i]);
                    }
                }
            },
        }
    }
}

/// Appends `frame` and, where the buffer then holds more than `bound` frames,
/// drops the oldest one. Returns whether a frame was dropped.
pub fn push_bounded(frames: &mut Vec<RawFrame>, frame: RawFrame, bound: usize) -> (dropped: bool)
    ensures
        final(frames)@ == after_arrival(old(frames)@, frame, bound as nat),
        dropped == (old(frames)@.len() + 1 > bound),
{
    frames.push(frame);
    if frames.len() > bound {
        frames.remove(0);
        assert(frames@ =~= old(frames)@.push(frame).drop_first());
        true
    } else {
        false
    }
}

/// Finds the frame that tick `tick` shows.
pub fn pick(frames: &Vec<RawFrame>, tick: u64, framerate: &Framerate) -> (found: Option<usize>)
    requires
        tick <= MAX_TICK,
    ensures
        match found {
            Some(at) => chosen_index(frames@, tick as int, *framerate) == Some(at as int),
            None => chosen_index(frames@, tick as int, *framerate) is None,
        },
{
    let mut at: usize = frames.len();
    assert(frames@.take(at as int) =~= frames@);
    while at > 0
        invariant
            at <= frames.len(),
            tick <= MAX_TICK,
            chosen_index(frames@, tick as int, *framerate) == chosen_index(
                frames@.take(at as int),
                tick as int,
                *framerate,
            ),
        decreases at,
    {
        let ghost head = frames@.take(at as int);
        assert(head.last() == frames@[at - 1]);
        assert(head.drop_last() =~= frames@.take(at - 1));
        if is_in_window(&frames[at - 1].pts, tick, framerate) {
            return Some(at - 1);
        }
        at -= 1;
    }
    assert(frames@.take(0).len() == 0);
    None
}

/// Decides [`caught_up`].
pub fn has_caught_up(frames: &Vec<RawFrame>, tick: u64, framerate: &Framerate) -> (reached: bool)
    requires
        tick <= MAX_TICK,
    ensures
        reached == caught_up(frames@, tick as int, *framerate),
{
    let mut at: usize = 0;
    while at < frames.len()
        invariant
            at <= frames.len(),
            tick <= MAX_TICK,
            forall|i: int| 0 <= i < at ==> !not_before_window(frames@[i].pts, tick as int, *framerate),
        decreases frames.len() - at,
    {
        if is_not_before_window(&frames[at].pts, tick, framerate) {
            return true;
        }
        at += 1;
    }
    false
}

/// Decides [`survives`].
pub fn does_survive(frame: &RawFrame, chosen: &Option<Pts>, tick: u64, framerate: &Framerate) -> (stays: bool)
    requires
        tick <= MAX_TICK,
    ensures
        stays == survives(*frame, *chosen, tick as int, *framerate),
{
    match chosen {
        Some(pts) => frame.pts.is_at_or_after(pts),
        None => is_not_before_window(&frame.pts, tick, framerate),
    }
}

/// Serves tick `tick` from the buffer: returns a copy of the chosen frame, if
/// there is one, and leaves in the buffer the frames that survive the tick.
pub fn serve_tick(frames: &mut Vec<RawFrame>, tick: u64, framerate: &Framerate) -> (shown: Option<
    RawFrame,
>)
    requires
        tick <= MAX_TICK,
    ensures
        shown == chosen_frame(old(frames)@, tick as int, *framerate),
        final(frames)@ == after_tick(old(frames)@, tick as int, *framerate),
{
    let found = pick(frames, tick, framerate);
    proof {
        lemma_chosen_index(frames@, tick as int, *framerate);
    }
    let shown: Option<RawFrame> = match found {
        Some(at) => Some(frames[at].clone()),
        None => None,
    };
    let chosen: Option<Pts> = match &shown {
        Some(frame) => Some(frame.pts),
        None => None,
    };
    let ghost before = frames@;
    let ghost test = survivor(chosen, tick as int, *framerate);
    let mut kept: Vec<RawFrame> = Vec::new();
    let mut rest: Vec<RawFrame> = Vec::new();
    std::mem::swap(frames, &mut rest);
    proof {
        reveal(Seq::filter);
        assert(before.take(0).filter(test) =~= Seq::<RawFrame>::empty());
    }
    for frame in it: rest
        invariant
            tick <= MAX_TICK,
            it.seq() == before,
            test == survivor(chosen, tick as int, *framerate),
            kept@ == before.take(it.index() as int).filter(test),
    {
        let ghost head = before.take(it.index() as int);
        proof {
            assert(before.take(it.index() + 1) =~= head.push(frame));
            head.lemma_filter_push(frame, test);
        }
        if does_survive(&frame, &chosen, tick, framerate) {
            kept.push(frame);
        }
    }
    assert(before.take(before.len() as int) =~= before);
    *frames = kept;
    shown
}

} // verus!
