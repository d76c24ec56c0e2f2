//! The queue as a mathematical value, and what each operation makes of it.
//!
//! The executable queue is held to this model: every operation of
//! [`crate::queue::Queue`] is proved to do to the queue's view exactly what
//! the function of the same name does here.

use crate::queue::buffer::after_arrival;
use crate::queue::buffer::after_tick;
use crate::queue::buffer::caught_up;
use crate::queue::buffer::chosen_frame;
use crate::queue::clock::is_instant_of_tick;
use crate::queue::clock::silent_for_longer;
use crate::queue::clock::tick_is_due;
use crate::queue::clock::tick_is_overdue;
use crate::queue::clock::tick_pts;
use crate::queue::clock::TickPts;
use crate::queue::clock::MAX_TICK;
use crate::queue::frame::RawFrame;
use crate::types::Framerate;
use vstd::prelude::*;

verus! {

/// Handle of a one-shot listener, chosen by whoever subscribes.
#[derive(Debug, Clone, Copy, PartialEq, Eq, Structural)]
pub struct ListenerId(pub u64);

/// One registered input: its identifier, the frames it has waiting (oldest
/// first) and the wall-clock time at which it was last heard of.
pub struct InputModel {
    pub id: Seq<char>,
    pub frames: Seq<RawFrame>,
    pub last_seen: nat,
}

/// One pending subscription: `listener` waits for the next frame of `input`.
pub struct Subscription {
    pub input: Seq<char>,
    pub listener: ListenerId,
}

/// The frames of one tick.
pub struct BatchModel {
    pub tick: nat,
    pub pts: TickPts,
    pub frames: Seq<RawFrame>,
}

/// What a look at the clock leads to.
pub enum TickModel {
    /// The queue has not been started.
    NotStarted,
    /// The tick counter has reached its limit.
    Halted,
    /// The next tick is not to be served yet.
    Waiting,
    /// The tick was served and no input had a frame for it.
    Skipped(nat),
    /// The tick was served with these frames.
    Emitted(BatchModel),
}

/// The whole queue.
pub struct QueueModel {
    pub framerate: Framerate,
    /// Longest time, in nanoseconds, that a tick waits for an input.
    pub fallback_timeout: nat,
    /// Most frames that an input may have waiting.
    pub buffer_bound: nat,
    /// The registered inputs, in the order of their registration.
    pub inputs: Seq<InputModel>,
    /// The pending subscriptions, oldest first.
    pub subscriptions: Seq<Subscription>,
    /// Index of the next tick to serve.
    pub next_tick: nat,
    /// Wall-clock time of the start, in nanoseconds, once started.
    pub started_at: Option<nat>,
}

impl QueueModel {
    /// A fresh queue: no input, no listener, not started, tick zero next.
    pub open spec fn empty(framerate: Framerate, fallback_timeout: nat, buffer_bound: nat) -> Self {
        QueueModel {
            framerate,
            fallback_timeout,
            buffer_bound,
            inputs: Seq::empty(),
            subscriptions: Seq::empty(),
            next_tick: 0,
            started_at: None,
        }
    }

    /// `id` is registered.
    pub open spec fn has_input(self, id: Seq<char>) -> bool {
        exists|i: int| 0 <= i < self.inputs.len() && self.inputs[i].id == id
    }

    /// No identifier is registered twice.
    pub open spec fn distinct_inputs(self) -> bool {
        forall|i: int, j: int|
            0 <= i < j < self.inputs.len() ==> self.inputs[i].id != self.inputs[j].id
    }

    /// Every waiting frame has a usable time and belongs to the input that
    /// holds it.
    pub open spec fn frames_in_place(self) -> bool {
        forall|i: int, j: int|
            0 <= i < self.inputs.len() && 0 <= j < self.inputs[i].frames.len() ==> {
                &&& (#[trigger] self.inputs[i].frames[j]).is_valid()
                &&& self.inputs[i].frames[j].input_id@ == self.inputs[i].id
            }
    }

    /// What holds of every queue that the operations can reach: a usable
    /// frame rate, inputs with distinct identifiers, frames in their places,
    /// a tick counter within its limit, and no tick served before the start.
    pub open spec fn is_sound(self) -> bool {
        &&& self.framerate.is_valid()
        &&& self.distinct_inputs()
        &&& self.frames_in_place()
        &&& self.next_tick <= MAX_TICK + 1
        &&& self.started_at is None ==> self.next_tick == 0
    }

    /// Registers `id` at time `now`, with nothing waiting. An identifier that
    /// is registered already stays as it is.
    pub open spec fn add_input(self, id: Seq<char>, now: nat) -> Self {
        if self.has_input(id) {
            self
        } else {
            QueueModel {
                inputs: self.inputs.push(InputModel { id, frames: Seq::empty(), last_seen: now }),
                ..self
            }
        }
    }

    /// Removes `id` together with the frames it has waiting.
    pub open spec fn remove_input(self, id: Seq<char>) -> Self {
        QueueModel { inputs: self.inputs.filter(|input: InputModel| input.id != id), ..self }
    }

    /// The listeners that wait for the next frame of `id`, oldest first.
    pub open spec fn listeners_of(self, id: Seq<char>) -> Seq<ListenerId> {
        self.subscriptions.filter(|s: Subscription| s.input == id).map_values(
            |s: Subscription| s.listener,
        )
    }

    /// Adds a subscription of `listener` to the next frame of `id`.
    pub open spec fn subscribe(self, id: Seq<char>, listener: ListenerId) -> Self {
        QueueModel {
            subscriptions: self.subscriptions.push(Subscription { input: id, listener }),
            ..self
        }
    }

    /// Takes in `frame` at time `now`: it joins the frames of its input, that
    /// input counts as heard of at `now`, and the subscriptions to that input
    /// are used up.
    pub open spec fn enqueue(self, frame: RawFrame, now: nat) -> Self {
        let id = frame.input_id@;
        QueueModel {
            inputs: self.inputs.map_values(
                |input: InputModel|
                    if input.id == id {
                        InputModel {
                            id: input.id,
                            frames: after_arrival(input.frames, frame, self.buffer_bound),
                            last_seen: now,
                        }
                    } else {
                        input
                    },
            ),
            subscriptions: self.subscriptions.filter(|s: Subscription| s.input != id),
            ..self
        }
    }

    /// Starts the queue at time `now`: every input counts as heard of then.
    pub open spec fn start(self, now: nat) -> Self {
        QueueModel {
            inputs: self.inputs.map_values(
                |input: InputModel|
                    InputModel { id: input.id, frames: input.frames, last_seen: now },
            ),
            started_at: Some(now),
            ..self
        }
    }

    /// The next tick waits for `input` at `now`: the input has not reached the
    /// tick and has not been silent for longer than the fallback timeout.
    pub open spec fn waits_for(self, input: InputModel, now: nat) -> bool {
        &&& !caught_up(input.frames, self.next_tick as int, self.framerate)
        &&& !silent_for_longer(now as int, input.last_seen as int, self.fallback_timeout as int)
    }

    /// Some input holds the next tick back at `now`.
    pub open spec fn is_held_back(self, now: nat) -> bool {
        exists|i: int| 0 <= i < self.inputs.len() && self.waits_for(#[trigger] self.inputs[i], now)
    }

    /// The next tick is to be served at `now`: its instant has come, and
    /// either no input holds it back or it is late by the fallback timeout.
    pub open spec fn is_ready(self, now: nat) -> bool {
        &&& self.started_at is Some
        &&& self.next_tick <= MAX_TICK
        &&& tick_is_due(now as int, self.started_at->0 as int, self.next_tick as int, self.framerate)
        &&& (tick_is_overdue(
            now as int,
            self.started_at->0 as int,
            self.next_tick as int,
            self.framerate,
            self.fallback_timeout as int,
        ) || !self.is_held_back(now))
    }

    /// `at` is the wall-clock time at which the next tick is due, for a
    /// queue that runs and has ticks left.
    pub open spec fn is_next_instant(self, at: int) -> bool {
        &&& self.started_at is Some
        &&& self.next_tick <= MAX_TICK
        &&& is_instant_of_tick(at, self.started_at->0 as int, self.next_tick as int, self.framerate)
    }

    /// At `now` the next tick is still to come, at a time that the clock
    /// reaches.
    pub open spec fn is_ahead_of_next_tick(self, now: nat) -> bool {
        exists|at: int| #[trigger] self.is_next_instant(at) && now < at <= u64::MAX
    }

    /// `period` is the tick period in nanoseconds, rounded up.
    pub open spec fn is_tick_period(self, period: int) -> bool {
        is_instant_of_tick(period, 0, 1, self.framerate)
    }

    /// The frames that the next tick shows: the chosen frame of every input
    /// that has one, in the order of the inputs.
    pub open spec fn contributions(self) -> Seq<RawFrame> {
        self.inputs.filter_map(
            |input: InputModel| chosen_frame(input.frames, self.next_tick as int, self.framerate),
        )
    }

    /// The queue once the next tick has been served.
    pub open spec fn advance(self) -> Self {
        QueueModel {
            inputs: self.inputs.map_values(
                |input: InputModel|
                    InputModel {
                        id: input.id,
                        frames: after_tick(input.frames, self.next_tick as int, self.framerate),
                        last_seen: input.last_seen,
                    },
            ),
            next_tick: self.next_tick + 1,
            ..self
        }
    }

    /// What serving the next tick gives to the renderer.
    pub open spec fn served(self) -> TickModel {
        if self.contributions().len() == 0 {
            TickModel::Skipped(self.next_tick)
        } else {
            TickModel::Emitted(
                BatchModel {
                    tick: self.next_tick,
                    pts: tick_pts(self.next_tick, self.framerate),
                    frames: self.contributions(),
                },
            )
        }
    }

    /// The queue after a look at the clock at `now`.
    pub open spec fn poll(self, now: nat) -> Self {
        if self.is_ready(now) {
            self.advance()
        } else {
            self
        }
    }

    /// What a look at the clock at `now` leads to.
    pub open spec fn poll_outcome(self, now: nat) -> TickModel {
        if self.started_at is None {
            TickModel::NotStarted
        } else if self.next_tick > MAX_TICK {
            TickModel::Halted
        } else if self.is_ready(now) {
            self.served()
        } else {
            TickModel::Waiting
        }
    }
}

} // verus!
