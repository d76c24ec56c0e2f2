//! The frame queue: aligns the frames of every input onto render ticks.
//!
//! The queue keeps, for every registered input, the frames that the decoder
//! has pushed and that no tick has used up yet. It does not read a clock and
//! does not sleep: the embedding program tells it the time with every call
//! and calls [`Queue::poll`] whenever a tick may have become ready.

pub mod buffer;
pub mod clock;
pub mod frame;
pub mod laws;
pub mod model;
pub mod order;

use crate::queue::buffer::chosen_frame;
use crate::queue::buffer::has_caught_up;
use crate::queue::buffer::push_bounded;
use crate::queue::buffer::serve_tick;
use crate::queue::clock::instant_of_tick;
use crate::queue::clock::is_instant_of_tick;
use crate::queue::clock::is_silent_for_longer;
use crate::queue::clock::is_tick_due;
use crate::queue::clock::is_tick_overdue;
use crate::queue::clock::pts_of_tick;
use crate::queue::clock::tick_is_due;
use crate::queue::clock::NANOS_PER_SECOND;
use crate::queue::clock::MAX_TICK;
use crate::queue::frame::AlignedBatch;
use crate::queue::frame::RawFrame;
use crate::queue::model::BatchModel;
use crate::queue::model::InputModel;
use crate::queue::model::ListenerId;
use crate::queue::model::QueueModel;
use crate::queue::model::Subscription;
use crate::queue::model::TickModel;
use crate::types::Framerate;
use crate::types::InputId;
use vstd::prelude::*;

verus! {

/// Most frames that an input may have waiting unless the queue is made with
/// another bound.
pub const DEFAULT_BUFFER_BOUND: usize = 64;

/// Longest wait, in nanoseconds, between two looks at the clock while a
/// tick that is due waits for an input.
pub const RETRY_SLACK: u64 = 500_000;

/// A queue has one next instant at most.
proof fn lemma_one_instant(queue: QueueModel, at: int)
    requires
        queue.is_next_instant(at),
    ensures
        forall|other: int| #[trigger] queue.is_next_instant(other) ==> other == at,
{
    assert forall|other: int| #[trigger] queue.is_next_instant(other) implies other == at by {
        let started = queue.started_at->0 as int;
        let tick = queue.next_tick as int;
        if other < at {
            assert(!tick_is_due(other, started, tick, queue.framerate));
        } else if at < other {
            assert(!tick_is_due(at, started, tick, queue.framerate));
        }
    }
}

/// Why a frame was not taken in.
#[derive(Debug)]
pub enum QueueError {
    /// The frame's input is not registered.
    UnknownInput(InputId),
    /// The frame's presentation time has no denominator.
    InvalidFrame(InputId),
}

/// What taking in a frame led to.
#[derive(Debug)]
pub struct Arrival {
    /// The listeners that waited for this frame, oldest subscription first.
    /// Each of them is to be fired once, by the caller.
    pub listeners: Vec<ListenerId>,
    /// The input had its buffer full and lost its oldest frame.
    pub dropped_oldest: bool,
}

/// What a look at the clock led to.
#[derive(Debug)]
pub enum TickOutcome {
    /// The queue has not been started.
    NotStarted,
    /// The tick counter has reached its limit.
    Halted,
    /// The next tick is not to be served yet.
    Waiting,
    /// The tick with this index was served and no input had a frame for it.
    Skipped(u64),
    /// The tick was served with these frames.
    Emitted(AlignedBatch),
}

impl View for AlignedBatch {
    type V = BatchModel;

    open spec fn view(&self) -> BatchModel {
        BatchModel { tick: self.tick as nat, pts: self.pts, frames: self.frames@ }
    }
}

impl View for TickOutcome {
    type V = TickModel;

    open spec fn view(&self) -> TickModel {
        match *self {
            TickOutcome::NotStarted => TickModel::NotStarted,
            TickOutcome::Halted => TickModel::Halted,
            TickOutcome::Waiting => TickModel::Waiting,
            TickOutcome::Skipped(tick) => TickModel::Skipped(tick as nat),
            TickOutcome::Emitted(batch) => TickModel::Emitted(batch@),
        }
    }
}

struct InputSlot {
    id: InputId,
    frames: Vec<RawFrame>,
    last_seen: u64,
}

struct ListenerSlot {
    input: InputId,
    listener: ListenerId,
}

impl View for InputSlot {
    type V = InputModel;

    closed spec fn view(&self) -> InputModel {
        InputModel { id: self.id@, frames: self.frames@, last_seen: self.last_seen as nat }
    }
}

impl View for ListenerSlot {
    type V = Subscription;

    closed spec fn view(&self) -> Subscription {
        Subscription { input: self.input@, listener: self.listener }
    }
}

/// The frame queue.
pub struct Queue {
    framerate: Framerate,
    fallback_timeout: u64,
    buffer_bound: usize,
    inputs: Vec<InputSlot>,
    subscriptions: Vec<ListenerSlot>,
    next_tick: u64,
    started_at: Option<u64>,
}

impl View for Queue {
    type V = QueueModel;

    closed spec fn view(&self) -> QueueModel {
        QueueModel {
            framerate: self.framerate,
            fallback_timeout: self.fallback_timeout as nat,
            buffer_bound: self.buffer_bound as nat,
            inputs: self.inputs@.map_values(|slot: InputSlot| slot@),
            subscriptions: self.subscriptions@.map_values(|slot: ListenerSlot| slot@),
            next_tick: self.next_tick as nat,
            started_at: match self.started_at {
                Some(at) => Some(at as nat),
                None => None,
            },
        }
    }
}

impl Queue {
    /// A queue at `framerate` whose ticks wait at most
    /// `stream_fallback_timeout` nanoseconds for an input.
    pub fn new(framerate: Framerate, stream_fallback_timeout: u64) -> (queue: Self)
        requires
            framerate.is_valid(),
        ensures
            queue@ == QueueModel::empty(
                framerate,
                stream_fallback_timeout as nat,
                DEFAULT_BUFFER_BOUND as nat,
            ),
            queue@.is_sound(),
    {
        Queue::with_buffer_bound(framerate, stream_fallback_timeout, DEFAULT_BUFFER_BOUND)
    }

    /// A queue whose inputs keep at most `buffer_bound` frames waiting.
    pub fn with_buffer_bound(
        framerate: Framerate,
        stream_fallback_timeout: u64,
        buffer_bound: usize,
    ) -> (queue: Self)
        requires
            framerate.is_valid(),
        ensures
            queue@ == QueueModel::empty(
                framerate,
                stream_fallback_timeout as nat,
                buffer_bound as nat,
            ),
            queue@.is_sound(),
    {
        let queue = Queue {
            framerate,
            fallback_timeout: stream_fallback_timeout,
            buffer_bound,
            inputs: Vec::new(),
            subscriptions: Vec::new(),
            next_tick: 0,
            started_at: None,
        };
        assert(queue@.inputs =~= Seq::empty());
        assert(queue@.subscriptions =~= Seq::empty());
        queue
    }

    /// The frame rate of the ticks.
    pub fn framerate(&self) -> (framerate: Framerate)
        ensures
            framerate == self@.framerate,
    {
        self.framerate
    }

    /// Index of the next tick to serve.
    pub fn next_tick(&self) -> (tick: u64)
        ensures
            tick == self@.next_tick,
    {
        self.next_tick
    }

    /// Whether the queue has been started.
    pub fn is_started(&self) -> (started: bool)
        ensures
            started == self@.started_at is Some,
    {
        self.started_at.is_some()
    }

    /// Number of registered inputs.
    pub fn input_count(&self) -> (count: usize)
        ensures
            count == self@.inputs.len(),
    {
        self.inputs.len()
    }

    /// Number of pending subscriptions.
    pub fn subscription_count(&self) -> (count: usize)
        ensures
            count == self@.subscriptions.len(),
    {
        self.subscriptions.len()
    }

    fn find_input(&self, input_id: &InputId) -> (found: Option<usize>)
        ensures
            match found {
                Some(at) => at < self.inputs.len() && self@.inputs[at as int].id == input_id@,
                None => !self@.has_input(input_id@),
            },
    {
        let mut at: usize = 0;
        while at < self.inputs.len()
            invariant
                at <= self.inputs.len(),
                forall|i: int| 0 <= i < at ==> self@.inputs[i].id != input_id@,
            decreases self.inputs.len() - at,
        {
            if self.inputs[at].id.same(input_id) {
                return Some(at);
            }
            at += 1;
        }
        None
    }

    /// Whether `input_id` is registered.
    pub fn has_input(&self, input_id: &InputId) -> (registered: bool)
        ensures
            registered == self@.has_input(input_id@),
    {
        self.find_input(input_id).is_some()
    }

    /// Number of frames that `input_id` has waiting; zero for an input that
    /// is not registered.
    pub fn buffered(&self, input_id: &InputId) -> (count: usize)
        ensures
            self@.has_input(input_id@) ==> exists|i: int|
                0 <= i < self@.inputs.len() && self@.inputs[i].id == input_id@
                    && count == self@.inputs[i].frames.len(),
            !self@.has_input(input_id@) ==> count == 0,
    {
        match self.find_input(input_id) {
            Some(at) => self.inputs[at].frames.len(),
            None => 0,
        }
    }

    /// Registers `input_id` at time `now`. Registering an input twice changes
    /// nothing.
    pub fn add_input(&mut self, input_id: InputId, now: u64)
        requires
            old(self)@.is_sound(),
        ensures
            final(self)@ == old(self)@.add_input(input_id@, now as nat),
            final(self)@.is_sound(),
    {
        if self.find_input(&input_id).is_none() {
            self.inputs.push(InputSlot { id: input_id, frames: Vec::new(), last_seen: now });
            assert(self@.inputs =~= old(self)@.inputs.push(
                InputModel { id: input_id@, frames: Seq::empty(), last_seen: now as nat },
            ));
            assert(self@.subscriptions =~= old(self)@.subscriptions);
        }
    }

    /// Removes `input_id` and discards the frames it has waiting. Removing an
    /// input that is not registered changes nothing.
    pub fn remove_input(&mut self, input_id: &InputId)
        requires
            old(self)@.is_sound(),
        ensures
            final(self)@ == old(self)@.remove_input(input_id@),
            final(self)@.is_sound(),
            !final(self)@.has_input(input_id@),
    {
        let ghost before = self@.inputs;
        let ghost test = |input: InputModel| input.id != input_id@;
        let found = self.find_input(input_id);
        proof {
            laws::lemma_filter_out_one(before, input_id@);
        }
        match found {
            Some(at) => {
                self.inputs.remove(at);
                assert(self@.inputs =~= before.remove(at as int));
                assert forall|i: int| 0 <= i < before.len() && before[i].id == input_id@ implies i
                    == at by {
                    if i < at {
                        assert(before[i].id != before[at as int].id);
                    } else if i > at {
                        assert(before[at as int].id != before[i].id);
                    }
                }
                assert(self@.subscriptions =~= old(self)@.subscriptions);
            },
            None => {
                assert(self@.subscriptions =~= old(self)@.subscriptions);
            },
        }
    }

    /// Subscribes `listener` to the next frame of `input_id`, whether or not
    /// that input is registered yet.
    pub fn subscribe_input_listener(&mut self, input_id: InputId, listener: ListenerId)
        ensures
            final(self)@ == old(self)@.subscribe(input_id@, listener),
            old(self)@.is_sound() ==> final(self)@.is_sound(),
    {
        self.subscriptions.push(ListenerSlot { input: input_id, listener });
        assert(self@.subscriptions =~= old(self)@.subscriptions.push(
            Subscription { input: input_id@, listener },
        ));
        assert(self@.inputs =~= old(self)@.inputs);
    }

    /// Takes the subscriptions to `input_id` out of the queue and returns
    /// their listeners.
    fn take_listeners(&mut self, input_id: &InputId) -> (fired: Vec<ListenerId>)
        ensures
            fired@ == old(self)@.listeners_of(input_id@),
            final(self)@ == (QueueModel {
                subscriptions: old(self)@.subscriptions.filter(
                    |s: Subscription| s.input != input_id@,
                ),
                ..old(self)@
            }),
    {
        let ghost before = self@.subscriptions;
        let ghost leaves = |s: Subscription| s.input == input_id@;
        let ghost stays = |s: Subscription| s.input != input_id@;
        let ghost listener_of = |s: Subscription| s.listener;
        let mut fired: Vec<ListenerId> = Vec::new();
        let mut kept: Vec<ListenerSlot> = Vec::new();
        let mut rest: Vec<ListenerSlot> = Vec::new();
        std::mem::swap(&mut self.subscriptions, &mut rest);
        proof {
            reveal(Seq::filter);
            assert(before.take(0).filter(leaves) =~= Seq::<Subscription>::empty());
            assert(before.take(0).filter(stays) =~= Seq::<Subscription>::empty());
            assert(fired@ =~= before.take(0).filter(leaves).map_values(listener_of));
            assert(kept@.map_values(|slot: ListenerSlot| slot@) =~= before.take(0).filter(stays));
        }
        for slot in it: rest
            invariant
                it.seq().map_values(|slot: ListenerSlot| slot@) == before,
                leaves == |s: Subscription| s.input == input_id@,
                stays == |s: Subscription| s.input != input_id@,
                listener_of == |s: Subscription| s.listener,
                fired@ == before.take(it.index() as int).filter(leaves).map_values(listener_of),
                kept@.map_values(|slot: ListenerSlot| slot@) == before.take(it.index() as int).filter(
                    stays,
                ),
        {
            let ghost head = before.take(it.index() as int);
            proof {
                assert(before[it.index() as int] == slot@);
                assert(before.take(it.index() + 1) =~= head.push(slot@));
                head.lemma_filter_push(slot@, leaves);
                head.lemma_filter_push(slot@, stays);
            }
            if slot.input.same(input_id) {
                fired.push(slot.listener);
                assert(fired@ =~= head.push(slot@).filter(leaves).map_values(listener_of));
            } else {
                let ghost kept_before = kept@.map_values(|slot: ListenerSlot| slot@);
                kept.push(slot);
                assert(kept@.map_values(|slot: ListenerSlot| slot@) =~= kept_before.push(slot@));
            }
        }
        assert(before.take(before.len() as int) =~= before);
        self.subscriptions = kept;
        assert(self@.inputs =~= old(self)@.inputs);
        fired
    }

    /// Takes in `frame` at time `now`.
    ///
    /// A frame whose presentation time has no denominator, or whose input is
    /// not registered, is refused and changes nothing. Any other frame joins
    /// the frames of its input; if that makes more than the bound, the
    /// input's oldest frame is dropped. The listeners that waited for a frame
    /// of this input are handed back and wait no longer.
    pub fn enqueue(&mut self, frame: RawFrame, now: u64) -> (arrival: Result<Arrival, QueueError>)
        requires
            old(self)@.is_sound(),
        ensures
            final(self)@.is_sound(),
            !frame.is_valid() ==> arrival == Err::<Arrival, _>(
                QueueError::InvalidFrame(frame.input_id),
            ) && final(self)@ == old(self)@,
            frame.is_valid() && !old(self)@.has_input(frame.input_id@) ==> arrival == Err::<
                Arrival,
                _,
            >(QueueError::UnknownInput(frame.input_id)) && final(self)@ == old(self)@,
            frame.is_valid() && old(self)@.has_input(frame.input_id@) ==> arrival is Ok && {
                let report = arrival->Ok_0;
                &&& final(self)@ == old(self)@.enqueue(frame, now as nat)
                &&& report.listeners@ == old(self)@.listeners_of(frame.input_id@)
                &&& report.dropped_oldest == exists|i: int|
                    0 <= i < old(self)@.inputs.len() && old(self)@.inputs[i].id == frame.input_id@
                        && old(self)@.inputs[i].frames.len() + 1 > old(self)@.buffer_bound
            },
    {
        if !frame.check_valid() {
            return Err(QueueError::InvalidFrame(frame.input_id));
        }
        let at = match self.find_input(&frame.input_id) {
            Some(at) => at,
            None => {
                return Err(QueueError::UnknownInput(frame.input_id));
            },
        };
        let ghost before = self@;
        let id = frame.input_id.clone();
        let bound = self.buffer_bound;
        let dropped_oldest = push_bounded(&mut self.inputs[at].frames, frame, bound);
        self.inputs[at].last_seen = now;
        proof {
            assert forall|i: int| 0 <= i < before.inputs.len() && before.inputs[i].id
                == id@ implies i == at by {
                if i < at {
                    assert(before.inputs[i].id != before.inputs[at as int].id);
                } else if i > at {
                    assert(before.inputs[at as int].id != before.inputs[i].id);
                }
            }
            assert(self@.inputs =~= before.enqueue(frame, now as nat).inputs);
            assert(self@.subscriptions =~= before.subscriptions);
        }
        let ghost middle = self@;
        let listeners = self.take_listeners(&id);
        proof {
            assert(self@.inputs == middle.inputs);
            assert(self@ == before.enqueue(frame, now as nat));
            laws::lemma_enqueue_keeps_sound(before, frame, now as nat);
        }
        Ok(Arrival { listeners, dropped_oldest })
    }

    /// Starts the queue at time `now`: tick zero is due at `now`, and every
    /// input counts as heard of at `now`. A queue that runs already stays as
    /// it is.
    pub fn start(&mut self, now: u64)
        requires
            old(self)@.is_sound(),
        ensures
            old(self)@.started_at is None ==> final(self)@ == old(self)@.start(now as nat)
                && final(self)@.next_tick == 0,
            old(self)@.started_at is Some ==> final(self)@ == old(self)@,
            final(self)@.is_sound(),
    {
        if self.started_at.is_some() {
            return ;
        }
        self.started_at = Some(now);
        let mut at: usize = 0;
        while at < self.inputs.len()
            invariant
                at <= self.inputs.len(),
                self.inputs.len() == old(self).inputs.len(),
                self.framerate == old(self).framerate,
                self.fallback_timeout == old(self).fallback_timeout,
                self.buffer_bound == old(self).buffer_bound,
                self.subscriptions == old(self).subscriptions,
                self.next_tick == old(self).next_tick,
                self.started_at == Some(now),
                forall|i: int|
                    0 <= i < at ==> self.inputs[i]@ == (InputModel {
                        id: old(self).inputs[i].id@,
                        frames: old(self).inputs[i].frames@,
                        last_seen: now as nat,
                    }),
                forall|i: int| at <= i < self.inputs.len() ==> self.inputs[i] == old(self).inputs[i],
            decreases self.inputs.len() - at,
        {
            self.inputs[at].last_seen = now;
            at += 1;
        }
        assert(self@.inputs =~= old(self)@.start(now as nat).inputs);
    }

    /// The wall-clock time at which the next tick is due, for a queue that
    /// runs and whose clock reaches that time. Before it, a look at the clock
    /// serves nothing.
    pub fn next_tick_instant(&self) -> (instant: Option<u64>)
        requires
            self@.is_sound(),
        ensures
            match instant {
                Some(at) => {
                    &&& self@.started_at is Some
                    &&& self@.next_tick <= MAX_TICK
                    &&& is_instant_of_tick(
                        at as int,
                        self@.started_at->0 as int,
                        self@.next_tick as int,
                        self@.framerate,
                    )
                    &&& forall|earlier: nat| earlier < at ==> !self@.is_ready(earlier)
                },
                None => forall|now: nat| now <= u64::MAX ==> !self@.is_ready(now),
            },
    {
        let started_at = match self.started_at {
            Some(at) => at,
            None => {
                return None;
            },
        };
        if self.next_tick > MAX_TICK {
            return None;
        }
        instant_of_tick(started_at, self.next_tick, &self.framerate)
    }

    /// How long to wait, from `now`, before the clock is looked at again.
    ///
    /// While the next tick is still to come, the wait ends at its instant.
    /// Otherwise a tick may be waiting for an input, or the queue is not
    /// running: then the wait is the retry slack, or the tick period where
    /// that is shorter. So no look at the clock comes later than the next
    /// instant or one tick period after the last one, and none comes at
    /// once.
    pub fn wait_before_next_look(&self, now: u64) -> (wait: u64)
        requires
            self@.is_sound(),
        ensures
            wait >= 1,
            self@.is_ahead_of_next_tick(now as nat) ==> self@.is_next_instant(now + wait),
            !self@.is_ahead_of_next_tick(now as nat) ==> exists|period: int|
                #[trigger] self@.is_tick_period(period) && wait == if period < RETRY_SLACK {
                    period
                } else {
                    RETRY_SLACK as int
                },
    {
        let instant: Option<u64> = match self.started_at {
            Some(started_at) => if self.next_tick <= MAX_TICK {
                instant_of_tick(started_at, self.next_tick, &self.framerate)
            } else {
                None
            },
            None => None,
        };
        match instant {
            Some(at) => {
                assert(self@.is_next_instant(at as int));
                if at > now {
                    proof {
                        lemma_one_instant(self@, at as int);
                    }
                    return at - now;
                }
                proof {
                    lemma_one_instant(self@, at as int);
                }
            },
            None => {},
        }
        assert(!self@.is_ahead_of_next_tick(now as nat));
        let period: u64 = match instant_of_tick(0, 1, &self.framerate) {
            Some(period) => period,
            None => {
                // Never taken: the longest period, `u32::MAX` seconds, is
                // within the reach of the clock.
                proof {
                    let reached = self.framerate.den * NANOS_PER_SECOND;
                    assert(reached <= u64::MAX);
                    assert(reached * self.framerate.num >= 1 * reached) by (nonlinear_arith)
                        requires
                            self.framerate.num >= 1,
                            reached >= 0,
                    ;
                    assert(tick_is_due(reached as int, 0, 1, self.framerate));
                }
                RETRY_SLACK
            },
        };
        assert(self@.is_tick_period(period as int));
        assert(period >= 1) by {
            assert(!tick_is_due(0, 0, 1, self.framerate));
        }
        if period < RETRY_SLACK {
            period
        } else {
            RETRY_SLACK
        }
    }

    /// Decides [`QueueModel::is_held_back`].
    fn is_held_back(&self, now: u64) -> (held: bool)
        requires
            self@.next_tick <= MAX_TICK,
        ensures
            held == self@.is_held_back(now as nat),
    {
        let mut at: usize = 0;
        while at < self.inputs.len()
            invariant
                at <= self.inputs.len(),
                self@.next_tick <= MAX_TICK,
                forall|i: int| 0 <= i < at ==> !self@.waits_for(self@.inputs[i], now as nat),
            decreases self.inputs.len() - at,
        {
            let slot = &self.inputs[at];
            assert(slot@ == self@.inputs[at as int]);
            if !has_caught_up(&slot.frames, self.next_tick, &self.framerate) && !is_silent_for_longer(
                now,
                slot.last_seen,
                self.fallback_timeout,
            ) {
                return true;
            }
            at += 1;
        }
        false
    }

    /// Decides [`QueueModel::is_ready`].
    pub fn is_ready(&self, now: u64) -> (ready: bool)
        ensures
            ready == self@.is_ready(now as nat),
    {
        let started_at = match self.started_at {
            Some(at) => at,
            None => {
                return false;
            },
        };
        if self.next_tick > MAX_TICK {
            return false;
        }
        if !is_tick_due(now, started_at, self.next_tick, &self.framerate) {
            return false;
        }
        is_tick_overdue(now, started_at, self.next_tick, &self.framerate, self.fallback_timeout)
            || !self.is_held_back(now)
    }

    /// Looks at the clock. If the next tick is ready at `now`, serves it:
    /// every input gives its chosen frame, if it has one, and drops what the
    /// tick has made stale; the tick counter moves on by one. Otherwise the
    /// queue stays as it is.
    pub fn poll(&mut self, now: u64) -> (outcome: TickOutcome)
        requires
            old(self)@.is_sound(),
        ensures
            final(self)@ == old(self)@.poll(now as nat),
            outcome@ == old(self)@.poll_outcome(now as nat),
            final(self)@.is_sound(),
    {
        if self.started_at.is_none() {
            return TickOutcome::NotStarted;
        }
        if self.next_tick > MAX_TICK {
            return TickOutcome::Halted;
        }
        if !self.is_ready(now) {
            return TickOutcome::Waiting;
        }
        let ghost before = self@;
        let ghost give = |input: InputModel|
            chosen_frame(input.frames, before.next_tick as int, before.framerate);
        let tick: u64 = self.next_tick;
        let framerate = self.framerate;
        let mut frames: Vec<RawFrame> = Vec::new();
        let mut at: usize = 0;
        assert(before.inputs.take(0).filter_map(give) =~= Seq::<RawFrame>::empty());
        while at < self.inputs.len()
            invariant
                at <= self.inputs.len(),
                tick <= MAX_TICK,
                before == old(self)@,
                tick == before.next_tick,
                framerate == before.framerate,
                give == |input: InputModel|
                    chosen_frame(input.frames, before.next_tick as int, before.framerate),
                self.inputs.len() == old(self).inputs.len(),
                self.framerate == old(self).framerate,
                self.fallback_timeout == old(self).fallback_timeout,
                self.buffer_bound == old(self).buffer_bound,
                self.subscriptions == old(self).subscriptions,
                self.next_tick == old(self).next_tick,
                self.started_at == old(self).started_at,
                forall|i: int| 0 <= i < at ==> self.inputs[i]@ == before.advance().inputs[i],
                forall|i: int| at <= i < self.inputs.len() ==> self.inputs[i] == old(self).inputs[i],
                frames@ == before.inputs.take(at as int).filter_map(give),
            decreases self.inputs.len() - at,
        {
            proof {
                before.inputs.lemma_filter_map_take_succ(give, at as int);
            }
            let shown = serve_tick(&mut self.inputs[at].frames, tick, &framerate);
            match shown {
                Some(frame) => {
                    frames.push(frame);
                },
                None => {},
            }
            at += 1;
        }
        assert(before.inputs.take(before.inputs.len() as int) =~= before.inputs);
        self.next_tick = tick + 1;
        proof {
            assert(self@.inputs =~= before.advance().inputs);
            assert(self@ == before.advance());
            laws::lemma_advance_keeps_sound(before);
        }
        if frames.len() == 0 {
            TickOutcome::Skipped(tick)
        } else {
            TickOutcome::Emitted(AlignedBatch { tick, pts: pts_of_tick(tick, &framerate), frames })
        }
    }
}

} // verus!
