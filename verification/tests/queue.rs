use std::sync::Arc;
use video_compositor::queue::clock::instant_of_tick;
use video_compositor::queue::clock::is_in_window;
use video_compositor::queue::clock::is_tick_due;
use video_compositor::queue::clock::is_tick_overdue;
use video_compositor::queue::clock::pts_of_tick;
use video_compositor::queue::clock::Pts;
use video_compositor::queue::clock::TickPts;
use video_compositor::queue::clock::MAX_TICK;
use video_compositor::queue::frame::AlignedBatch;
use video_compositor::queue::frame::RawFrame;
use video_compositor::queue::model::ListenerId;
use video_compositor::queue::Queue;
use video_compositor::queue::QueueError;
use video_compositor::queue::TickOutcome;
use video_compositor::queue::DEFAULT_BUFFER_BOUND;
use video_compositor::queue::RETRY_SLACK;
use video_compositor::types::Framerate;
use video_compositor::types::InputId;
use video_compositor::types::Resolution;

const FPS_30: Framerate = Framerate { num: 30, den: 1 };
const MS: u64 = 1_000_000;
const FALLBACK: u64 = 100 * MS;

fn id(name: &str) -> InputId {
    InputId(name.to_string())
}

/// A frame of `input` to be shown at `num / den` seconds; its one byte of
/// pixel data tells the frames of a test apart.
fn frame(input: &str, num: i64, den: u32, mark: u8) -> RawFrame {
    RawFrame {
        data: Arc::new(vec![mark]),
        pts: Pts { num, den },
        resolution: Resolution { width: 2, height: 2 },
        input_id: id(input),
    }
}

fn emitted(outcome: TickOutcome) -> AlignedBatch {
    match outcome {
        TickOutcome::Emitted(batch) => batch,
        other => panic!("expected a batch, got {other:?}"),
    }
}

fn marks(batch: &AlignedBatch) -> Vec<(String, u8)> {
    batch.frames.iter().map(|frame| (frame.input_id.0.clone(), frame.data[0])).collect()
}

#[test]
fn fresh_queue_is_empty_and_not_started() {
    let queue = Queue::new(FPS_30, FALLBACK);
    assert_eq!(queue.input_count(), 0);
    assert_eq!(queue.subscription_count(), 0);
    assert_eq!(queue.next_tick(), 0);
    assert!(!queue.is_started());
    assert_eq!(queue.framerate(), FPS_30);
    assert_eq!(DEFAULT_BUFFER_BOUND, 64);
}

#[test]
fn queue_that_is_not_started_serves_nothing() {
    let mut queue = Queue::new(FPS_30, FALLBACK);
    queue.add_input(id("A"), 0);
    queue.enqueue(frame("A", 0, 1, 1), 0).unwrap();
    assert!(!queue.is_ready(1_000 * MS));
    assert!(matches!(queue.poll(1_000 * MS), TickOutcome::NotStarted));
    assert_eq!(queue.next_tick(), 0);
    assert_eq!(queue.buffered(&id("A")), 1);
}

#[test]
fn inputs_are_a_set() {
    let mut queue = Queue::new(FPS_30, FALLBACK);
    queue.add_input(id("A"), 0);
    queue.add_input(id("B"), 0);
    queue.add_input(id("A"), 5);
    assert_eq!(queue.input_count(), 2);
    assert!(queue.has_input(&id("A")));
    assert!(queue.has_input(&id("B")));
    assert!(!queue.has_input(&id("C")));
    queue.remove_input(&id("C"));
    assert_eq!(queue.input_count(), 2);
    queue.remove_input(&id("A"));
    assert_eq!(queue.input_count(), 1);
    assert!(!queue.has_input(&id("A")));
    assert!(queue.has_input(&id("B")));
}

#[test]
fn removing_an_input_discards_its_frames() {
    let mut queue = Queue::new(FPS_30, FALLBACK);
    queue.add_input(id("A"), 0);
    queue.enqueue(frame("A", 0, 1, 1), 0).unwrap();
    queue.enqueue(frame("A", 1, 30, 2), 0).unwrap();
    assert_eq!(queue.buffered(&id("A")), 2);
    queue.remove_input(&id("A"));
    assert_eq!(queue.buffered(&id("A")), 0);
    queue.add_input(id("A"), 0);
    assert_eq!(queue.buffered(&id("A")), 0);
}

#[test]
fn frame_of_an_unknown_input_is_refused() {
    let mut queue = Queue::new(FPS_30, FALLBACK);
    queue.add_input(id("A"), 0);
    queue.subscribe_input_listener(id("B"), ListenerId(1));
    match queue.enqueue(frame("B", 0, 1, 1), 0) {
        Err(QueueError::UnknownInput(input)) => assert_eq!(input, id("B")),
        other => panic!("expected an unknown input, got {other:?}"),
    }
    assert_eq!(queue.subscription_count(), 1);
    assert_eq!(queue.buffered(&id("A")), 0);
}

#[test]
fn frame_without_a_denominator_is_refused() {
    let mut queue = Queue::new(FPS_30, FALLBACK);
    queue.add_input(id("A"), 0);
    queue.subscribe_input_listener(id("A"), ListenerId(1));
    match queue.enqueue(frame("A", 1, 0, 1), 0) {
        Err(QueueError::InvalidFrame(input)) => assert_eq!(input, id("A")),
        other => panic!("expected an invalid frame, got {other:?}"),
    }
    assert_eq!(queue.subscription_count(), 1);
    assert_eq!(queue.buffered(&id("A")), 0);
}

#[test]
fn full_buffer_drops_its_oldest_frame() {
    let mut queue = Queue::with_buffer_bound(FPS_30, FALLBACK, 3);
    queue.add_input(id("A"), 0);
    for k in 0..3 {
        let arrival = queue.enqueue(frame("A", k, 30, k as u8), 0).unwrap();
        assert!(!arrival.dropped_oldest);
    }
    assert_eq!(queue.buffered(&id("A")), 3);
    let arrival = queue.enqueue(frame("A", 3, 30, 3), 0).unwrap();
    assert!(arrival.dropped_oldest);
    assert_eq!(queue.buffered(&id("A")), 3);
    queue.start(0);
    // Tick 0 would have shown frame 0, which is gone.
    assert!(matches!(queue.poll(0), TickOutcome::Skipped(0)));
    assert_eq!(marks(&emitted(queue.poll(34 * MS))), vec![("A".to_string(), 1)]);
}

#[test]
fn buffer_without_room_keeps_nothing() {
    let mut queue = Queue::with_buffer_bound(FPS_30, FALLBACK, 0);
    queue.add_input(id("A"), 0);
    let arrival = queue.enqueue(frame("A", 0, 1, 1), 0).unwrap();
    assert!(arrival.dropped_oldest);
    assert_eq!(queue.buffered(&id("A")), 0);
}

#[test]
fn one_input_one_frame_one_tick() {
    let mut queue = Queue::new(FPS_30, FALLBACK);
    queue.add_input(id("A"), 0);
    queue.enqueue(frame("A", 0, 1, 7), 0).unwrap();
    queue.start(1_000);
    assert!(queue.is_started());
    let batch = emitted(queue.poll(1_000));
    assert_eq!(batch.tick, 0);
    assert_eq!(batch.pts, TickPts { num: 0, den: 30 });
    assert_eq!(marks(&batch), vec![("A".to_string(), 7)]);
    assert_eq!(queue.next_tick(), 1);
    // The next tick is not due yet.
    assert!(matches!(queue.poll(1_000), TickOutcome::Waiting));
    assert_eq!(queue.next_tick(), 1);
}

#[test]
fn tick_waits_for_its_instant() {
    let mut queue = Queue::new(FPS_30, FALLBACK);
    queue.start(0);
    assert!(matches!(queue.poll(0), TickOutcome::Skipped(0)));
    // Tick 1 is due a thirtieth of a second after the start.
    assert!(!queue.is_ready(33_333_333));
    assert!(matches!(queue.poll(33_333_333), TickOutcome::Waiting));
    assert!(queue.is_ready(33_333_334));
    assert!(matches!(queue.poll(33_333_334), TickOutcome::Skipped(1)));
    // A clock that runs back serves nothing.
    let mut early = Queue::new(FPS_30, FALLBACK);
    early.start(500);
    assert!(matches!(early.poll(499), TickOutcome::Waiting));
}

#[test]
fn ticks_advance_without_inputs() {
    let mut queue = Queue::new(FPS_30, FALLBACK);
    queue.start(0);
    let now = 1_000 * MS;
    for tick in 0..=30 {
        assert!(matches!(queue.poll(now), TickOutcome::Skipped(served) if served == tick));
    }
    assert!(matches!(queue.poll(now), TickOutcome::Waiting));
    assert_eq!(queue.next_tick(), 31);
}

#[test]
fn served_ticks_are_consecutive_and_carry_their_time() {
    let framerate = Framerate { num: 30000, den: 1001 };
    let mut queue = Queue::new(framerate, FALLBACK);
    queue.add_input(id("A"), 0);
    for k in 0..10i64 {
        queue.enqueue(frame("A", k * 1001, 30000, k as u8), 0).unwrap();
    }
    queue.start(0);
    let mut served = Vec::new();
    let mut now = 0;
    while served.len() < 10 {
        match queue.poll(now) {
            TickOutcome::Emitted(batch) => {
                assert_eq!(batch.pts, TickPts { num: batch.tick as u128 * 1001, den: 30000 });
                assert_eq!(marks(&batch), vec![("A".to_string(), batch.tick as u8)]);
                served.push(batch.tick);
            }
            TickOutcome::Waiting => now += MS,
            other => panic!("unexpected {other:?}"),
        }
    }
    assert_eq!(served, vec![0, 1, 2, 3, 4, 5, 6, 7, 8, 9]);
}

#[test]
fn youngest_frame_in_the_window_is_shown() {
    let mut queue = Queue::new(FPS_30, FALLBACK);
    queue.add_input(id("A"), 0);
    // The window of tick 0 runs from -1/60 to 1/60.
    queue.enqueue(frame("A", -1, 60, 1), 0).unwrap();
    queue.enqueue(frame("A", 0, 1, 2), 0).unwrap();
    queue.enqueue(frame("A", 1, 60, 3), 0).unwrap();
    queue.enqueue(frame("A", 1, 30, 4), 0).unwrap();
    queue.start(0);
    assert_eq!(marks(&emitted(queue.poll(0))), vec![("A".to_string(), 3)]);
    // Frames before the one shown are gone, the one shown stays.
    assert_eq!(queue.buffered(&id("A")), 2);
    // The frame on the border belongs to the window of tick 1 as well, but
    // the later frame is younger.
    assert_eq!(marks(&emitted(queue.poll(34 * MS))), vec![("A".to_string(), 4)]);
    assert_eq!(queue.buffered(&id("A")), 1);
}

#[test]
fn frame_on_the_border_is_shown_by_both_ticks() {
    let mut queue = Queue::new(FPS_30, FALLBACK);
    queue.add_input(id("A"), 0);
    queue.enqueue(frame("A", 1, 60, 9), 0).unwrap();
    queue.start(0);
    assert_eq!(marks(&emitted(queue.poll(0))), vec![("A".to_string(), 9)]);
    assert_eq!(marks(&emitted(queue.poll(34 * MS))), vec![("A".to_string(), 9)]);
    // It is too old for tick 2: one window later nothing is shown, and the
    // frame is dropped.
    assert!(matches!(queue.poll(1_000 * MS), TickOutcome::Skipped(2)));
    assert_eq!(queue.buffered(&id("A")), 0);
}

#[test]
fn stale_frames_are_dropped_and_future_frames_kept() {
    let mut queue = Queue::new(FPS_30, 0);
    queue.add_input(id("A"), 0);
    queue.enqueue(frame("A", -1, 1, 1), 0).unwrap();
    queue.enqueue(frame("A", 5, 30, 2), 0).unwrap();
    queue.start(0);
    assert!(matches!(queue.poll(0), TickOutcome::Skipped(0)));
    assert_eq!(queue.buffered(&id("A")), 1);
    let now = 1_000 * MS;
    for tick in 1..5 {
        assert!(matches!(queue.poll(now), TickOutcome::Skipped(served) if served == tick));
    }
    let batch = emitted(queue.poll(now));
    assert_eq!(batch.tick, 5);
    assert_eq!(marks(&batch), vec![("A".to_string(), 2)]);
}

#[test]
fn batch_holds_only_the_inputs_that_contributed() {
    let mut queue = Queue::new(FPS_30, 0);
    queue.add_input(id("A"), 0);
    queue.add_input(id("B"), 0);
    queue.add_input(id("C"), 0);
    queue.enqueue(frame("C", 0, 1, 3), 0).unwrap();
    queue.enqueue(frame("A", 0, 1, 1), 0).unwrap();
    queue.enqueue(frame("B", 1, 30, 2), 0).unwrap();
    queue.start(0);
    assert_eq!(
        marks(&emitted(queue.poll(0))),
        vec![("A".to_string(), 1), ("C".to_string(), 3)]
    );
    assert_eq!(marks(&emitted(queue.poll(34 * MS))), vec![("B".to_string(), 2)]);
}

#[test]
fn input_registered_after_start_contributes_once_it_has_a_frame() {
    let mut queue = Queue::new(FPS_30, 0);
    queue.start(0);
    assert!(matches!(queue.poll(0), TickOutcome::Skipped(0)));
    queue.add_input(id("A"), 10 * MS);
    assert!(matches!(queue.poll(34 * MS), TickOutcome::Skipped(1)));
    queue.enqueue(frame("A", 2, 30, 5), 40 * MS).unwrap();
    let batch = emitted(queue.poll(67 * MS));
    assert_eq!(batch.tick, 2);
    assert_eq!(marks(&batch), vec![("A".to_string(), 5)]);
}

#[test]
fn silent_input_holds_ticks_back_for_the_fallback_timeout() {
    let mut queue = Queue::new(FPS_30, FALLBACK);
    queue.add_input(id("A"), 0);
    queue.add_input(id("B"), 0);
    for k in 0..4 {
        queue.enqueue(frame("A", k, 30, k as u8), 0).unwrap();
    }
    queue.start(0);
    // B has given nothing, and has not been silent for longer than the
    // timeout yet.
    assert!(matches!(queue.poll(0), TickOutcome::Waiting));
    assert!(matches!(queue.poll(FALLBACK - 1), TickOutcome::Waiting));
    assert_eq!(queue.next_tick(), 0);
    // Tick 0 is late by the timeout: it is served without B.
    let batch = emitted(queue.poll(FALLBACK));
    assert_eq!(batch.tick, 0);
    assert_eq!(marks(&batch), vec![("A".to_string(), 0)]);
    // Tick 1 is due and not late by the timeout; B is still waited for.
    assert!(matches!(queue.poll(FALLBACK), TickOutcome::Waiting));
    // Once B has been silent for longer than the timeout, no tick waits for
    // it: ticks 1 and 2 are served at once, and tick 3 when it is due.
    let now = FALLBACK + 1;
    assert_eq!(marks(&emitted(queue.poll(now))), vec![("A".to_string(), 1)]);
    assert_eq!(marks(&emitted(queue.poll(now))), vec![("A".to_string(), 2)]);
    assert_eq!(marks(&emitted(queue.poll(now))), vec![("A".to_string(), 3)]);
    assert!(matches!(queue.poll(now), TickOutcome::Waiting));
}

#[test]
fn input_that_has_reached_the_tick_is_not_waited_for() {
    let mut queue = Queue::new(FPS_30, FALLBACK);
    queue.add_input(id("A"), 0);
    queue.add_input(id("B"), 0);
    queue.enqueue(frame("A", 0, 1, 1), 0).unwrap();
    // B is ahead: its only frame belongs to a later tick.
    queue.enqueue(frame("B", 10, 30, 2), 0).unwrap();
    queue.start(0);
    assert_eq!(marks(&emitted(queue.poll(0))), vec![("A".to_string(), 1)]);
}

#[test]
fn frame_from_a_laggard_resets_its_silence() {
    let mut queue = Queue::new(FPS_30, FALLBACK);
    queue.add_input(id("B"), 0);
    queue.start(0);
    // A frame that is too old for tick 0 arrives late.
    queue.enqueue(frame("B", -1, 1, 1), 90 * MS).unwrap();
    // B was heard of at 90 ms, so it is still waited for after 100 ms, but
    // no tick waits longer than the timeout.
    assert!(matches!(queue.poll(FALLBACK - 1), TickOutcome::Waiting));
    assert!(matches!(queue.poll(FALLBACK), TickOutcome::Skipped(0)));
}

#[test]
fn listener_fires_once_with_the_next_frame() {
    let mut queue = Queue::new(FPS_30, FALLBACK);
    queue.add_input(id("A"), 0);
    queue.add_input(id("B"), 0);
    queue.enqueue(frame("A", 0, 1, 0), 0).unwrap();
    queue.subscribe_input_listener(id("A"), ListenerId(1));
    queue.subscribe_input_listener(id("B"), ListenerId(2));
    queue.subscribe_input_listener(id("A"), ListenerId(3));
    assert_eq!(queue.subscription_count(), 3);
    let first = queue.enqueue(frame("A", 1, 30, 1), 0).unwrap();
    assert_eq!(first.listeners, vec![ListenerId(1), ListenerId(3)]);
    assert_eq!(queue.subscription_count(), 1);
    let second = queue.enqueue(frame("A", 2, 30, 2), 0).unwrap();
    assert_eq!(second.listeners, Vec::<ListenerId>::new());
    let other = queue.enqueue(frame("B", 0, 1, 3), 0).unwrap();
    assert_eq!(other.listeners, vec![ListenerId(2)]);
    assert_eq!(queue.subscription_count(), 0);
}

#[test]
fn listener_outlives_ticks_and_registration() {
    let mut queue = Queue::new(FPS_30, 0);
    queue.subscribe_input_listener(id("A"), ListenerId(8));
    queue.start(0);
    assert!(matches!(queue.poll(0), TickOutcome::Skipped(0)));
    queue.add_input(id("A"), 0);
    queue.remove_input(&id("A"));
    queue.add_input(id("A"), 0);
    assert_eq!(queue.subscription_count(), 1);
    let arrival = queue.enqueue(frame("A", 1, 30, 1), 0).unwrap();
    assert_eq!(arrival.listeners, vec![ListenerId(8)]);
}

#[test]
fn starting_twice_keeps_the_first_start() {
    let mut queue = Queue::new(FPS_30, FALLBACK);
    queue.start(0);
    queue.start(1_000 * MS);
    assert!(matches!(queue.poll(0), TickOutcome::Skipped(0)));
}

#[test]
fn frames_come_out_in_the_order_they_went_in() {
    let mut queue = Queue::with_buffer_bound(FPS_30, 0, 4);
    queue.add_input(id("A"), 0);
    queue.start(0);
    let mut shown = Vec::new();
    // Frames at 45 per second against ticks at 30: some are left out.
    for step in 0..30u64 {
        let now = step * 22 * MS;
        queue.enqueue(frame("A", step as i64, 45, step as u8), now).unwrap();
        loop {
            match queue.poll(now) {
                TickOutcome::Emitted(batch) => shown.push(batch.frames[0].data[0]),
                TickOutcome::Skipped(_) => {}
                TickOutcome::Waiting => break,
                other => panic!("unexpected {other:?}"),
            }
        }
    }
    assert!(shown.len() > 10);
    assert!(shown.windows(2).all(|pair| pair[0] <= pair[1]));
}

#[test]
fn windows_are_half_a_period_wide_on_each_side() {
    let at = |num: i64, den: u32| Pts { num, den };
    assert!(is_in_window(&at(0, 1), 0, &FPS_30));
    assert!(is_in_window(&at(1, 60), 0, &FPS_30));
    assert!(is_in_window(&at(-1, 60), 0, &FPS_30));
    assert!(!is_in_window(&at(1001, 60000), 0, &FPS_30));
    assert!(!is_in_window(&at(-1001, 60000), 0, &FPS_30));
    assert!(is_in_window(&at(1, 60), 1, &FPS_30));
    assert!(is_in_window(&at(3, 60), 1, &FPS_30));
    assert!(!is_in_window(&at(999, 60000), 1, &FPS_30));
    // The largest numbers that fit do not overflow.
    let framerate = Framerate { num: u32::MAX, den: u32::MAX };
    assert!(!is_in_window(&at(i64::MAX, u32::MAX), 0, &framerate));
    assert!(!is_in_window(&at(i64::MIN, 1), MAX_TICK, &framerate));
}

#[test]
fn presentation_time_of_a_tick_is_exact() {
    assert_eq!(pts_of_tick(0, &FPS_30), TickPts { num: 0, den: 30 });
    assert_eq!(pts_of_tick(45, &FPS_30), TickPts { num: 45, den: 30 });
    let ntsc = Framerate { num: 30000, den: 1001 };
    assert_eq!(pts_of_tick(3, &ntsc), TickPts { num: 3003, den: 30000 });
    assert_eq!(
        pts_of_tick(MAX_TICK, &Framerate { num: 1, den: u32::MAX }),
        TickPts { num: MAX_TICK as u128 * u32::MAX as u128, den: 1 }
    );
}

#[test]
fn instants_of_ticks() {
    assert!(is_tick_due(0, 0, 0, &FPS_30));
    assert!(!is_tick_due(33_333_333, 0, 1, &FPS_30));
    assert!(is_tick_due(33_333_334, 0, 1, &FPS_30));
    assert!(is_tick_due(1_000_000_000, 0, 30, &FPS_30));
    assert!(!is_tick_due(999_999_999, 0, 30, &FPS_30));
    assert!(!is_tick_due(5, 10, 0, &FPS_30));
    assert!(is_tick_overdue(FALLBACK, 0, 0, &FPS_30, FALLBACK));
    assert!(!is_tick_overdue(FALLBACK - 1, 0, 0, &FPS_30, FALLBACK));
    assert!(!is_tick_overdue(FALLBACK + 33_333_333, 0, 1, &FPS_30, FALLBACK));
    assert!(is_tick_overdue(FALLBACK + 33_333_334, 0, 1, &FPS_30, FALLBACK));
    assert!(!is_tick_due(u64::MAX, 0, MAX_TICK, &Framerate { num: 1, den: u32::MAX }));
}

#[test]
fn instant_of_a_tick_is_rounded_up_to_the_nanosecond() {
    assert_eq!(instant_of_tick(0, 0, &FPS_30), Some(0));
    assert_eq!(instant_of_tick(7, 0, &FPS_30), Some(7));
    assert_eq!(instant_of_tick(0, 1, &FPS_30), Some(33_333_334));
    assert_eq!(instant_of_tick(0, 3, &FPS_30), Some(100_000_000));
    assert_eq!(instant_of_tick(500, 30, &FPS_30), Some(1_000_000_500));
    let ntsc = Framerate { num: 30000, den: 1001 };
    assert_eq!(instant_of_tick(0, 1, &ntsc), Some(33_366_667));
    assert_eq!(instant_of_tick(0, 30000, &ntsc), Some(1_001_000_000_000));
    // Beyond the reach of the clock.
    assert_eq!(instant_of_tick(u64::MAX, 1, &FPS_30), None);
    assert_eq!(instant_of_tick(0, MAX_TICK, &Framerate { num: 1, den: u32::MAX }), None);
    assert_eq!(instant_of_tick(u64::MAX, 0, &FPS_30), Some(u64::MAX));
}

#[test]
fn queue_tells_when_its_next_tick_is_due() {
    let mut queue = Queue::new(FPS_30, FALLBACK);
    assert_eq!(queue.next_tick_instant(), None);
    queue.start(1_000);
    assert_eq!(queue.next_tick_instant(), Some(1_000));
    assert!(matches!(queue.poll(1_000), TickOutcome::Skipped(0)));
    assert_eq!(queue.next_tick_instant(), Some(33_334_334));
    assert!(!queue.is_ready(33_334_333));
    assert!(queue.is_ready(33_334_334));
}

#[test]
fn ticks_are_counted_from_zero_at_the_start() {
    let mut queue = Queue::new(FPS_30, 0);
    queue.add_input(id("A"), 0);
    // Looks at the clock before the start serve nothing and count nothing.
    for now in [0, 1_000 * MS, 5_000 * MS] {
        assert!(matches!(queue.poll(now), TickOutcome::NotStarted));
        assert_eq!(queue.next_tick(), 0);
    }
    queue.enqueue(frame("A", 0, 1, 1), 6_000 * MS).unwrap();
    queue.enqueue(frame("A", 2, 30, 2), 6_000 * MS).unwrap();
    queue.start(7_000 * MS);
    let first = emitted(queue.poll(8_000 * MS));
    assert_eq!(first.tick, 0);
    assert_eq!(first.pts, TickPts { num: 0, den: 30 });
    assert!(matches!(queue.poll(8_000 * MS), TickOutcome::Skipped(1)));
    let third = emitted(queue.poll(8_000 * MS));
    assert_eq!(third.tick, 2);
    assert_eq!(third.pts, TickPts { num: 2, den: 30 });
}

#[test]
fn wait_ends_at_the_next_instant() {
    assert_eq!(RETRY_SLACK, 500_000);
    let mut queue = Queue::new(FPS_30, FALLBACK);
    queue.start(1_000);
    // Tick 0 is due at the start: nothing to wait for but a retry.
    assert_eq!(queue.wait_before_next_look(1_000), RETRY_SLACK);
    assert!(matches!(queue.poll(1_000), TickOutcome::Skipped(0)));
    // Tick 1 is due at 33_334_334.
    assert_eq!(queue.wait_before_next_look(1_000), 33_333_334);
    assert_eq!(queue.wait_before_next_look(33_334_333), 1);
    assert_eq!(queue.wait_before_next_look(33_334_334), RETRY_SLACK);
    assert_eq!(queue.wait_before_next_look(40 * MS), RETRY_SLACK);
    // A start that lies ahead is waited for.
    let mut later = Queue::new(FPS_30, FALLBACK);
    later.start(10 * MS);
    assert_eq!(later.wait_before_next_look(4 * MS), 6 * MS);
}

#[test]
fn retry_is_no_longer_than_a_tick_period() {
    // Ten thousand ticks per second: a period of a hundred microseconds.
    let mut fast = Queue::new(Framerate { num: 10_000, den: 1 }, FALLBACK);
    assert_eq!(fast.wait_before_next_look(0), 100_000);
    fast.add_input(id("A"), 0);
    fast.start(0);
    assert!(matches!(fast.poll(0), TickOutcome::Waiting));
    assert_eq!(fast.wait_before_next_look(0), 100_000);
    // A period that is no whole number of nanoseconds is rounded up.
    let odd = Queue::new(Framerate { num: 3_000_000, den: 1 }, FALLBACK);
    assert_eq!(odd.wait_before_next_look(0), 334);
    // The shortest period there is still lets the clock move on.
    let shortest = Queue::new(Framerate { num: u32::MAX, den: 1 }, FALLBACK);
    assert_eq!(shortest.wait_before_next_look(0), 1);
    // A queue that does not run is looked at again after the slack.
    let idle = Queue::new(FPS_30, FALLBACK);
    assert_eq!(idle.wait_before_next_look(0), RETRY_SLACK);
}
