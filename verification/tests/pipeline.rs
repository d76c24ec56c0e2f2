use std::sync::Arc;
use video_compositor::error::RegisterInputError;
use video_compositor::error::RegisterOutputError;
use video_compositor::error::UnregisterInputError;
use video_compositor::error::UnregisterOutputError;
use video_compositor::error::UpdateSceneError;
use video_compositor::pipeline::decoder::DecoderInitError;
use video_compositor::pipeline::decoder::DecoderOptions;
use video_compositor::pipeline::driver::on_batch;
use video_compositor::pipeline::driver::on_batch_from;
use video_compositor::pipeline::driver::BatchDecision;
use video_compositor::pipeline::driver::Dispatch;
use video_compositor::pipeline::driver::RenderedFrame;
use video_compositor::pipeline::driver::RENDER_BACKLOG_DROP;
use video_compositor::pipeline::encoder::EncoderInitError;
use video_compositor::pipeline::encoder::EncoderOptions;
use video_compositor::pipeline::encoder::EncoderPreset;
use video_compositor::pipeline::encoder::H264Options;
use video_compositor::pipeline::input::BindFailure;
use video_compositor::pipeline::input::InputInitError;
use video_compositor::pipeline::input::InputOptions;
use video_compositor::pipeline::input::RtpReceiverError;
use video_compositor::pipeline::input::RtpReceiverOptions;
use video_compositor::pipeline::output::OutputInitError;
use video_compositor::pipeline::output::OutputOptions;
use video_compositor::pipeline::output::RtpSenderError;
use video_compositor::pipeline::output::RtpSenderOptions;
use video_compositor::pipeline::structs::Codec;
use video_compositor::pipeline::InputStart;
use video_compositor::pipeline::Options;
use video_compositor::pipeline::OutputScene;
use video_compositor::pipeline::OutputStart;
use video_compositor::pipeline::Pipeline;
use video_compositor::pipeline::SceneRoot;
use video_compositor::pipeline::WebRendererInitOptions;
use video_compositor::queue::clock::Pts;
use video_compositor::queue::clock::TickPts;
use video_compositor::queue::frame::AlignedBatch;
use video_compositor::queue::frame::RawFrame;
use video_compositor::queue::model::ListenerId;
use video_compositor::queue::QueueError;
use video_compositor::queue::TickOutcome;
use video_compositor::types::Framerate;
use video_compositor::types::InputId;
use video_compositor::types::OutputId;
use video_compositor::types::Resolution;

fn pipeline() -> Pipeline {
    Pipeline::new(Options {
        framerate: Framerate { num: 30, den: 1 },
        stream_fallback_timeout: 100_000_000,
        web_renderer: WebRendererInitOptions { enable: false, enable_gpu: false },
    })
}

fn input(name: &str) -> InputId {
    InputId(name.to_string())
}

fn output(name: &str) -> OutputId {
    OutputId(name.to_string())
}

fn on_port(name: &str, port: u16) -> InputOptions {
    InputOptions::Rtp(RtpReceiverOptions { port, input_id: input(name) })
}

fn encoded(name: &str, width: usize, height: usize) -> EncoderOptions {
    EncoderOptions::H264(H264Options {
        preset: EncoderPreset::Medium,
        resolution: Resolution { width, height },
        output_id: output(name),
    })
}

fn sent_to(name: &str, ip: &str, port: u16) -> OutputOptions {
    OutputOptions::Rtp(RtpSenderOptions {
        codec: Codec::H264,
        ip: ip.to_string(),
        port,
        output_id: output(name),
    })
}

fn add_input(pipeline: &mut Pipeline, name: &str, port: u16) -> Result<(), RegisterInputError> {
    pipeline.register_input(input(name), on_port(name, port), DecoderOptions::H264, InputStart::Ready, 0)
}

fn add_output(
    pipeline: &mut Pipeline,
    name: &str,
    ip: &str,
    port: u16,
) -> Result<(), RegisterOutputError> {
    pipeline.register_output(
        output(name),
        encoded(name, 1920, 1080),
        sent_to(name, ip, port),
        OutputStart::Ready,
    )
}

fn input_names(pipeline: &Pipeline) -> Vec<(String, u16)> {
    pipeline.inputs().into_iter().map(|(id, node)| (id.0, node.input.port())).collect()
}

fn output_names(pipeline: &Pipeline) -> Vec<(String, String, u16)> {
    pipeline
        .outputs()
        .into_iter()
        .map(|(id, node)| {
            let port = node.output.port();
            let video_compositor::pipeline::output::Output::Rtp(sender) = node.output;
            (id.0, sender.ip, port)
        })
        .collect()
}

fn rendered(name: &str, mark: u8) -> RenderedFrame {
    RenderedFrame {
        output_id: output(name),
        data: Arc::new(vec![mark]),
        resolution: Resolution { width: 1920, height: 1080 },
        pts: TickPts { num: 0, den: 30 },
    }
}

#[test]
fn fresh_pipeline_is_empty() {
    let pipeline = pipeline();
    assert!(pipeline.inputs().is_empty());
    assert!(pipeline.outputs().is_empty());
    assert!(!pipeline.is_started());
    assert!(!pipeline.queue().is_started());
    assert_eq!(pipeline.queue().framerate(), Framerate { num: 30, den: 1 });
}

#[test]
fn register_start_one_input_one_output_one_tick() {
    let mut pipeline = pipeline();
    add_input(&mut pipeline, "A", 5004).unwrap();
    add_output(&mut pipeline, "O", "127.0.0.1", 8002).unwrap();
    let frame = RawFrame {
        data: Arc::new(vec![1, 2, 3]),
        pts: Pts { num: 0, den: 1 },
        resolution: Resolution { width: 1920, height: 1080 },
        input_id: input("A"),
    };
    pipeline.enqueue(frame, 0).unwrap();
    assert!(pipeline.start(0));
    let batch = match pipeline.poll(0) {
        TickOutcome::Emitted(batch) => batch,
        other => panic!("expected a batch, got {other:?}"),
    };
    assert_eq!(batch.tick, 0);
    assert_eq!(batch.pts, TickPts { num: 0, den: 30 });
    assert_eq!(batch.frames.len(), 1);
    assert_eq!(batch.frames[0].input_id, input("A"));
    assert_eq!(*batch.frames[0].data, vec![1, 2, 3]);
    // Nothing more within the first hundred milliseconds' first tick.
    assert!(matches!(pipeline.poll(0), TickOutcome::Waiting));
    // The renderer's picture for O goes to O's encoder.
    match pipeline.after_render(Ok(vec![rendered("O", 5)])) {
        Dispatch::Deliver(routing) => {
            assert_eq!(routing.deliveries.len(), 1);
            assert_eq!(routing.deliveries[0].frame.output_id, output("O"));
            assert_eq!(*routing.deliveries[0].frame.data, vec![5]);
            assert_eq!(routing.deliveries[0].output.output.port(), 8002);
            assert!(routing.unknown.is_empty());
        }
        other => panic!("expected a delivery, got {other:?}"),
    }
}

#[test]
fn odd_resolution_is_rejected() {
    let mut pipeline = pipeline();
    add_output(&mut pipeline, "first", "127.0.0.1", 8000).unwrap();
    for (width, height) in [(1921, 1080), (1920, 1081), (1, 1)] {
        let result = pipeline.register_output(
            output("O"),
            encoded("O", width, height),
            sent_to("O", "127.0.0.1", 8002),
            OutputStart::Ready,
        );
        match result {
            Err(RegisterOutputError::UnsupportedResolution(id)) => assert_eq!(id, output("O")),
            other => panic!("expected an unsupported resolution, got {other:?}"),
        }
        assert_eq!(
            output_names(&pipeline),
            vec![("first".to_string(), "127.0.0.1".to_string(), 8000)]
        );
        assert!(!pipeline.has_output(&output("O")));
    }
}

#[test]
fn check_output_names_what_stands_in_the_way() {
    let mut pipeline = pipeline();
    add_output(&mut pipeline, "O", "127.0.0.1", 8002).unwrap();
    assert!(matches!(
        pipeline.check_output(&output("O"), &encoded("O", 1921, 1080)),
        Err(RegisterOutputError::AlreadyRegistered(_))
    ));
    assert!(matches!(
        pipeline.check_output(&output("P"), &encoded("P", 1921, 1080)),
        Err(RegisterOutputError::UnsupportedResolution(_))
    ));
    assert!(pipeline.check_output(&output("P"), &encoded("P", 0, 0)).is_ok());
    assert!(pipeline.check_input(&input("A")).is_ok());
    add_input(&mut pipeline, "A", 5004).unwrap();
    assert!(matches!(
        pipeline.check_input(&input("A")),
        Err(RegisterInputError::AlreadyRegistered(_))
    ));
}

#[test]
fn double_registration_of_an_input() {
    let mut pipeline = pipeline();
    assert!(add_input(&mut pipeline, "A", 5004).is_ok());
    match add_input(&mut pipeline, "A", 5006) {
        Err(RegisterInputError::AlreadyRegistered(id)) => assert_eq!(id, input("A")),
        other => panic!("expected an already registered input, got {other:?}"),
    }
    assert_eq!(input_names(&pipeline), vec![("A".to_string(), 5004)]);
    assert_eq!(pipeline.queue().input_count(), 1);
}

#[test]
fn taken_identifier_is_reported_before_any_failure() {
    let mut pipeline = pipeline();
    add_input(&mut pipeline, "A", 5004).unwrap();
    let failed = InputStart::DecoderError(DecoderInitError { reason: "no codec".to_string() });
    let result =
        pipeline.register_input(input("A"), on_port("A", 5006), DecoderOptions::H264, failed, 0);
    assert!(matches!(result, Err(RegisterInputError::AlreadyRegistered(_))));
    add_output(&mut pipeline, "O", "127.0.0.1", 8002).unwrap();
    let result = pipeline.register_output(
        output("O"),
        encoded("O", 1921, 1080),
        sent_to("O", "127.0.0.1", 8004),
        OutputStart::EncoderError(EncoderInitError { reason: "no codec".to_string() }),
    );
    assert!(matches!(result, Err(RegisterOutputError::AlreadyRegistered(_))));
}

#[test]
fn input_that_did_not_come_up_is_not_registered() {
    let mut pipeline = pipeline();
    add_input(&mut pipeline, "A", 5004).unwrap();
    let bind = InputStart::InputError(InputInitError::Rtp(RtpReceiverError::SocketBind(
        BindFailure::AddrInUse,
    )));
    match pipeline.register_input(input("B"), on_port("B", 5006), DecoderOptions::H264, bind, 0) {
        Err(RegisterInputError::InputError(id, error)) => {
            assert_eq!(id, input("B"));
            assert!(error.check_addr_in_use());
        }
        other => panic!("expected an input error, got {other:?}"),
    }
    let decoder = InputStart::DecoderError(DecoderInitError { reason: "no codec".to_string() });
    match pipeline.register_input(input("B"), on_port("B", 5006), DecoderOptions::H264, decoder, 0)
    {
        Err(RegisterInputError::DecoderError(id, error)) => {
            assert_eq!(id, input("B"));
            assert_eq!(error.reason, "no codec");
        }
        other => panic!("expected a decoder error, got {other:?}"),
    }
    assert_eq!(input_names(&pipeline), vec![("A".to_string(), 5004)]);
    assert!(!pipeline.queue().has_input(&input("B")));
}

#[test]
fn output_that_did_not_come_up_is_not_registered() {
    let mut pipeline = pipeline();
    let encoder = OutputStart::EncoderError(EncoderInitError { reason: "no codec".to_string() });
    let result = pipeline.register_output(
        output("O"),
        encoded("O", 1920, 1080),
        sent_to("O", "127.0.0.1", 8002),
        encoder,
    );
    assert!(matches!(result, Err(RegisterOutputError::EncoderError(_, _))));
    let transport = OutputStart::OutputError(OutputInitError::Rtp(RtpSenderError::SocketBind(
        BindFailure::Other("network is down".to_string()),
    )));
    let result = pipeline.register_output(
        output("O"),
        encoded("O", 1920, 1080),
        sent_to("O", "127.0.0.1", 8002),
        transport,
    );
    match result {
        Err(RegisterOutputError::OutputError(id, error)) => {
            assert_eq!(id, output("O"));
            assert_eq!(error.message(), "Error while binding the socket: network is down");
        }
        other => panic!("expected an output error, got {other:?}"),
    }
    assert!(pipeline.outputs().is_empty());
}

#[test]
fn address_and_port_are_bound_once() {
    let mut pipeline = pipeline();
    add_output(&mut pipeline, "O", "127.0.0.1", 8002).unwrap();
    match add_output(&mut pipeline, "P", "127.0.0.1", 8002) {
        Err(RegisterOutputError::OutputError(
            id,
            OutputInitError::Rtp(RtpSenderError::SocketBind(BindFailure::AddrInUse)),
        )) => assert_eq!(id, output("P")),
        other => panic!("expected a bind conflict, got {other:?}"),
    }
    assert_eq!(pipeline.outputs().len(), 1);
    // Another port, or another address, is free.
    add_output(&mut pipeline, "P", "127.0.0.1", 8004).unwrap();
    add_output(&mut pipeline, "Q", "127.0.0.2", 8002).unwrap();
    assert_eq!(
        output_names(&pipeline),
        vec![
            ("O".to_string(), "127.0.0.1".to_string(), 8002),
            ("P".to_string(), "127.0.0.1".to_string(), 8004),
            ("Q".to_string(), "127.0.0.2".to_string(), 8002),
        ]
    );
    assert!(pipeline.is_address_taken(&"127.0.0.2".to_string(), 8002));
    assert!(!pipeline.is_address_taken(&"127.0.0.2".to_string(), 8004));
    assert_eq!(pipeline.find_address(&"127.0.0.1".to_string(), 8004), Some(output("P")));
    assert_eq!(pipeline.find_address(&"127.0.0.3".to_string(), 8004), None);
    // The address is free again once its output has left.
    pipeline.unregister_output(&output("O")).unwrap();
    add_output(&mut pipeline, "R", "127.0.0.1", 8002).unwrap();
}

#[test]
fn registered_output_encodes_as_asked() {
    let mut pipeline = pipeline();
    let options = EncoderOptions::H264(H264Options {
        preset: EncoderPreset::Veryfast,
        resolution: Resolution { width: 640, height: 360 },
        output_id: output("O"),
    });
    pipeline
        .register_output(output("O"), options, sent_to("O", "10.0.0.1", 9000), OutputStart::Ready)
        .unwrap();
    let found = pipeline.output(&output("O")).unwrap();
    assert_eq!(found.encoder.preset, EncoderPreset::Veryfast);
    assert_eq!(found.encoder.resolution(), Resolution { width: 640, height: 360 });
    assert!(found.output.sends_to(&"10.0.0.1".to_string(), 9000));
    assert!(pipeline.output(&output("P")).is_none());
}

#[test]
fn unregistering_what_is_not_there() {
    let mut pipeline = pipeline();
    add_input(&mut pipeline, "A", 5004).unwrap();
    add_output(&mut pipeline, "O", "127.0.0.1", 8002).unwrap();
    match pipeline.unregister_input(&input("B")) {
        Err(UnregisterInputError::NotFound(id)) => assert_eq!(id, input("B")),
        other => panic!("expected not found, got {other:?}"),
    }
    match pipeline.unregister_output(&output("P")) {
        Err(UnregisterOutputError::NotFound(id)) => assert_eq!(id, output("P")),
        other => panic!("expected not found, got {other:?}"),
    }
    assert_eq!(pipeline.inputs().len(), 1);
    assert_eq!(pipeline.outputs().len(), 1);
}

#[test]
fn unregistering_an_input_takes_it_out_of_the_queue() {
    let mut pipeline = pipeline();
    add_input(&mut pipeline, "A", 5004).unwrap();
    add_input(&mut pipeline, "B", 5006).unwrap();
    add_input(&mut pipeline, "C", 5008).unwrap();
    pipeline.unregister_input(&input("B")).unwrap();
    assert_eq!(input_names(&pipeline), vec![("A".to_string(), 5004), ("C".to_string(), 5008)]);
    assert!(!pipeline.has_input(&input("B")));
    assert!(!pipeline.queue().has_input(&input("B")));
    assert!(pipeline.queue().has_input(&input("C")));
    let frame = RawFrame {
        data: Arc::new(vec![]),
        pts: Pts { num: 0, den: 1 },
        resolution: Resolution { width: 2, height: 2 },
        input_id: input("B"),
    };
    assert!(matches!(pipeline.enqueue(frame, 0), Err(QueueError::UnknownInput(_))));
    // The identifier can be registered again.
    add_input(&mut pipeline, "B", 5010).unwrap();
    assert_eq!(pipeline.inputs().len(), 3);
}

#[test]
fn scenes_get_the_size_of_their_output() {
    let mut pipeline = pipeline();
    pipeline
        .register_output(
            output("small"),
            encoded("small", 640, 360),
            sent_to("small", "127.0.0.1", 8002),
            OutputStart::Ready,
        )
        .unwrap();
    add_output(&mut pipeline, "large", "127.0.0.1", 8004).unwrap();
    let scenes = vec![
        OutputScene { output_id: output("large"), root: SceneRoot("{\"type\":\"text\"}".to_string()) },
        OutputScene { output_id: output("small"), root: SceneRoot("{}".to_string()) },
    ];
    let sized = pipeline.update_scene(scenes).unwrap();
    assert_eq!(sized.len(), 2);
    assert_eq!(sized[0].output_id, output("large"));
    assert_eq!(sized[0].resolution, Resolution { width: 1920, height: 1080 });
    assert_eq!(sized[0].root.0, "{\"type\":\"text\"}");
    assert_eq!(sized[1].output_id, output("small"));
    assert_eq!(sized[1].resolution, Resolution { width: 640, height: 360 });
    assert!(pipeline.update_scene(Vec::new()).unwrap().is_empty());
}

#[test]
fn scene_of_an_unknown_output_stops_the_update() {
    let mut pipeline = pipeline();
    add_output(&mut pipeline, "O", "127.0.0.1", 8002).unwrap();
    let scenes = vec![
        OutputScene { output_id: output("O"), root: SceneRoot("{}".to_string()) },
        OutputScene { output_id: output("gone"), root: SceneRoot("{}".to_string()) },
        OutputScene { output_id: output("never"), root: SceneRoot("{}".to_string()) },
    ];
    match pipeline.update_scene(scenes) {
        Err(UpdateSceneError::OutputNotRegistered(id)) => assert_eq!(id, output("gone")),
        other => panic!("expected an unregistered output, got {other:?}"),
    }
}

#[test]
fn start_is_idempotent() {
    let mut pipeline = pipeline();
    assert!(pipeline.start(0));
    assert!(pipeline.is_started());
    assert!(!pipeline.start(1_000_000_000));
    assert!(pipeline.is_started());
    // The first start counts: tick 0 is due at once.
    assert!(matches!(pipeline.poll(0), TickOutcome::Skipped(0)));
}

#[test]
fn listeners_go_through_the_pipeline() {
    let mut pipeline = pipeline();
    add_input(&mut pipeline, "A", 5004).unwrap();
    pipeline.subscribe_input_listener(input("A"), ListenerId(4));
    let frame = RawFrame {
        data: Arc::new(vec![]),
        pts: Pts { num: 0, den: 1 },
        resolution: Resolution { width: 2, height: 2 },
        input_id: input("A"),
    };
    assert_eq!(pipeline.enqueue(frame.clone(), 0).unwrap().listeners, vec![ListenerId(4)]);
    assert!(pipeline.enqueue(frame, 0).unwrap().listeners.is_empty());
}

#[test]
fn copied_frame_shares_its_pixels() {
    let frame = RawFrame {
        data: Arc::new(vec![1, 2, 3, 4]),
        pts: Pts { num: 7, den: 30 },
        resolution: Resolution { width: 2, height: 2 },
        input_id: input("A"),
    };
    let copy = frame.clone();
    assert!(Arc::ptr_eq(&frame.data, &copy.data));
    assert_eq!(copy.pts, Pts { num: 7, den: 30 });
    assert_eq!(copy.resolution, Resolution { width: 2, height: 2 });
    assert_eq!(copy.input_id, input("A"));
    assert!(copy.check_valid());
}

#[test]
fn batch_is_dropped_when_more_than_twenty_wait() {
    assert_eq!(RENDER_BACKLOG_DROP, 20);
    assert_eq!(on_batch(0), BatchDecision::Render);
    assert_eq!(on_batch(20), BatchDecision::Render);
    assert_eq!(on_batch(21), BatchDecision::Drop);
    assert_eq!(on_batch(usize::MAX), BatchDecision::Drop);
}

#[test]
fn backlog_of_forty_recovers() {
    // Forty batches wait and nothing comes in: the driver takes them one by
    // one, and each finds behind it the batches not yet taken.
    let mut waiting = 40usize;
    let mut dropped = 0;
    let mut rendered = 0;
    let mut taken_until_recovered = 0;
    while waiting > 0 {
        waiting -= 1;
        match on_batch(waiting) {
            BatchDecision::Drop => {
                assert_eq!(rendered, 0);
                dropped += 1;
            }
            BatchDecision::Render => rendered += 1,
        }
        if waiting > RENDER_BACKLOG_DROP {
            taken_until_recovered += 1;
        }
    }
    assert_eq!(dropped, 19);
    assert_eq!(rendered, 21);
    assert_eq!(taken_until_recovered, 19);
}

#[test]
fn pictures_of_unknown_outputs_are_skipped() {
    let mut pipeline = pipeline();
    add_output(&mut pipeline, "O", "127.0.0.1", 8002).unwrap();
    add_output(&mut pipeline, "P", "127.0.0.1", 8004).unwrap();
    pipeline.unregister_output(&output("P")).unwrap();
    let routing = pipeline.route(vec![
        rendered("P", 1),
        rendered("O", 2),
        rendered("never", 3),
        rendered("O", 4),
    ]);
    let delivered: Vec<(String, u8)> = routing
        .deliveries
        .iter()
        .map(|delivery| (delivery.frame.output_id.0.clone(), delivery.frame.data[0]))
        .collect();
    assert_eq!(delivered, vec![("O".to_string(), 2), ("O".to_string(), 4)]);
    assert_eq!(routing.unknown, vec![output("P"), output("never")]);
}

#[test]
fn render_failure_is_logged_and_nothing_is_delivered() {
    let pipeline = pipeline();
    match pipeline.after_render(Err("shader crashed".to_string())) {
        Dispatch::LogFailure(message) => assert_eq!(message, "shader crashed"),
        other => panic!("expected a failure to log, got {other:?}"),
    }
}

#[test]
fn callback_gets_a_listing_of_the_outputs() {
    let mut pipeline = pipeline();
    assert_eq!(pipeline.with_outputs(|listing| listing.len()), 0);
    add_output(&mut pipeline, "O", "127.0.0.1", 8002).unwrap();
    add_output(&mut pipeline, "P", "127.0.0.1", 8004).unwrap();
    let found = pipeline.with_outputs(|listing| {
        listing
            .into_iter()
            .find(|(_, node)| node.output.sends_to(&"127.0.0.1".to_string(), 8004))
            .map(|(id, _)| id)
    });
    assert_eq!(found, Some(output("P")));
    let ports = pipeline.with_outputs(|listing| {
        listing.iter().map(|(_, node)| node.output.port()).collect::<Vec<u16>>()
    });
    assert_eq!(ports, vec![8002, 8004]);
}

#[test]
fn backlog_is_counted_in_the_channel() {
    let (sender, receiver) = crossbeam_channel::unbounded::<AlignedBatch>();
    assert_eq!(on_batch_from(&receiver), BatchDecision::Render);
    for tick in 0..22 {
        sender
            .send(AlignedBatch { tick, pts: TickPts { num: tick as u128, den: 30 }, frames: Vec::new() })
            .unwrap();
    }
    // The driver takes a batch and finds twenty-one behind it.
    assert_eq!(receiver.recv().unwrap().tick, 0);
    assert_eq!(on_batch_from(&receiver), BatchDecision::Drop);
    // It takes the next and finds twenty.
    assert_eq!(receiver.recv().unwrap().tick, 1);
    assert_eq!(on_batch_from(&receiver), BatchDecision::Render);
}

#[test]
fn pipeline_tells_how_long_to_wait() {
    let mut pipeline = pipeline();
    assert_eq!(pipeline.wait_before_next_look(0), 500_000);
    assert!(pipeline.start(0));
    assert!(matches!(pipeline.poll(0), TickOutcome::Skipped(0)));
    assert_eq!(pipeline.wait_before_next_look(0), 33_333_334);
    assert_eq!(pipeline.wait_before_next_look(33_000_000), 333_334);
}
