//! The pipeline facade: the registries of inputs and outputs and the frame
//! queue, behind the operations that keep them consistent.
//!
//! The facade does no I/O. Bringing up a transport, a decoder or an encoder is
//! the embedding program's work; it tells the facade how that went, and the
//! facade decides what the registries become and what the caller is told.

pub mod decoder;
pub mod driver;
pub mod encoder;
pub mod input;
pub mod laws;
pub mod output;
pub mod structs;

use crate::error::RegisterInputError;
use crate::error::RegisterOutputError;
use crate::error::UnregisterInputError;
use crate::error::UnregisterOutputError;
use crate::error::UpdateSceneError;
use crate::pipeline::decoder::Decoder;
use crate::pipeline::decoder::DecoderInitError;
use crate::pipeline::decoder::DecoderOptions;
use crate::pipeline::encoder::Encoder;
use crate::pipeline::encoder::EncoderInitError;
use crate::pipeline::encoder::EncoderOptions;
use crate::pipeline::input::BindFailure;
use crate::pipeline::input::Input;
use crate::pipeline::input::InputInitError;
use crate::pipeline::input::InputOptions;
use crate::pipeline::input::RtpReceiver;
use crate::pipeline::output::Output;
use crate::pipeline::output::OutputInitError;
use crate::pipeline::output::OutputOptions;
use crate::pipeline::output::RtpSender;
use crate::pipeline::output::RtpSenderError;
use crate::queue::frame::RawFrame;
use crate::queue::model::ListenerId;
use crate::queue::model::QueueModel;
use crate::queue::Arrival;
use crate::queue::QueueError;
use crate::queue::TickOutcome;
use crate::queue::Queue;
use crate::types::Framerate;
use crate::types::InputId;
use crate::types::OutputId;
use crate::types::Resolution;
use vstd::prelude::*;

verus! {

/// The root of a scene graph. The pipeline carries it to the renderer
/// without looking inside.
#[derive(Debug)]
pub struct SceneRoot(pub String);

/// The scene that an output is to show.
#[derive(Debug)]
pub struct OutputScene {
    pub output_id: OutputId,
    pub root: SceneRoot,
}

/// A scene together with the size of the output that shows it: what the
/// renderer is given.
#[derive(Debug)]
pub struct SizedScene {
    pub output_id: OutputId,
    pub root: SceneRoot,
    pub resolution: Resolution,
}

/// A registered input.
#[derive(Debug, Clone, Copy, PartialEq, Eq, Structural)]
pub struct PipelineInput {
    pub input: Input,
    pub decoder: Decoder,
}

/// A registered output.
#[derive(Debug)]
pub struct PipelineOutput {
    pub encoder: Encoder,
    pub output: Output,
}

impl Clone for PipelineOutput {
    fn clone(&self) -> (copy: Self)
        ensures
            copy == *self,
    {
        PipelineOutput { encoder: self.encoder, output: self.output.clone() }
    }
}

/// Settings of the web renderer, handed through to the renderer.
#[derive(Debug, Clone, Copy, PartialEq, Eq, Structural)]
pub struct WebRendererInitOptions {
    pub enable: bool,
    pub enable_gpu: bool,
}

/// What a pipeline is made with.
#[derive(Debug, Clone, Copy)]
pub struct Options {
    pub framerate: Framerate,
    /// Longest time, in nanoseconds, that a tick waits for an input.
    pub stream_fallback_timeout: u64,
    pub web_renderer: WebRendererInitOptions,
}

/// How bringing up an input went.
#[derive(Debug)]
pub enum InputStart {
    /// Transport and decoder run.
    Ready,
    /// The transport did not come up; no decoder was made.
    InputError(InputInitError),
    /// The transport came up, the decoder did not, and the transport was
    /// released again.
    DecoderError(DecoderInitError),
}

/// How bringing up an output went.
#[derive(Debug)]
pub enum OutputStart {
    /// Encoder and transport run.
    Ready,
    /// The encoder did not come up; no transport was made.
    EncoderError(EncoderInitError),
    /// The encoder came up, the transport did not, and the encoder was
    /// released again.
    OutputError(OutputInitError),
}

/// One line of the input registry.
pub struct InputEntry {
    pub id: Seq<char>,
    pub input: PipelineInput,
}

/// One line of the output registry.
pub struct OutputEntry {
    pub id: Seq<char>,
    pub output: PipelineOutput,
}

/// The pipeline as a mathematical value.
pub struct PipelineModel {
    /// The registered inputs, in the order of their registration.
    pub inputs: Seq<InputEntry>,
    /// The registered outputs, in the order of their registration.
    pub outputs: Seq<OutputEntry>,
    pub queue: QueueModel,
    pub is_started: bool,
}

impl PipelineModel {
    /// `id` is a registered input.
    pub open spec fn has_input(self, id: Seq<char>) -> bool {
        exists|i: int| 0 <= i < self.inputs.len() && self.inputs[i].id == id
    }

    /// `id` is a registered output.
    pub open spec fn has_output(self, id: Seq<char>) -> bool {
        exists|i: int| 0 <= i < self.outputs.len() && self.outputs[i].id == id
    }

    /// Some registered output sends to `ip` and `port`.
    pub open spec fn address_taken(self, ip: Seq<char>, port: u16) -> bool {
        exists|i: int|
            0 <= i < self.outputs.len() && (#[trigger] self.outputs[i]).output.output.ip() == ip
                && self.outputs[i].output.output.spec_port() == port
    }

    /// The output at position `at` is the first one that sends to `ip` and
    /// `port`.
    pub open spec fn is_first_at_address(self, at: int, ip: Seq<char>, port: u16) -> bool {
        &&& 0 <= at < self.outputs.len()
        &&& self.outputs[at].output.output.ip() == ip
        &&& self.outputs[at].output.output.spec_port() == port
        &&& forall|i: int|
            0 <= i < at ==> !((#[trigger] self.outputs[i]).output.output.ip() == ip
                && self.outputs[i].output.output.spec_port() == port)
    }

    /// `listing` holds the registered outputs, in the order of their
    /// registration.
    pub open spec fn is_listed_by(self, listing: Seq<(OutputId, PipelineOutput)>) -> bool {
        &&& listing.len() == self.outputs.len()
        &&& forall|i: int|
            0 <= i < listing.len() ==> (#[trigger] listing[i]).0@ == self.outputs[i].id
                && listing[i].1 == self.outputs[i].output
    }

    /// No two inputs share an identifier.
    pub open spec fn distinct_inputs(self) -> bool {
        forall|i: int, j: int|
            0 <= i < j < self.inputs.len() ==> self.inputs[i].id != self.inputs[j].id
    }

    /// No two outputs share an identifier.
    pub open spec fn distinct_outputs(self) -> bool {
        forall|i: int, j: int|
            0 <= i < j < self.outputs.len() ==> self.outputs[i].id != self.outputs[j].id
    }

    /// No two outputs send to the same address and port.
    pub open spec fn distinct_addresses(self) -> bool {
        forall|i: int, j: int|
            0 <= i < j < self.outputs.len() ==> !((#[trigger] self.outputs[i]).output.output.ip()
                == (#[trigger] self.outputs[j]).output.output.ip()
                && self.outputs[i].output.output.spec_port()
                == self.outputs[j].output.output.spec_port())
    }

    /// Every output encodes pictures with even sides.
    pub open spec fn even_outputs(self) -> bool {
        forall|i: int|
            0 <= i < self.outputs.len() ==> (
            #[trigger] self.outputs[i]).output.encoder.resolution.is_even()
    }

    /// The queue knows exactly the registered inputs, in the same order.
    pub open spec fn queue_in_step(self) -> bool {
        &&& self.queue.inputs.len() == self.inputs.len()
        &&& forall|i: int|
            0 <= i < self.inputs.len() ==> (#[trigger] self.queue.inputs[i]).id == self.inputs[i].id
        &&& self.is_started == self.queue.started_at is Some
    }

    /// What holds of every pipeline that the operations can reach.
    pub open spec fn is_sound(self) -> bool {
        &&& self.distinct_inputs()
        &&& self.distinct_outputs()
        &&& self.distinct_addresses()
        &&& self.even_outputs()
        &&& self.queue.is_sound()
        &&& self.queue_in_step()
    }

    /// A pipeline without inputs and outputs that has not been started.
    pub open spec fn empty(options: Options) -> Self {
        PipelineModel {
            inputs: Seq::empty(),
            outputs: Seq::empty(),
            queue: QueueModel::empty(
                options.framerate,
                options.stream_fallback_timeout as nat,
                crate::queue::DEFAULT_BUFFER_BOUND as nat,
            ),
            is_started: false,
        }
    }

    /// The pipeline with one more input, registered at `now`.
    pub open spec fn with_input(self, id: Seq<char>, input: PipelineInput, now: nat) -> Self {
        PipelineModel {
            inputs: self.inputs.push(InputEntry { id, input }),
            queue: self.queue.add_input(id, now),
            ..self
        }
    }

    /// The pipeline without the input `id`.
    pub open spec fn without_input(self, id: Seq<char>) -> Self {
        PipelineModel {
            inputs: self.inputs.filter(|entry: InputEntry| entry.id != id),
            queue: self.queue.remove_input(id),
            ..self
        }
    }

    /// The pipeline with one more output.
    pub open spec fn with_output(self, id: Seq<char>, output: PipelineOutput) -> Self {
        PipelineModel { outputs: self.outputs.push(OutputEntry { id, output }), ..self }
    }

    /// The pipeline without the output `id`.
    pub open spec fn without_output(self, id: Seq<char>) -> Self {
        PipelineModel { outputs: self.outputs.filter(|entry: OutputEntry| entry.id != id), ..self }
    }

    /// The size of the pictures of output `id`, for a registered output.
    pub open spec fn resolution_of(self, id: Seq<char>) -> Resolution {
        let at = choose|i: int| 0 <= i < self.outputs.len() && self.outputs[i].id == id;
        self.outputs[at].output.encoder.resolution
    }

    /// The pipeline once started at `now`.
    pub open spec fn started(self, now: nat) -> Self {
        PipelineModel { queue: self.queue.start(now), is_started: true, ..self }
    }
}

/// The input that registering with these options makes.
pub open spec fn input_made(input_opts: InputOptions, decoder_opts: DecoderOptions) -> PipelineInput {
    PipelineInput {
        input: Input::Rtp(RtpReceiver { port: input_opts.port() }),
        decoder: Decoder { options: decoder_opts },
    }
}

/// What the outputs that registering with these options makes have in
/// common: they encode as asked and send where asked.
pub open spec fn is_output_made(
    output: PipelineOutput,
    encoder_opts: EncoderOptions,
    output_opts: OutputOptions,
) -> bool {
    &&& output.encoder == (Encoder {
        preset: encoder_opts.spec_preset(),
        resolution: encoder_opts.spec_resolution(),
    })
    &&& output.output.ip() == output_opts.ip()
    &&& output.output.spec_port() == output_opts.port()
}

/// The scenes as the renderer gets them: each with the size of its output.
pub open spec fn sized_scenes(scenes: Seq<OutputScene>, pipeline: PipelineModel) -> Seq<SizedScene> {
    scenes.map_values(
        |scene: OutputScene|
            SizedScene {
                output_id: scene.output_id,
                root: scene.root,
                resolution: pipeline.resolution_of(scene.output_id@),
            },
    )
}

struct InputSlot {
    id: InputId,
    input: PipelineInput,
}

struct OutputSlot {
    id: OutputId,
    output: PipelineOutput,
}

impl View for InputSlot {
    type V = InputEntry;

    closed spec fn view(&self) -> InputEntry {
        InputEntry { id: self.id@, input: self.input }
    }
}

impl View for OutputSlot {
    type V = OutputEntry;

    closed spec fn view(&self) -> OutputEntry {
        OutputEntry { id: self.id@, output: self.output }
    }
}

/// The pipeline facade.
pub struct Pipeline {
    inputs: Vec<InputSlot>,
    outputs: Vec<OutputSlot>,
    queue: Queue,
    is_started: bool,
}

impl View for Pipeline {
    type V = PipelineModel;

    closed spec fn view(&self) -> PipelineModel {
        PipelineModel {
            inputs: self.inputs@.map_values(|slot: InputSlot| slot@),
            outputs: self.outputs@.map_values(|slot: OutputSlot| slot@),
            queue: self.queue@,
            is_started: self.is_started,
        }
    }
}

impl Pipeline {
    /// A pipeline with empty registries and a queue that has not been
    /// started.
    pub fn new(opts: Options) -> (pipeline: Self)
        requires
            opts.framerate.is_valid(),
        ensures
            pipeline@ == PipelineModel::empty(opts),
            pipeline@.is_sound(),
    {
        let pipeline = Pipeline {
            inputs: Vec::new(),
            outputs: Vec::new(),
            queue: Queue::new(opts.framerate, opts.stream_fallback_timeout),
            is_started: false,
        };
        assert(pipeline@.inputs =~= Seq::empty());
        assert(pipeline@.outputs =~= Seq::empty());
        pipeline
    }

    /// The frame queue.
    pub fn queue(&self) -> (queue: &Queue)
        ensures
            queue@ == self@.queue,
    {
        &self.queue
    }

    /// Whether the pipeline has been started.
    pub fn is_started(&self) -> (started: bool)
        ensures
            started == self@.is_started,
    {
        self.is_started
    }

    fn find_input(&self, input_id: &InputId) -> (found: Option<usize>)
        ensures
            match found {
                Some(at) => at < self.inputs.len() && self@.inputs[at as int].id == input_id@,
                None => !self@.has_input(input_id@),
            },
    {
        let mut at: usize = 0;
        while at < self.inputs.len()
            invariant
                at <= self.inputs.len(),
                forall|i: int| 0 <= i < at ==> self@.inputs[i].id != input_id@,
            decreases self.inputs.len() - at,
        {
            if self.inputs[at].id.same(input_id) {
                return Some(at);
            }
            at += 1;
        }
        None
    }

    fn find_output(&self, output_id: &OutputId) -> (found: Option<usize>)
        ensures
            match found {
                Some(at) => at < self.outputs.len() && self@.outputs[at as int].id == output_id@,
                None => !self@.has_output(output_id@),
            },
    {
        let mut at: usize = 0;
        while at < self.outputs.len()
            invariant
                at <= self.outputs.len(),
                forall|i: int| 0 <= i < at ==> self@.outputs[i].id != output_id@,
            decreases self.outputs.len() - at,
        {
            if self.outputs[at].id.same(output_id) {
                return Some(at);
            }
            at += 1;
        }
        None
    }

    /// Whether `input_id` is registered.
    pub fn has_input(&self, input_id: &InputId) -> (registered: bool)
        ensures
            registered == self@.has_input(input_id@),
    {
        self.find_input(input_id).is_some()
    }

    /// Whether `output_id` is registered.
    pub fn has_output(&self, output_id: &OutputId) -> (registered: bool)
        ensures
            registered == self@.has_output(output_id@),
    {
        self.find_output(output_id).is_some()
    }

    /// Whether some registered output sends to `ip` and `port`.
    pub fn is_address_taken(&self, ip: &String, port: u16) -> (taken: bool)
        ensures
            taken == self@.address_taken(ip@, port),
    {
        self.find_address(ip, port).is_some()
    }

    /// The first registered output that sends to `ip` and `port`.
    pub fn find_address(&self, ip: &String, port: u16) -> (holder: Option<OutputId>)
        ensures
            match holder {
                Some(id) => exists|at: int|
                    #[trigger] self@.is_first_at_address(at, ip@, port) && self@.outputs[at].id
                        == id@,
                None => !self@.address_taken(ip@, port),
            },
    {
        let mut at: usize = 0;
        while at < self.outputs.len()
            invariant
                at <= self.outputs.len(),
                forall|i: int|
                    0 <= i < at ==> !((#[trigger] self@.outputs[i]).output.output.ip() == ip@
                        && self@.outputs[i].output.output.spec_port() == port),
            decreases self.outputs.len() - at,
        {
            assert(self@.outputs[at as int] == self.outputs[at as int]@);
            if self.outputs[at].output.output.sends_to(ip, port) {
                assert(self@.is_first_at_address(at as int, ip@, port));
                return Some(self.outputs[at].id.clone());
            }
            at += 1;
        }
        None
    }

    /// What stands in the way of registering `input_id`, before anything is
    /// brought up for it: only an identifier that is taken.
    pub fn check_input(&self, input_id: &InputId) -> (clear: Result<(), RegisterInputError>)
        ensures
            self@.has_input(input_id@) ==> clear == Err::<(), _>(
                RegisterInputError::AlreadyRegistered(*input_id),
            ),
            !self@.has_input(input_id@) ==> clear is Ok,
    {
        if self.find_input(input_id).is_some() {
            return Err(RegisterInputError::AlreadyRegistered(input_id.clone()));
        }
        Ok(())
    }

    /// What stands in the way of registering `output_id`, before anything is
    /// brought up for it: an identifier that is taken, then a picture size
    /// with an odd side.
    pub fn check_output(&self, output_id: &OutputId, encoder_opts: &EncoderOptions) -> (clear:
        Result<(), RegisterOutputError>)
        ensures
            self@.has_output(output_id@) ==> clear == Err::<(), _>(
                RegisterOutputError::AlreadyRegistered(*output_id),
            ),
            !self@.has_output(output_id@) && !encoder_opts.spec_resolution().is_even() ==> clear
                == Err::<(), _>(RegisterOutputError::UnsupportedResolution(*output_id)),
            !self@.has_output(output_id@) && encoder_opts.spec_resolution().is_even()
                ==> clear is Ok,
    {
        if self.find_output(output_id).is_some() {
            return Err(RegisterOutputError::AlreadyRegistered(output_id.clone()));
        }
        if !encoder_opts.resolution().has_even_sides() {
            return Err(RegisterOutputError::UnsupportedResolution(output_id.clone()));
        }
        Ok(())
    }

    /// Registers an input, given how bringing it up went.
    ///
    /// An identifier that is taken is refused before anything else is looked
    /// at. Otherwise a transport or decoder that did not come up is reported
    /// under the identifier. Only an input that runs enters the registry and
    /// the queue. Every refusal leaves the pipeline as it was.
    pub fn register_input(
        &mut self,
        input_id: InputId,
        input_opts: InputOptions,
        decoder_opts: DecoderOptions,
        start: InputStart,
        now: u64,
    ) -> (registered: Result<(), RegisterInputError>)
        requires
            old(self)@.is_sound(),
        ensures
            final(self)@.is_sound(),
            registered is Err ==> *final(self) == *old(self),
            old(self)@.has_input(input_id@) ==> registered == Err::<(), _>(
                RegisterInputError::AlreadyRegistered(input_id),
            ),
            !old(self)@.has_input(input_id@) ==> match start {
                InputStart::InputError(error) => registered == Err::<(), _>(
                    RegisterInputError::InputError(input_id, error),
                ),
                InputStart::DecoderError(error) => registered == Err::<(), _>(
                    RegisterInputError::DecoderError(input_id, error),
                ),
                InputStart::Ready => registered is Ok && final(self)@ == old(self)@.with_input(
                    input_id@,
                    input_made(input_opts, decoder_opts),
                    now as nat,
                ),
            },
    {
        if self.find_input(&input_id).is_some() {
            return Err(RegisterInputError::AlreadyRegistered(input_id));
        }
        match start {
            InputStart::InputError(error) => {
                return Err(RegisterInputError::InputError(input_id, error));
            },
            InputStart::DecoderError(error) => {
                return Err(RegisterInputError::DecoderError(input_id, error));
            },
            InputStart::Ready => {},
        }
        let port: u16 = match &input_opts {
            InputOptions::Rtp(options) => options.port,
        };
        let input = PipelineInput {
            input: Input::Rtp(RtpReceiver { port }),
            decoder: Decoder { options: decoder_opts },
        };
        proof {
            laws::lemma_queue_lacks_input(self@, input_id@);
        }
        self.queue.add_input(input_id.clone(), now);
        self.inputs.push(InputSlot { id: input_id, input });
        proof {
            assert(self@.inputs =~= old(self)@.inputs.push(InputEntry { id: input_id@, input }));
            assert(self@.outputs =~= old(self)@.outputs);
        }
        Ok(())
    }

    /// Unregisters an input: it leaves the registry and the queue, and the
    /// frames it had waiting are discarded.
    pub fn unregister_input(&mut self, input_id: &InputId) -> (unregistered: Result<
        (),
        UnregisterInputError,
    >)
        requires
            old(self)@.is_sound(),
        ensures
            final(self)@.is_sound(),
            !old(self)@.has_input(input_id@) ==> unregistered == Err::<(), _>(
                UnregisterInputError::NotFound(*input_id),
            ) && *final(self) == *old(self),
            old(self)@.has_input(input_id@) ==> unregistered is Ok && final(self)@
                == old(self)@.without_input(input_id@) && !final(self)@.has_input(input_id@),
    {
        let at = match self.find_input(input_id) {
            Some(at) => at,
            None => {
                return Err(UnregisterInputError::NotFound(input_id.clone()));
            },
        };
        let ghost before = self@;
        proof {
            laws::lemma_filter_out_input(before.inputs, input_id@);
            crate::queue::laws::lemma_filter_out_one(before.queue.inputs, input_id@);
        }
        self.inputs.remove(at);
        self.queue.remove_input(input_id);
        proof {
            assert(self@.inputs =~= before.inputs.remove(at as int));
            assert forall|i: int| 0 <= i < before.inputs.len() && before.inputs[i].id
                == input_id@ implies i == at by {
                if i < at {
                    assert(before.inputs[i].id != before.inputs[at as int].id);
                } else if i > at {
                    assert(before.inputs[at as int].id != before.inputs[i].id);
                }
            }
            assert(before.queue.inputs[at as int].id == input_id@);
            assert(self@.queue.inputs == before.queue.inputs.remove(at as int));
            assert(self@.outputs =~= before.outputs);
            assert(self@ == before.without_input(input_id@));
        }
        Ok(())
    }

    /// Registers an output, given how bringing it up went.
    ///
    /// An identifier that is taken is refused first, then a picture size with
    /// an odd side. After these an encoder or a transport that did not come
    /// up is reported under the identifier, and an output that claims to run
    /// on an address and port that a registered output holds is refused as a
    /// bind conflict. Only what is left enters the registry. Every refusal
    /// leaves the pipeline as it was.
    pub fn register_output(
        &mut self,
        output_id: OutputId,
        encoder_opts: EncoderOptions,
        output_opts: OutputOptions,
        start: OutputStart,
    ) -> (registered: Result<(), RegisterOutputError>)
        requires
            old(self)@.is_sound(),
        ensures
            final(self)@.is_sound(),
            registered is Err ==> *final(self) == *old(self),
            old(self)@.has_output(output_id@) ==> registered == Err::<(), _>(
                RegisterOutputError::AlreadyRegistered(output_id),
            ),
            !old(self)@.has_output(output_id@) && !encoder_opts.spec_resolution().is_even()
                ==> registered == Err::<(), _>(
                RegisterOutputError::UnsupportedResolution(output_id),
            ),
            !old(self)@.has_output(output_id@) && encoder_opts.spec_resolution().is_even()
                ==> match start {
                OutputStart::EncoderError(error) => registered == Err::<(), _>(
                    RegisterOutputError::EncoderError(output_id, error),
                ),
                OutputStart::OutputError(error) => registered == Err::<(), _>(
                    RegisterOutputError::OutputError(output_id, error),
                ),
                OutputStart::Ready => if old(self)@.address_taken(
                    output_opts.ip(),
                    output_opts.port(),
                ) {
                    registered == Err::<(), _>(
                        RegisterOutputError::OutputError(
                            output_id,
                            OutputInitError::Rtp(RtpSenderError::SocketBind(BindFailure::AddrInUse)),
                        ),
                    )
                } else {
                    &&& registered is Ok
                    &&& final(self)@.outputs.len() == old(self)@.outputs.len() + 1
                    &&& final(self)@ == old(self)@.with_output(
                        output_id@,
                        final(self)@.outputs.last().output,
                    )
                    &&& is_output_made(
                        final(self)@.outputs.last().output,
                        encoder_opts,
                        output_opts,
                    )
                },
            },
    {
        if self.find_output(&output_id).is_some() {
            return Err(RegisterOutputError::AlreadyRegistered(output_id));
        }
        let resolution = encoder_opts.resolution();
        if !resolution.has_even_sides() {
            return Err(RegisterOutputError::UnsupportedResolution(output_id));
        }
        match start {
            OutputStart::EncoderError(error) => {
                return Err(RegisterOutputError::EncoderError(output_id, error));
            },
            OutputStart::OutputError(error) => {
                return Err(RegisterOutputError::OutputError(output_id, error));
            },
            OutputStart::Ready => {},
        }
        let OutputOptions::Rtp(sender_opts) = output_opts;
        if self.is_address_taken(&sender_opts.ip, sender_opts.port) {
            return Err(
                RegisterOutputError::OutputError(
                    output_id,
                    OutputInitError::Rtp(RtpSenderError::SocketBind(BindFailure::AddrInUse)),
                ),
            );
        }
        let output = PipelineOutput {
            encoder: Encoder { preset: encoder_opts.preset(), resolution },
            output: Output::Rtp(RtpSender { port: sender_opts.port, ip: sender_opts.ip }),
        };
        self.outputs.push(OutputSlot { id: output_id, output });
        proof {
            assert(self@.outputs =~= old(self)@.outputs.push(
                OutputEntry { id: output_id@, output },
            ));
            assert(self@.inputs =~= old(self)@.inputs);
            assert(self@.outputs.last().output == output);
        }
        Ok(())
    }

    /// Unregisters an output.
    pub fn unregister_output(&mut self, output_id: &OutputId) -> (unregistered: Result<
        (),
        UnregisterOutputError,
    >)
        requires
            old(self)@.is_sound(),
        ensures
            final(self)@.is_sound(),
            !old(self)@.has_output(output_id@) ==> unregistered == Err::<(), _>(
                UnregisterOutputError::NotFound(*output_id),
            ) && *final(self) == *old(self),
            old(self)@.has_output(output_id@) ==> unregistered is Ok && final(self)@
                == old(self)@.without_output(output_id@) && !final(self)@.has_output(output_id@),
    {
        let at = match self.find_output(output_id) {
            Some(at) => at,
            None => {
                return Err(UnregisterOutputError::NotFound(output_id.clone()));
            },
        };
        let ghost before = self@;
        proof {
            laws::lemma_filter_out_output(before.outputs, output_id@);
        }
        self.outputs.remove(at);
        proof {
            assert(self@.outputs =~= before.outputs.remove(at as int));
            assert forall|i: int| 0 <= i < before.outputs.len() && before.outputs[i].id
                == output_id@ implies i == at by {
                if i < at {
                    assert(before.outputs[i].id != before.outputs[at as int].id);
                } else if i > at {
                    assert(before.outputs[at as int].id != before.outputs[i].id);
                }
            }
            assert(self@.inputs =~= before.inputs);
            assert(self@ == before.without_output(output_id@));
        }
        Ok(())
    }

    /// Prepares a scene update for the renderer.
    ///
    /// Where every scene names a registered output, the scenes come back in
    /// their order, each with the size of its output, to be handed to the
    /// renderer in one call. Where some scene names an output that is not
    /// registered, the first such identifier is reported and nothing is to be
    /// handed on.
    pub fn update_scene(&self, outputs: Vec<OutputScene>) -> (update: Result<
        Vec<SizedScene>,
        UpdateSceneError,
    >)
        requires
            self@.is_sound(),
        ensures
            match update {
                Ok(scenes) => {
                    &&& forall|i: int|
                        0 <= i < outputs.len() ==> self@.has_output(outputs[i].output_id@)
                    &&& scenes@ == sized_scenes(outputs@, self@)
                },
                Err(error) => exists|at: int|
                    {
                        &&& 0 <= at < outputs.len()
                        &&& !self@.has_output(outputs[at].output_id@)
                        &&& forall|i: int| 0 <= i < at ==> self@.has_output(outputs[i].output_id@)
                        &&& error == UpdateSceneError::OutputNotRegistered(outputs[at].output_id)
                    },
            },
    {
        let ghost asked = outputs@;
        let mut scenes: Vec<SizedScene> = Vec::new();
        for scene in it: outputs
            invariant
                it.seq() == asked,
                self@.is_sound(),
                forall|i: int| 0 <= i < it.index() ==> self@.has_output(asked[i].output_id@),
                scenes@ == sized_scenes(asked.take(it.index() as int), self@),
        {
            let at = match self.find_output(&scene.output_id) {
                Some(at) => at,
                None => {
                    return Err(UpdateSceneError::OutputNotRegistered(scene.output_id));
                },
            };
            let resolution = self.outputs[at].output.encoder.resolution();
            proof {
                let chosen = choose|i: int|
                    0 <= i < self@.outputs.len() && self@.outputs[i].id == scene.output_id@;
                if chosen < at {
                    assert(self@.outputs[chosen].id != self@.outputs[at as int].id);
                } else if chosen > at {
                    assert(self@.outputs[at as int].id != self@.outputs[chosen].id);
                }
                assert(self@.outputs[at as int] == self.outputs[at as int]@);
            }
            let ghost sized_before = scenes@;
            scenes.push(SizedScene { output_id: scene.output_id, root: scene.root, resolution });
            assert(scenes@ =~= sized_scenes(asked.take(it.index() + 1), self@)) by {
                assert(asked.take(it.index() + 1) =~= asked.take(it.index() as int).push(scene));
            }
        }
        assert(asked.take(asked.len() as int) =~= asked);
        Ok(scenes)
    }

    /// Starts the pipeline at time `now`, with tick zero next. Returns whether
    /// this call started it; a pipeline that runs already stays as it is.
    pub fn start(&mut self, now: u64) -> (started_now: bool)
        requires
            old(self)@.is_sound(),
        ensures
            final(self)@.is_sound(),
            started_now == !old(self)@.is_started,
            old(self)@.is_started ==> *final(self) == *old(self),
            !old(self)@.is_started ==> final(self)@ == old(self)@.started(now as nat)
                && final(self)@.queue.next_tick == 0,
    {
        if self.is_started {
            return false;
        }
        self.queue.start(now);
        self.is_started = true;
        proof {
            assert(self@.inputs =~= old(self)@.inputs);
            assert(self@.outputs =~= old(self)@.outputs);
        }
        true
    }

    /// Subscribes `listener` to the next frame of `input_id`.
    pub fn subscribe_input_listener(&mut self, input_id: InputId, listener: ListenerId)
        requires
            old(self)@.is_sound(),
        ensures
            final(self)@ == (PipelineModel {
                queue: old(self)@.queue.subscribe(input_id@, listener),
                ..old(self)@
            }),
            final(self)@.is_sound(),
    {
        self.queue.subscribe_input_listener(input_id, listener);
        proof {
            assert(self@.inputs =~= old(self)@.inputs);
            assert(self@.outputs =~= old(self)@.outputs);
        }
    }

    /// Hands a decoded frame to the queue at time `now`; see
    /// [`Queue::enqueue`].
    pub fn enqueue(&mut self, frame: RawFrame, now: u64) -> (arrival: Result<Arrival, QueueError>)
        requires
            old(self)@.is_sound(),
        ensures
            final(self)@.is_sound(),
            final(self)@.inputs == old(self)@.inputs,
            final(self)@.outputs == old(self)@.outputs,
            final(self)@.is_started == old(self)@.is_started,
            !frame.is_valid() ==> arrival == Err::<Arrival, _>(
                QueueError::InvalidFrame(frame.input_id),
            ) && final(self)@ == old(self)@,
            frame.is_valid() && !old(self)@.has_input(frame.input_id@) ==> arrival == Err::<
                Arrival,
                _,
            >(QueueError::UnknownInput(frame.input_id)) && final(self)@ == old(self)@,
            frame.is_valid() && old(self)@.has_input(frame.input_id@) ==> arrival is Ok && {
                let report = arrival->Ok_0;
                &&& final(self)@.queue == old(self)@.queue.enqueue(frame, now as nat)
                &&& report.listeners@ == old(self)@.queue.listeners_of(frame.input_id@)
                &&& report.dropped_oldest == exists|i: int|
                    0 <= i < old(self)@.queue.inputs.len() && old(self)@.queue.inputs[i].id
                        == frame.input_id@ && old(self)@.queue.inputs[i].frames.len() + 1 > old(
                        self,
                    )@.queue.buffer_bound
            },
    {
        proof {
            laws::lemma_queue_lacks_input(self@, frame.input_id@);
        }
        let arrival = self.queue.enqueue(frame, now);
        proof {
            assert(self@.inputs =~= old(self)@.inputs);
            assert(self@.outputs =~= old(self)@.outputs);
        }
        arrival
    }

    /// How long to wait before the queue looks at the clock again; see
    /// [`Queue::wait_before_next_look`].
    pub fn wait_before_next_look(&self, now: u64) -> (wait: u64)
        requires
            self@.is_sound(),
        ensures
            wait >= 1,
            self@.queue.is_ahead_of_next_tick(now as nat) ==> self@.queue.is_next_instant(
                now + wait,
            ),
            !self@.queue.is_ahead_of_next_tick(now as nat) ==> exists|period: int|
                #[trigger] self@.queue.is_tick_period(period) && wait == if period
                    < crate::queue::RETRY_SLACK {
                    period
                } else {
                    crate::queue::RETRY_SLACK as int
                },
    {
        self.queue.wait_before_next_look(now)
    }

    /// Lets the queue look at the clock; see [`Queue::poll`].
    pub fn poll(&mut self, now: u64) -> (outcome: TickOutcome)
        requires
            old(self)@.is_sound(),
        ensures
            final(self)@ == (PipelineModel {
                queue: old(self)@.queue.poll(now as nat),
                ..old(self)@
            }),
            outcome@ == old(self)@.queue.poll_outcome(now as nat),
            final(self)@.is_sound(),
    {
        let outcome = self.queue.poll(now);
        proof {
            assert(self@.inputs =~= old(self)@.inputs);
            assert(self@.outputs =~= old(self)@.outputs);
        }
        outcome
    }

    /// The registered inputs, in the order of their registration.
    pub fn inputs(&self) -> (listing: Vec<(InputId, PipelineInput)>)
        ensures
            listing.len() == self@.inputs.len(),
            forall|i: int|
                0 <= i < listing.len() ==> (#[trigger] listing[i]).0@ == self@.inputs[i].id
                    && listing[i].1 == self@.inputs[i].input,
    {
        let mut listing: Vec<(InputId, PipelineInput)> = Vec::new();
        let mut at: usize = 0;
        while at < self.inputs.len()
            invariant
                at <= self.inputs.len(),
                listing.len() == at,
                forall|i: int|
                    0 <= i < at ==> (#[trigger] listing[i]).0@ == self@.inputs[i].id
                        && listing[i].1 == self@.inputs[i].input,
            decreases self.inputs.len() - at,
        {
            listing.push((self.inputs[at].id.clone(), self.inputs[at].input));
            at += 1;
        }
        listing
    }

    /// The registered outputs, in the order of their registration.
    pub fn outputs(&self) -> (listing: Vec<(OutputId, PipelineOutput)>)
        ensures
            self@.is_listed_by(listing@),
    {
        let mut listing: Vec<(OutputId, PipelineOutput)> = Vec::new();
        let mut at: usize = 0;
        while at < self.outputs.len()
            invariant
                at <= self.outputs.len(),
                listing.len() == at,
                forall|i: int|
                    0 <= i < at ==> (#[trigger] listing[i]).0@ == self@.outputs[i].id
                        && listing[i].1 == self@.outputs[i].output,
            decreases self.outputs.len() - at,
        {
            listing.push((self.outputs[at].id.clone(), self.outputs[at].output.clone()));
            at += 1;
        }
        listing
    }

    /// Calls `f` with a listing of the registered outputs, in the order of
    /// their registration, and hands back what `f` returns. The listing is a
    /// copy: `f` may keep it, and nothing of the registry is borrowed while
    /// `f` runs.
    pub fn with_outputs<F, R>(&self, f: F) -> (returned: R) where
        F: FnOnce(Vec<(OutputId, PipelineOutput)>) -> R,

        requires
            forall|listing: Vec<(OutputId, PipelineOutput)>|
                self@.is_listed_by(listing@) ==> #[trigger] f.requires((listing,)),
        ensures
            exists|listing: Vec<(OutputId, PipelineOutput)>|
                self@.is_listed_by(listing@) && #[trigger] f.ensures((listing,), returned),
    {
        let listing = self.outputs();
        f(listing)
    }

    /// The registered output `output_id`, if there is one.
    pub fn output(&self, output_id: &OutputId) -> (found: Option<PipelineOutput>)
        ensures
            match found {
                Some(output) => exists|i: int|
                    0 <= i < self@.outputs.len() && self@.outputs[i].id == output_id@
                        && self@.outputs[i].output == output,
                None => !self@.has_output(output_id@),
            },
    {
        match self.find_output(output_id) {
            Some(at) => {
                assert(self@.outputs[at as int] == self.outputs[at as int]@);
                Some(self.outputs[at].output.clone())
            },
            None => None,
        }
    }
}

} // verus!
