//! The request dispatcher.
//!
//! The dispatcher turns requests into operations on the pipeline and answers
//! them. It does none of the outside work itself: where a request needs a
//! socket, a codec or the renderer, [`Api::handle_request`] returns the
//! [`Work`] to be done, and the caller reports how it went through
//! [`Api::resume`], until a [`Step::Finished`] carries the answer.

pub mod laws;
pub mod register_request;

use crate::error::ApiError;
use crate::error::RegisterInputError;
use crate::error::RegisterOutputError;
use crate::error::UnregisterInputError;
use crate::error::UnregisterOutputError;
use crate::error::UpdateSceneError;
use crate::error::INTERNAL_SERVER_ERROR_CODE;
use crate::error::MALFORMED_REQUEST_ERROR_CODE;
use crate::error::STATUS_BAD_REQUEST;
use crate::error::STATUS_INTERNAL_SERVER_ERROR;
use crate::pipeline::decoder::DecoderOptions;
use crate::pipeline::encoder::EncoderOptions;
use crate::pipeline::input::InputOptions;
use crate::pipeline::output::OutputOptions;
use crate::pipeline::sized_scenes;
use crate::pipeline::InputEntry;
use crate::pipeline::InputStart;
use crate::pipeline::Options;
use crate::pipeline::OutputEntry;
use crate::pipeline::OutputScene;
use crate::pipeline::OutputStart;
use crate::pipeline::Pipeline;
use crate::pipeline::PipelineModel;
use crate::pipeline::SizedScene;
use crate::queue::model::ListenerId;
use crate::text::chars_of;
use crate::text::find_char;
use crate::text::parse_number;
use crate::text::parse_unsigned;
use crate::types;
use crate::types::register_request::ImageSpec;
use crate::types::register_request::RegisterOutputRequest;
use crate::types::register_request::RegisterRequest;
use crate::types::register_request::ShaderSpec;
use crate::types::register_request::WebRendererSpec;
use crate::types::InputId;
use crate::types::OutputId;
use crate::types::RendererId;
use vstd::prelude::*;

verus! {

/// A request to the server.
#[derive(Debug)]
pub enum Request {
    Register(RegisterRequest),
    Unregister(UnregisterRequest),
    UpdateScene(UpdateScene),
    Query(QueryRequest),
    Start,
}

/// A request to replace the scenes of some outputs.
#[derive(Debug)]
pub struct UpdateScene {
    pub outputs: Vec<OutputScene>,
}

/// A request to unregister something.
#[derive(Debug)]
pub enum UnregisterRequest {
    InputStream { input_id: InputId },
    OutputStream { output_id: OutputId },
    Shader { shader_id: RendererId },
    WebRenderer { instance_id: RendererId },
    Image { image_id: RendererId },
}

/// A question to the server.
#[derive(Debug)]
pub enum QueryRequest {
    WaitForNextFrame { input_id: InputId },
    Inputs,
    Outputs,
}

/// An answer of the server.
#[derive(Debug)]
pub enum Response {
    Success {  },
    Inputs { inputs: Vec<InputInfo> },
    Outputs { outputs: Vec<OutputInfo> },
    RegisteredPort(u16),
}

/// A port, or an inclusive range of ports to pick one from.
#[derive(Debug, Clone, Copy, PartialEq, Eq)]
pub enum Port {
    Range((u16, u16)),
    Exact(u16),
}

/// A registered input as the client is told of it.
#[derive(Debug)]
pub struct InputInfo {
    pub id: InputId,
    pub port: u16,
}

/// A registered output as the client is told of it.
#[derive(Debug)]
pub struct OutputInfo {
    pub id: OutputId,
    pub port: u16,
    pub ip: String,
}

/// How a request is answered.
#[derive(Debug)]
pub enum ResponseHandler {
    /// With this response, now.
    Response(Response),
    /// With the empty response, now.
    Success,
    /// Once this listener has fired, or the wait for it has ended.
    DeferredResponse(ListenerId),
}

/// The kinds of renderers.
#[derive(Debug, Clone, Copy, PartialEq, Eq, Structural)]
pub enum RegistryType {
    Shader,
    WebRenderer,
    Image,
}

/// A renderer to register.
#[derive(Debug)]
pub enum RendererSpec {
    Shader(ShaderSpec),
    WebRenderer(WebRendererSpec),
    Image(ImageSpec),
}

/// Work that the dispatcher cannot do itself.
#[derive(Debug)]
pub enum Work {
    /// Bring up the transport, then the decoder, of an input; report with
    /// [`Report::Input`].
    StartInput { input_id: InputId, input_opts: InputOptions, decoder_opts: DecoderOptions },
    /// Bring up the encoder, then the transport, of an output; report with
    /// [`Report::Output`].
    StartOutput { output_id: OutputId, encoder_opts: EncoderOptions, output_opts: OutputOptions },
    /// Register a renderer with the renderer engine; report with
    /// [`Report::Renderer`].
    RegisterRenderer(RendererSpec),
    /// Unregister a renderer from the renderer engine; report with
    /// [`Report::Renderer`].
    UnregisterRenderer { renderer_id: RendererId, registry_type: RegistryType },
    /// Hand the scenes to the renderer in one call; report with
    /// [`Report::Scene`].
    UpdateScene(Vec<SizedScene>),
    /// Shut down the transport and the decoder of an input that has left the
    /// registry; report with [`Report::Done`].
    StopInput(InputId),
    /// Shut down the encoder and the transport of an output that has left the
    /// registry; report with [`Report::Done`].
    StopOutput(OutputId),
    /// Set the tick timer and the render driver going; report with
    /// [`Report::Done`].
    StartDriver,
}

/// How a piece of [`Work`] went.
#[derive(Debug)]
pub enum Report {
    Input(InputStart),
    Output(OutputStart),
    /// The renderer engine's verdict, with its error as the client is to be
    /// told of it.
    Renderer(Result<(), ApiError>),
    /// The renderer's verdict on the scenes, with its reason for a refusal.
    Scene(Result<(), String>),
    Done,
}

/// What the caller is to do next.
#[derive(Debug)]
pub enum Step {
    /// Answer the request.
    Finished(Result<ResponseHandler, ApiError>),
    /// Do this work and report through [`Api::resume`].
    Perform(Work),
}

/// The request that waits for a report.
#[derive(Debug)]
pub enum Pending {
    /// No request is under way.
    Idle,
    /// An input is being brought up on `port`; with a range, ports up to
    /// its end remain to be tried.
    Input { input_id: InputId, port: u16, range: Option<(u16, u16)> },
    /// An output is being brought up.
    Output(RegisterOutputRequest),
    /// The renderer engine registers or unregisters a renderer.
    Renderer,
    /// The renderer looks at new scenes.
    Scene,
    /// Work is under way whose outcome changes nothing.
    Cleanup,
}

impl Step {
    /// The step answers the request with an error of this code and status,
    /// with this message, and with this cause below the message on its stack.
    pub open spec fn fails_telling(
        self,
        error_code: &str,
        http_status_code: u16,
        message: Seq<char>,
        cause: Option<Seq<char>>,
    ) -> bool {
        self matches Step::Finished(Err(error)) && error.is(error_code, http_status_code)
            && error.tells(message, cause)
    }

    /// The step answers the request with what `error` is for the client.
    pub open spec fn refuses_input(self, error: RegisterInputError) -> bool {
        self.fails_telling(
            error.error_code(),
            error.http_status_code(),
            error.message(),
            error.cause(),
        )
    }

    /// The step answers the request with what `error` is for the client.
    pub open spec fn refuses_output(self, error: RegisterOutputError) -> bool {
        self.fails_telling(
            error.error_code(),
            error.http_status_code(),
            error.message(),
            error.cause(),
        )
    }

    /// The step answers the request as one that came out of turn.
    pub open spec fn fails_out_of_turn(self) -> bool {
        self.fails_telling(
            INTERNAL_SERVER_ERROR_CODE,
            STATUS_INTERNAL_SERVER_ERROR,
            "Internal Server Error"@,
            None,
        )
    }

    /// The step answers the request with the empty response.
    pub open spec fn succeeds(self) -> bool {
        self matches Step::Finished(Ok(ResponseHandler::Success))
    }
}

/// What the client is told of a port that cannot be read.
pub const PORT_FORMAT_ERROR: &'static str =
    "Port needs to be a number or a string in the \"START:END\" format, where START and END are the first and the last port of a range.";

/// The text of a port range, `START:END`, as the pair of its ends; nothing
/// for a text of any other form.
pub open spec fn port_range(text: Seq<char>) -> Option<(u16, u16)> {
    if exists|i: int| 0 <= i < text.len() && text[i] == ':' {
        let colon = choose|i: int|
            0 <= i < text.len() && text[i] == ':' && forall|j: int| 0 <= j < i ==> text[j] != ':';
        match (
            parse_unsigned(text.subrange(0, colon), u16::MAX as nat),
            parse_unsigned(text.subrange(colon + 1, text.len() as int), u16::MAX as nat),
        ) {
            (Some(start), Some(end)) => if start <= end {
                Some((start as u16, end as u16))
            } else {
                None
            },
            _ => None,
        }
    } else {
        None
    }
}

impl Port {
    /// What a port as the client writes it means: a number is that port, a
    /// text `START:END` with `START` no greater than `END` is the range
    /// between them, and any other text means nothing.
    pub open spec fn meaning(port: types::register_request::Port) -> Option<Port> {
        match port {
            types::register_request::Port::U16(port) => Some(Port::Exact(port)),
            types::register_request::Port::String(text) => match port_range(text@) {
                Some(range) => Some(Port::Range(range)),
                None => None,
            },
        }
    }

    /// Reads a port as the client writes it. A text that is no range is
    /// answered as a malformed request.
    pub fn try_from(value: types::register_request::Port) -> (port: Result<Port, ApiError>)
        ensures
            match port {
                Ok(port) => Port::meaning(value) == Some(port),
                Err(error) => Port::meaning(value) is None && error.is(
                    MALFORMED_REQUEST_ERROR_CODE,
                    STATUS_BAD_REQUEST,
                ) && error.tells(PORT_FORMAT_ERROR@, None),
            },
    {
        match value {
            types::register_request::Port::U16(port) => Ok(Port::Exact(port)),
            types::register_request::Port::String(text) => {
                let chars = chars_of(text.as_str());
                let range = match find_char(&chars, ':') {
                    Some(colon) => {
                        proof {
                            let first = choose|i: int|
                                0 <= i < chars@.len() && chars@[i] == ':' && forall|j: int|
                                    0 <= j < i ==> chars@[j] != ':';
                            assert(first == colon) by {
                                if first < colon {
                                    assert(chars@[first] != ':');
                                } else if colon < first {
                                    assert(chars@[colon as int] != ':');
                                }
                            }
                        }
                        let start = parse_number(&chars, 0, colon, 0xFFFF);
                        let end = parse_number(&chars, colon + 1, chars.len(), 0xFFFF);
                        match (start, end) {
                            (Some(start), Some(end)) => if start <= end {
                                Some((start as u16, end as u16))
                            } else {
                                None
                            },
                            _ => None,
                        }
                    },
                    None => None,
                };
                match range {
                    Some(range) => Ok(Port::Range(range)),
                    None => Err(ApiError::malformed_request(String::from_str(PORT_FORMAT_ERROR))),
                }
            },
        }
    }
}

/// The dispatcher as a mathematical value.
pub struct ApiModel {
    pub pipeline: PipelineModel,
    pub pending: Pending,
    /// The handle that the next deferred query gets.
    pub next_listener: u64,
}

/// `infos` lists `inputs` in their order.
pub open spec fn lists_inputs(infos: Seq<InputInfo>, inputs: Seq<InputEntry>) -> bool {
    &&& infos.len() == inputs.len()
    &&& forall|i: int|
        0 <= i < infos.len() ==> (#[trigger] infos[i]).id@ == inputs[i].id && infos[i].port
            == inputs[i].input.input.spec_port()
}

/// `infos` lists `outputs` in their order.
pub open spec fn lists_outputs(infos: Seq<OutputInfo>, outputs: Seq<OutputEntry>) -> bool {
    &&& infos.len() == outputs.len()
    &&& forall|i: int|
        0 <= i < infos.len() ==> {
            &&& (#[trigger] infos[i]).id@ == outputs[i].id
            &&& infos[i].port == outputs[i].output.output.spec_port()
            &&& infos[i].ip@ == outputs[i].output.output.ip()
        }
}

impl ApiModel {
    /// What holds of every dispatcher that the operations can reach.
    pub open spec fn is_sound(self) -> bool {
        self.pipeline.is_sound()
    }

    /// The dispatcher with another pipeline.
    pub open spec fn with_pipeline(self, pipeline: PipelineModel) -> Self {
        ApiModel { pipeline, ..self }
    }

    /// The dispatcher waiting for another report.
    pub open spec fn waiting_for(self, pending: Pending) -> Self {
        ApiModel { pending, ..self }
    }

    /// How an unregister request is handled. An input or output that is not
    /// registered is answered as not found. One that is leaves the registry
    /// at once, and what ran for it is to be shut down. A renderer is for the
    /// renderer engine to unregister.
    pub open spec fn handles_unregister(
        self,
        request: UnregisterRequest,
        after: ApiModel,
        step: Step,
    ) -> bool {
        match request {
            UnregisterRequest::InputStream { input_id } => if self.pipeline.has_input(input_id@) {
                &&& after == self.with_pipeline(
                    self.pipeline.without_input(input_id@),
                ).waiting_for(Pending::Cleanup)
                &&& step == Step::Perform(Work::StopInput(input_id))
            } else {
                &&& after == self
                &&& step.fails_telling(
                    crate::error::INPUT_STREAM_NOT_FOUND,
                    crate::error::STATUS_NOT_FOUND,
                    UnregisterInputError::NotFound(input_id).message(),
                    None,
                )
            },
            UnregisterRequest::OutputStream { output_id } => if self.pipeline.has_output(
                output_id@,
            ) {
                &&& after == self.with_pipeline(
                    self.pipeline.without_output(output_id@),
                ).waiting_for(Pending::Cleanup)
                &&& step == Step::Perform(Work::StopOutput(output_id))
            } else {
                &&& after == self
                &&& step.fails_telling(
                    crate::error::OUTPUT_STREAM_NOT_FOUND,
                    crate::error::STATUS_NOT_FOUND,
                    UnregisterOutputError::NotFound(output_id).message(),
                    None,
                )
            },
            UnregisterRequest::Shader { shader_id } => {
                &&& after == self.waiting_for(Pending::Renderer)
                &&& step == Step::Perform(
                    Work::UnregisterRenderer {
                        renderer_id: shader_id,
                        registry_type: RegistryType::Shader,
                    },
                )
            },
            UnregisterRequest::WebRenderer { instance_id } => {
                &&& after == self.waiting_for(Pending::Renderer)
                &&& step == Step::Perform(
                    Work::UnregisterRenderer {
                        renderer_id: instance_id,
                        registry_type: RegistryType::WebRenderer,
                    },
                )
            },
            UnregisterRequest::Image { image_id } => {
                &&& after == self.waiting_for(Pending::Renderer)
                &&& step == Step::Perform(
                    Work::UnregisterRenderer {
                        renderer_id: image_id,
                        registry_type: RegistryType::Image,
                    },
                )
            },
        }
    }

    /// How a scene update is handled. Where every scene names a registered
    /// output, the scenes go to the renderer, each with the size of its
    /// output. Otherwise the request fails, naming the first output that is
    /// not registered, and nothing goes to the renderer.
    pub open spec fn handles_update_scene(
        self,
        request: UpdateScene,
        after: ApiModel,
        step: Step,
    ) -> bool {
        if forall|i: int|
            0 <= i < request.outputs.len() ==> self.pipeline.has_output(
                request.outputs[i].output_id@,
            ) {
            &&& after == self.waiting_for(Pending::Scene)
            &&& step matches Step::Perform(Work::UpdateScene(scenes))
            &&& scenes@ == sized_scenes(request.outputs@, self.pipeline)
        } else {
            &&& after == self
            &&& exists|at: int|
                {
                    &&& 0 <= at < request.outputs.len()
                    &&& !self.pipeline.has_output(request.outputs[at].output_id@)
                    &&& forall|i: int|
                        0 <= i < at ==> self.pipeline.has_output(request.outputs[i].output_id@)
                    &&& step.fails_telling(
                        crate::error::SCENE_OUTPUT_NOT_REGISTERED,
                        STATUS_BAD_REQUEST,
                        UpdateSceneError::OutputNotRegistered(
                            request.outputs[at].output_id,
                        ).message(),
                        None,
                    )
                }
        }
    }

    /// How a start request is handled. The first one starts the queue at
    /// `now` and has the driver set going; any later one changes nothing and
    /// is answered all the same.
    pub open spec fn handles_start(self, now: u64, after: ApiModel, step: Step) -> bool {
        if self.pipeline.is_started {
            &&& after == self
            &&& step.succeeds()
        } else {
            &&& after == self.with_pipeline(self.pipeline.started(now as nat)).waiting_for(
                Pending::Cleanup,
            )
            &&& step == Step::Perform(Work::StartDriver)
        }
    }

    /// How a query is handled. A wait for the next frame subscribes a fresh
    /// listener and defers the answer to it. The listings answer at once
    /// with the registered inputs or outputs, in the order of their
    /// registration.
    pub open spec fn handles_query(self, request: QueryRequest, after: ApiModel, step: Step) -> bool {
        match request {
            QueryRequest::WaitForNextFrame { input_id } => {
                let listener = ListenerId(self.next_listener);
                &&& after == (ApiModel {
                    pipeline: PipelineModel {
                        queue: self.pipeline.queue.subscribe(input_id@, listener),
                        ..self.pipeline
                    },
                    next_listener: if self.next_listener == u64::MAX {
                        0
                    } else {
                        (self.next_listener + 1) as u64
                    },
                    ..self
                })
                &&& step == Step::Finished(Ok(ResponseHandler::DeferredResponse(listener)))
            },
            QueryRequest::Inputs => {
                &&& after == self
                &&& step matches Step::Finished(
                    Ok(ResponseHandler::Response(Response::Inputs { inputs })),
                )
                &&& lists_inputs(inputs@, self.pipeline.inputs)
            },
            QueryRequest::Outputs => {
                &&& after == self
                &&& step matches Step::Finished(
                    Ok(ResponseHandler::Response(Response::Outputs { outputs })),
                )
                &&& lists_outputs(outputs@, self.pipeline.outputs)
            },
        }
    }

    /// How a report on renderer work, on scenes or on cleanup is taken. The
    /// request is answered with the renderer's verdict, and nothing else
    /// changes. A report that does not fit the work under way is answered as
    /// an internal error.
    pub open spec fn takes_plain_report(self, report: Report, after: ApiModel, step: Step) -> bool {
        &&& after == self.waiting_for(Pending::Idle)
        &&& match (self.pending, report) {
            (Pending::Renderer, Report::Renderer(Ok(_))) => step.succeeds(),
            (Pending::Renderer, Report::Renderer(Err(error))) => step == Step::Finished(Err(error)),
            (Pending::Scene, Report::Scene(Ok(_))) => step.succeeds(),
            (Pending::Scene, Report::Scene(Err(reason))) => step.fails_telling(
                crate::error::SCENE_INVALID,
                STATUS_BAD_REQUEST,
                reason@,
                None,
            ),
            (Pending::Cleanup, Report::Done) => step.succeeds(),
            _ => step.fails_out_of_turn(),
        }
    }
}

/// The answer to a caller that reports out of turn, or asks while another
/// request is under way.
pub fn out_of_turn() -> (error: ApiError)
    ensures
        error.is(INTERNAL_SERVER_ERROR_CODE, STATUS_INTERNAL_SERVER_ERROR),
        error.tells("Internal Server Error"@, None),
{
    ApiError::new(
        INTERNAL_SERVER_ERROR_CODE,
        String::from_str("Internal Server Error"),
        STATUS_INTERNAL_SERVER_ERROR,
    )
}

/// The request dispatcher.
pub struct Api {
    pub(crate) pipeline: Pipeline,
    pub(crate) pending: Pending,
    pub(crate) next_listener: u64,
}

impl View for Api {
    type V = ApiModel;

    closed spec fn view(&self) -> ApiModel {
        ApiModel {
            pipeline: self.pipeline@,
            pending: self.pending,
            next_listener: self.next_listener,
        }
    }
}

impl Api {
    /// A dispatcher over a fresh pipeline.
    pub fn new(options: Options) -> (api: Api)
        requires
            options.framerate.is_valid(),
        ensures
            api@ == (ApiModel {
                pipeline: PipelineModel::empty(options),
                pending: Pending::Idle,
                next_listener: 0,
            }),
            api@.is_sound(),
    {
        Api { pipeline: Pipeline::new(options), pending: Pending::Idle, next_listener: 0 }
    }

    /// The pipeline behind the dispatcher.
    pub fn pipeline(&self) -> (pipeline: &Pipeline)
        ensures
            pipeline@ == self@.pipeline,
    {
        &self.pipeline
    }

    /// The pipeline behind the dispatcher, for the stages that feed and
    /// drain the queue.
    pub fn pipeline_mut(&mut self) -> (pipeline: &mut Pipeline)
        ensures
            pipeline@ == old(self)@.pipeline,
            final(self)@ == old(self)@.with_pipeline(final(pipeline)@),
    {
        &mut self.pipeline
    }

    /// Whether a request waits for a report.
    pub fn is_busy(&self) -> (busy: bool)
        ensures
            busy == !(self@.pending is Idle),
    {
        match self.pending {
            Pending::Idle => false,
            _ => true,
        }
    }

    /// Whether `request` asks to start a pipeline that runs already. Such a
    /// request changes nothing and is answered like any start; it is worth a
    /// line in the log.
    pub fn repeats_start(&self, request: &Request) -> (repeated: bool)
        ensures
            repeated == (*request is Start && self@.pipeline.is_started),
    {
        match request {
            Request::Start => self.pipeline.is_started(),
            _ => false,
        }
    }

    /// Handles a request at time `now`.
    ///
    /// While another request waits for a report, the request is answered as
    /// an internal error and nothing changes. Otherwise each kind of request
    /// is handled as the relation named for it says.
    pub fn handle_request(&mut self, request: Request, now: u64) -> (step: Step)
        requires
            old(self)@.is_sound(),
        ensures
            final(self)@.is_sound(),
            !(old(self)@.pending is Idle) ==> final(self)@ == old(self)@
                && step.fails_out_of_turn(),
            old(self)@.pending is Idle ==> match request {
                Request::Register(register_request) => old(self)@.handles_register(
                    register_request,
                    final(self)@,
                    step,
                ),
                Request::Unregister(unregister_request) => old(self)@.handles_unregister(
                    unregister_request,
                    final(self)@,
                    step,
                ),
                Request::UpdateScene(scene_spec) => old(self)@.handles_update_scene(
                    scene_spec,
                    final(self)@,
                    step,
                ),
                Request::Query(query) => old(self)@.handles_query(query, final(self)@, step),
                Request::Start => old(self)@.handles_start(now, final(self)@, step),
            },
    {
        if self.is_busy() {
            return Step::Finished(Err(out_of_turn()));
        }
        match request {
            Request::Register(register_request) => register_request::handle_register_request(
                self,
                register_request,
            ),
            Request::Unregister(unregister_request) => self.handle_unregister_request(
                unregister_request,
            ),
            Request::Start => {
                if self.pipeline.start(now) {
                    self.pending = Pending::Cleanup;
                    Step::Perform(Work::StartDriver)
                } else {
                    Step::Finished(Ok(ResponseHandler::Success))
                }
            },
            Request::UpdateScene(scene_spec) => {
                match self.pipeline.update_scene(scene_spec.outputs) {
                    Ok(scenes) => {
                        self.pending = Pending::Scene;
                        Step::Perform(Work::UpdateScene(scenes))
                    },
                    Err(error) => Step::Finished(Err(error.into_api_error())),
                }
            },
            Request::Query(query) => self.handle_query(query),
        }
    }

    fn handle_query(&mut self, query: QueryRequest) -> (step: Step)
        requires
            old(self)@.is_sound(),
            old(self)@.pending is Idle,
        ensures
            final(self)@.is_sound(),
            old(self)@.handles_query(query, final(self)@, step),
    {
        match query {
            QueryRequest::WaitForNextFrame { input_id } => {
                let listener = ListenerId(self.next_listener);
                self.next_listener = if self.next_listener == u64::MAX {
                    0
                } else {
                    self.next_listener + 1
                };
                self.pipeline.subscribe_input_listener(input_id, listener);
                Step::Finished(Ok(ResponseHandler::DeferredResponse(listener)))
            },
            QueryRequest::Inputs => {
                let listing = self.pipeline.inputs();
                let mut inputs: Vec<InputInfo> = Vec::new();
                for entry in it: listing
                    invariant
                        it.seq().len() == self@.pipeline.inputs.len(),
                        forall|i: int|
                            0 <= i < it.seq().len() ==> (#[trigger] it.seq()[i]).0@
                                == self@.pipeline.inputs[i].id && it.seq()[i].1
                                == self@.pipeline.inputs[i].input,
                        lists_inputs(inputs@, self@.pipeline.inputs.take(it.index() as int)),
                {
                    let (id, node) = entry;
                    inputs.push(InputInfo { id, port: node.input.port() });
                }
                assert(self@.pipeline.inputs.take(self@.pipeline.inputs.len() as int)
                    =~= self@.pipeline.inputs);
                Step::Finished(Ok(ResponseHandler::Response(Response::Inputs { inputs })))
            },
            QueryRequest::Outputs => {
                let listing = self.pipeline.outputs();
                let mut outputs: Vec<OutputInfo> = Vec::new();
                for entry in it: listing
                    invariant
                        self@.pipeline.is_listed_by(it.seq()),
                        lists_outputs(outputs@, self@.pipeline.outputs.take(it.index() as int)),
                {
                    let (id, node) = entry;
                    let port = node.output.port();
                    let ip = match node.output {
                        crate::pipeline::output::Output::Rtp(sender) => sender.ip,
                    };
                    outputs.push(OutputInfo { id, port, ip });
                }
                assert(self@.pipeline.outputs.take(self@.pipeline.outputs.len() as int)
                    =~= self@.pipeline.outputs);
                Step::Finished(Ok(ResponseHandler::Response(Response::Outputs { outputs })))
            },
        }
    }

    fn handle_unregister_request(&mut self, request: UnregisterRequest) -> (step: Step)
        requires
            old(self)@.is_sound(),
            old(self)@.pending is Idle,
        ensures
            final(self)@.is_sound(),
            old(self)@.handles_unregister(request, final(self)@, step),
    {
        match request {
            UnregisterRequest::InputStream { input_id } => {
                match self.pipeline.unregister_input(&input_id) {
                    Ok(_) => {
                        self.pending = Pending::Cleanup;
                        Step::Perform(Work::StopInput(input_id))
                    },
                    Err(error) => Step::Finished(Err(error.into_api_error())),
                }
            },
            UnregisterRequest::OutputStream { output_id } => {
                match self.pipeline.unregister_output(&output_id) {
                    Ok(_) => {
                        self.pending = Pending::Cleanup;
                        Step::Perform(Work::StopOutput(output_id))
                    },
                    Err(error) => Step::Finished(Err(error.into_api_error())),
                }
            },
            UnregisterRequest::Shader { shader_id } => {
                self.pending = Pending::Renderer;
                Step::Perform(
                    Work::UnregisterRenderer {
                        renderer_id: shader_id,
                        registry_type: RegistryType::Shader,
                    },
                )
            },
            UnregisterRequest::WebRenderer { instance_id } => {
                self.pending = Pending::Renderer;
                Step::Perform(
                    Work::UnregisterRenderer {
                        renderer_id: instance_id,
                        registry_type: RegistryType::WebRenderer,
                    },
                )
            },
            UnregisterRequest::Image { image_id } => {
                self.pending = Pending::Renderer;
                Step::Perform(
                    Work::UnregisterRenderer {
                        renderer_id: image_id,
                        registry_type: RegistryType::Image,
                    },
                )
            },
        }
    }

    /// Takes the report on the work that the last step asked for, at time
    /// `now`, and says what to do next.
    ///
    /// A report on an input or an output that is being brought up is taken as
    /// the relations of those names say; any other as
    /// [`ApiModel::takes_plain_report`] says.
    pub fn resume(&mut self, report: Report, now: u64) -> (step: Step)
        requires
            old(self)@.is_sound(),
        ensures
            final(self)@.is_sound(),
            match (old(self)@.pending, report) {
                (Pending::Input { input_id, port, range }, Report::Input(start)) => old(
                    self,
                )@.takes_input_report(input_id, port, range, start, now, final(self)@, step),
                (Pending::Output(request), Report::Output(start)) => old(
                    self,
                )@.takes_output_report(request, start, final(self)@, step),
                _ => old(self)@.takes_plain_report(report, final(self)@, step),
            },
    {
        let mut pending = Pending::Idle;
        std::mem::swap(&mut self.pending, &mut pending);
        match (pending, report) {
            (Pending::Input { input_id, port, range }, Report::Input(start)) => {
                register_request::resume_register_input(self, input_id, port, range, start, now)
            },
            (Pending::Output(request), Report::Output(start)) => {
                register_request::resume_register_output(self, request, start)
            },
            (Pending::Renderer, Report::Renderer(Ok(_))) => Step::Finished(Ok(ResponseHandler::Success)),
            (Pending::Renderer, Report::Renderer(Err(error))) => Step::Finished(Err(error)),
            (Pending::Scene, Report::Scene(Ok(_))) => Step::Finished(Ok(ResponseHandler::Success)),
            (Pending::Scene, Report::Scene(Err(reason))) => Step::Finished(
                Err(UpdateSceneError::InvalidScene(reason).into_api_error()),
            ),
            (Pending::Cleanup, Report::Done) => Step::Finished(Ok(ResponseHandler::Success)),
            _ => Step::Finished(Err(out_of_turn())),
        }
    }
}

} // verus!
