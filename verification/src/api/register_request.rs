//! Registration requests: inputs with their port allocation, outputs and
//! renderers.
//!
//! An RTP input is taken to own its port and the two ports next to it, one of
//! which its RTCP companion uses. A port is therefore offered to a new input
//! only if no registered input listens on it or on a neighbour of it.

use crate::api::Api;
use crate::api::ApiModel;
use crate::api::Pending;
use crate::api::Port;
use crate::api::RendererSpec;
use crate::api::Response;
use crate::api::ResponseHandler;
use crate::api::Step;
use crate::api::Work;
use crate::error::ApiError;
use crate::api::PORT_FORMAT_ERROR;
use crate::error::RegisterInputError;
use crate::error::RegisterOutputError;
use crate::pipeline::input::BindFailure;
use crate::pipeline::output::OutputInitError;
use crate::pipeline::output::RtpSenderError;
use crate::error::MALFORMED_REQUEST_ERROR_CODE;
use crate::error::PORT_ALREADY_IN_USE_ERROR_CODE;
use crate::error::PORT_AND_IP_ALREADY_IN_USE_ERROR_CODE;
use crate::error::STATUS_BAD_REQUEST;
use crate::pipeline::decoder::DecoderOptions;
use crate::pipeline::encoder::EncoderOptions;
use crate::pipeline::input::InputOptions;
use crate::pipeline::input::RtpReceiverOptions;
use crate::pipeline::input_made;
use crate::pipeline::is_output_made;
use crate::pipeline::output::OutputOptions;
use crate::pipeline::InputEntry;
use crate::pipeline::InputStart;
use crate::pipeline::OutputStart;
use crate::pipeline::PipelineInput;
use crate::text::decimal;
use crate::text::push_decimal;
use crate::types::register_request::encoder_options_of;
use crate::types::register_request::output_options_of;
use crate::types::register_request::RegisterInputRequest;
use crate::types::register_request::RegisterOutputRequest;
use crate::types::register_request::RegisterRequest;
use crate::types::InputId;
use crate::types::OutputId;
use vstd::prelude::*;

verus! {

/// `port` is the port `held` or one of its two neighbours.
pub open spec fn is_near(held: u16, port: int) -> bool {
    held - 1 <= port <= held + 1
}

/// No registered input listens on `port` or next to it.
pub open spec fn port_is_free(inputs: Seq<InputEntry>, port: int) -> bool {
    forall|i: int|
        0 <= i < inputs.len() ==> !is_near((#[trigger] inputs[i]).input.input.spec_port(), port)
}

/// The first free port from `from` to `to`, both included.
pub open spec fn first_free_port(inputs: Seq<InputEntry>, from: int, to: int) -> Option<u16>
    decreases to - from + 1,
{
    if from > to {
        None
    } else if port_is_free(inputs, from) {
        Some(from as u16)
    } else {
        first_free_port(inputs, from + 1, to)
    }
}

/// The first registered input that listens on `port`, by its position.
pub open spec fn port_holder(inputs: Seq<InputEntry>, port: u16) -> Option<int> {
    if exists|i: int| 0 <= i < inputs.len() && inputs[i].input.input.spec_port() == port {
        Some(
            choose|i: int|
                0 <= i < inputs.len() && inputs[i].input.input.spec_port() == port && forall|j: int|
                    0 <= j < i ==> inputs[j].input.input.spec_port() != port,
        )
    } else {
        None
    }
}

/// The options of an H264 input over RTP on `port`.
pub open spec fn rtp_input(input_id: InputId, port: u16) -> InputOptions {
    InputOptions::Rtp(RtpReceiverOptions { port, input_id })
}

/// What the client is told when every port of a range is taken.
pub open spec fn range_taken_message(id: Seq<char>, start: u16, end: u16) -> Seq<char> {
    "Failed to register input stream \""@ + id + "\". Ports "@ + decimal(start as nat) + ".."@
        + decimal(end as nat) + " are already used or not available."@
}

/// What the client is told when a registered input listens on the port asked
/// for.
pub open spec fn port_held_message(id: Seq<char>, port: u16, holder: Seq<char>) -> Seq<char> {
    "Failed to register input stream \""@ + id + "\". Port "@ + decimal(port as nat)
        + " is already used by node \""@ + holder + "\""@
}

/// What the client is told when the port asked for could not be bound.
pub open spec fn port_busy_message(id: Seq<char>, port: u16) -> Seq<char> {
    "Failed to register input stream \""@ + id + "\". Port "@ + decimal(port as nat)
        + " is already in use or not available."@
}

/// What the client is told when a registered output sends to the address and
/// port asked for.
pub open spec fn address_held_message(
    id: Seq<char>,
    port: u16,
    ip: Seq<char>,
    holder: Seq<char>,
) -> Seq<char> {
    "Failed to register output stream \""@ + id + "\". Combination of port "@ + decimal(
        port as nat,
    ) + " and IP "@ + ip + " is already used by node \""@ + holder + "\""@
}

impl ApiModel {
    /// How an attempt on `port` begins. An identifier that is taken ends the
    /// request; otherwise the input is to be brought up on the port.
    pub open spec fn tries_port(
        self,
        input_id: InputId,
        port: u16,
        range: Option<(u16, u16)>,
        after: ApiModel,
        step: Step,
    ) -> bool {
        if self.pipeline.has_input(input_id@) {
            &&& after == self
            &&& step.refuses_input(RegisterInputError::AlreadyRegistered(input_id))
        } else {
            &&& after == self.waiting_for(Pending::Input { input_id, port, range })
            &&& step == Step::Perform(
                Work::StartInput {
                    input_id,
                    input_opts: rtp_input(input_id, port),
                    decoder_opts: DecoderOptions::H264,
                },
            )
        }
    }

    /// How a request to register an input is handled.
    ///
    /// A port that cannot be read ends the request as malformed. After that
    /// an identifier that is registered already ends it, whatever port is
    /// asked for. An exact port on which a registered input listens ends it
    /// as taken; any other exact port is tried. Of a range the first free
    /// port is tried; a range without a free port ends the request as taken.
    pub open spec fn handles_register_input(
        self,
        request: RegisterInputRequest,
        after: ApiModel,
        step: Step,
    ) -> bool {
        match Port::meaning(request.port) {
            None => {
                &&& after == self
                &&& step.fails_telling(
                    MALFORMED_REQUEST_ERROR_CODE,
                    STATUS_BAD_REQUEST,
                    PORT_FORMAT_ERROR@,
                    None,
                )
            },
            Some(port) => if self.pipeline.has_input(request.input_id@) {
                &&& after == self
                &&& step.refuses_input(RegisterInputError::AlreadyRegistered(request.input_id))
            } else {
                match port {
                    Port::Exact(port) => match port_holder(self.pipeline.inputs, port) {
                        Some(holder) => {
                            &&& after == self
                            &&& step.fails_telling(
                                PORT_ALREADY_IN_USE_ERROR_CODE,
                                STATUS_BAD_REQUEST,
                                port_held_message(
                                    request.input_id@,
                                    port,
                                    self.pipeline.inputs[holder].id,
                                ),
                                None,
                            )
                        },
                        None => self.tries_port(request.input_id, port, None, after, step),
                    },
                    Port::Range((start, end)) => match first_free_port(
                        self.pipeline.inputs,
                        start as int,
                        end as int,
                    ) {
                        Some(port) => self.tries_port(
                            request.input_id,
                            port,
                            Some((start, end)),
                            after,
                            step,
                        ),
                        None => {
                            &&& after == self
                            &&& step.fails_telling(
                                PORT_ALREADY_IN_USE_ERROR_CODE,
                                STATUS_BAD_REQUEST,
                                range_taken_message(request.input_id@, start, end),
                                None,
                            )
                        },
                    },
                }
            },
        }
    }

    /// How a request to register an output is handled.
    ///
    /// An address and port to which a registered output sends end the
    /// request as taken, naming the first such output; then an identifier that is taken and a picture size
    /// with an odd side end it. Otherwise the output is to be brought up.
    pub open spec fn handles_register_output(
        self,
        request: RegisterOutputRequest,
        after: ApiModel,
        step: Step,
    ) -> bool {
        if self.pipeline.address_taken(request.ip@, request.port) {
            &&& after == self
            &&& exists|holder: int|
                #[trigger] self.pipeline.is_first_at_address(holder, request.ip@, request.port)
                    && step.fails_telling(
                    PORT_AND_IP_ALREADY_IN_USE_ERROR_CODE,
                    STATUS_BAD_REQUEST,
                    address_held_message(
                        request.output_id@,
                        request.port,
                        request.ip@,
                        self.pipeline.outputs[holder].id,
                    ),
                    None,
                )
        } else if self.pipeline.has_output(request.output_id@) {
            &&& after == self
            &&& step.refuses_output(RegisterOutputError::AlreadyRegistered(request.output_id))
        } else if !request.resolution.is_even() {
            &&& after == self
            &&& step.refuses_output(RegisterOutputError::UnsupportedResolution(request.output_id))
        } else {
            &&& after == self.waiting_for(Pending::Output(request))
            &&& step == Step::Perform(
                Work::StartOutput {
                    output_id: request.output_id,
                    encoder_opts: encoder_options_of(request),
                    output_opts: output_options_of(request),
                },
            )
        }
    }

    /// How a registration request is handled: inputs and outputs as the
    /// relations of those names say, and a renderer is for the renderer
    /// engine to register.
    pub open spec fn handles_register(
        self,
        request: RegisterRequest,
        after: ApiModel,
        step: Step,
    ) -> bool {
        match request {
            RegisterRequest::InputStream(input_stream) => self.handles_register_input(
                input_stream,
                after,
                step,
            ),
            RegisterRequest::OutputStream(output_stream) => self.handles_register_output(
                output_stream,
                after,
                step,
            ),
            RegisterRequest::Shader(spec) => {
                &&& after == self.waiting_for(Pending::Renderer)
                &&& step == Step::Perform(Work::RegisterRenderer(RendererSpec::Shader(spec)))
            },
            RegisterRequest::WebRenderer(spec) => {
                &&& after == self.waiting_for(Pending::Renderer)
                &&& step == Step::Perform(Work::RegisterRenderer(RendererSpec::WebRenderer(spec)))
            },
            RegisterRequest::Image(spec) => {
                &&& after == self.waiting_for(Pending::Renderer)
                &&& step == Step::Perform(Work::RegisterRenderer(RendererSpec::Image(spec)))
            },
        }
    }

    /// How the report on an input that was being brought up on `port` is
    /// taken.
    ///
    /// An input that runs is registered at `now` and the client is told its
    /// port. A port that turned out to be held by another socket ends a
    /// request for that exact port as taken; in a range the next free port
    /// after it is tried, and the request ends as taken when none is left.
    /// Any other failure ends the request.
    pub open spec fn takes_input_report(
        self,
        input_id: InputId,
        port: u16,
        range: Option<(u16, u16)>,
        start: InputStart,
        now: u64,
        after: ApiModel,
        step: Step,
    ) -> bool {
        let idle = self.waiting_for(Pending::Idle);
        if self.pipeline.has_input(input_id@) {
            &&& after == idle
            &&& step.refuses_input(RegisterInputError::AlreadyRegistered(input_id))
        } else {
            match start {
                InputStart::Ready => {
                    &&& after == idle.with_pipeline(
                        self.pipeline.with_input(
                            input_id@,
                            input_made(rtp_input(input_id, port), DecoderOptions::H264),
                            now as nat,
                        ),
                    )
                    &&& step == Step::Finished(
                        Ok(ResponseHandler::Response(Response::RegisteredPort(port))),
                    )
                },
                InputStart::DecoderError(error) => {
                    &&& after == idle
                    &&& step.refuses_input(RegisterInputError::DecoderError(input_id, error))
                },
                InputStart::InputError(error) => if !error.is_addr_in_use() {
                    &&& after == idle
                    &&& step.refuses_input(RegisterInputError::InputError(input_id, error))
                } else {
                    match range {
                        None => {
                            &&& after == idle
                            &&& step.fails_telling(
                                PORT_ALREADY_IN_USE_ERROR_CODE,
                                STATUS_BAD_REQUEST,
                                port_busy_message(input_id@, port),
                                None,
                            )
                        },
                        Some((first, last)) => match first_free_port(
                            self.pipeline.inputs,
                            port + 1,
                            last as int,
                        ) {
                            Some(next) => idle.tries_port(input_id, next, range, after, step),
                            None => {
                                &&& after == idle
                                &&& step.fails_telling(
                                    PORT_ALREADY_IN_USE_ERROR_CODE,
                                    STATUS_BAD_REQUEST,
                                    range_taken_message(input_id@, first, last),
                                    None,
                                )
                            },
                        },
                    }
                },
            }
        }
    }

    /// How the report on an output that was being brought up is taken: the
    /// pipeline decides as [`crate::pipeline::Pipeline::register_output`]
    /// says, and the client is told the outcome.
    pub open spec fn takes_output_report(
        self,
        request: RegisterOutputRequest,
        start: OutputStart,
        after: ApiModel,
        step: Step,
    ) -> bool {
        let idle = self.waiting_for(Pending::Idle);
        if self.pipeline.has_output(request.output_id@) {
            &&& after == idle
            &&& step.refuses_output(RegisterOutputError::AlreadyRegistered(request.output_id))
        } else if !request.resolution.is_even() {
            &&& after == idle
            &&& step.refuses_output(RegisterOutputError::UnsupportedResolution(request.output_id))
        } else {
            match start {
                OutputStart::EncoderError(error) => {
                    &&& after == idle
                    &&& step.refuses_output(
                        RegisterOutputError::EncoderError(request.output_id, error),
                    )
                },
                OutputStart::OutputError(error) => {
                    &&& after == idle
                    &&& step.refuses_output(
                        RegisterOutputError::OutputError(request.output_id, error),
                    )
                },
                OutputStart::Ready => if self.pipeline.address_taken(request.ip@, request.port) {
                    &&& after == idle
                    &&& step.refuses_output(
                        RegisterOutputError::OutputError(
                            request.output_id,
                            OutputInitError::Rtp(RtpSenderError::SocketBind(BindFailure::AddrInUse)),
                        ),
                    )
                } else {
                    &&& step.succeeds()
                    &&& after.pipeline.outputs.len() == self.pipeline.outputs.len() + 1
                    &&& after == idle.with_pipeline(
                        self.pipeline.with_output(
                            request.output_id@,
                            after.pipeline.outputs.last().output,
                        ),
                    )
                    &&& is_output_made(
                        after.pipeline.outputs.last().output,
                        encoder_options_of(request),
                        output_options_of(request),
                    )
                },
            }
        }
    }
}

/// `listing` is a copy of `inputs`.
pub open spec fn is_listing(listing: Seq<(InputId, PipelineInput)>, inputs: Seq<InputEntry>) -> bool {
    &&& listing.len() == inputs.len()
    &&& forall|i: int|
        0 <= i < listing.len() ==> (#[trigger] listing[i]).0@ == inputs[i].id && listing[i].1
            == inputs[i].input
}

/// Decides [`port_is_free`].
fn is_port_free(
    listing: &Vec<(InputId, PipelineInput)>,
    port: u16,
    Ghost(inputs): Ghost<Seq<InputEntry>>,
) -> (free: bool)
    requires
        is_listing(listing@, inputs),
    ensures
        free == port_is_free(inputs, port as int),
{
    let mut at: usize = 0;
    while at < listing.len()
        invariant
            at <= listing.len(),
            is_listing(listing@, inputs),
            forall|i: int|
                0 <= i < at ==> !is_near(
                    (#[trigger] inputs[i]).input.input.spec_port(),
                    port as int,
                ),
        decreases listing.len() - at,
    {
        let held: u32 = listing[at].1.input.port() as u32;
        assert(held == inputs[at as int].input.input.spec_port());
        if held <= port as u32 + 1 && port as u32 <= held + 1 {
            return false;
        }
        at += 1;
    }
    true
}

/// Finds [`first_free_port`].
fn find_free_port(
    listing: &Vec<(InputId, PipelineInput)>,
    from: u32,
    to: u16,
    Ghost(inputs): Ghost<Seq<InputEntry>>,
) -> (found: Option<u16>)
    requires
        is_listing(listing@, inputs),
        from <= 0x1_0000,
    ensures
        found == first_free_port(inputs, from as int, to as int),
{
    let mut port: u32 = from;
    while port <= to as u32
        invariant
            is_listing(listing@, inputs),
            from <= port <= 0x1_0000,
            first_free_port(inputs, from as int, to as int) == first_free_port(
                inputs,
                port as int,
                to as int,
            ),
        decreases to + 1 - port,
    {
        if is_port_free(listing, port as u16, Ghost(inputs)) {
            return Some(port as u16);
        }
        port += 1;
    }
    None
}

/// Finds [`port_holder`], and hands out the holder's identifier.
fn find_port_holder(
    listing: &Vec<(InputId, PipelineInput)>,
    port: u16,
    Ghost(inputs): Ghost<Seq<InputEntry>>,
) -> (holder: Option<InputId>)
    requires
        is_listing(listing@, inputs),
    ensures
        match holder {
            Some(id) => port_holder(inputs, port) matches Some(at) && inputs[at].id == id@,
            None => port_holder(inputs, port) is None,
        },
{
    let mut at: usize = 0;
    while at < listing.len()
        invariant
            at <= listing.len(),
            is_listing(listing@, inputs),
            forall|i: int| 0 <= i < at ==> inputs[i].input.input.spec_port() != port,
        decreases listing.len() - at,
    {
        assert(listing@[at as int].1 == inputs[at as int].input);
        if listing[at].1.input.port() == port {
            proof {
                let first = choose|i: int|
                    0 <= i < inputs.len() && inputs[i].input.input.spec_port() == port
                        && forall|j: int| 0 <= j < i ==> inputs[j].input.input.spec_port() != port;
                if first < at {
                    assert(inputs[first].input.input.spec_port() != port);
                } else if at < first {
                    assert(inputs[at as int].input.input.spec_port() != port);
                }
            }
            return Some(listing[at].0.clone());
        }
        at += 1;
    }
    None
}

fn range_taken(id: &InputId, start: u16, end: u16) -> (error: ApiError)
    ensures
        error.is(PORT_ALREADY_IN_USE_ERROR_CODE, STATUS_BAD_REQUEST),
        error.tells(range_taken_message(id@, start, end), None),
{
    let mut message = String::from_str("Failed to register input stream \"");
    message.append(id.0.as_str());
    message.append("\". Ports ");
    push_decimal(&mut message, start as u64);
    message.append("..");
    push_decimal(&mut message, end as u64);
    message.append(" are already used or not available.");
    ApiError::new(PORT_ALREADY_IN_USE_ERROR_CODE, message, STATUS_BAD_REQUEST)
}

fn port_held(id: &InputId, port: u16, holder: &InputId) -> (error: ApiError)
    ensures
        error.is(PORT_ALREADY_IN_USE_ERROR_CODE, STATUS_BAD_REQUEST),
        error.tells(port_held_message(id@, port, holder@), None),
{
    let mut message = String::from_str("Failed to register input stream \"");
    message.append(id.0.as_str());
    message.append("\". Port ");
    push_decimal(&mut message, port as u64);
    message.append(" is already used by node \"");
    message.append(holder.0.as_str());
    message.append("\"");
    ApiError::new(PORT_ALREADY_IN_USE_ERROR_CODE, message, STATUS_BAD_REQUEST)
}

fn port_busy(id: &InputId, port: u16) -> (error: ApiError)
    ensures
        error.is(PORT_ALREADY_IN_USE_ERROR_CODE, STATUS_BAD_REQUEST),
        error.tells(port_busy_message(id@, port), None),
{
    let mut message = String::from_str("Failed to register input stream \"");
    message.append(id.0.as_str());
    message.append("\". Port ");
    push_decimal(&mut message, port as u64);
    message.append(" is already in use or not available.");
    ApiError::new(PORT_ALREADY_IN_USE_ERROR_CODE, message, STATUS_BAD_REQUEST)
}

fn address_held(id: &OutputId, port: u16, ip: &String, holder: &OutputId) -> (error: ApiError)
    ensures
        error.is(PORT_AND_IP_ALREADY_IN_USE_ERROR_CODE, STATUS_BAD_REQUEST),
        error.tells(address_held_message(id@, port, ip@, holder@), None),
{
    let mut message = String::from_str("Failed to register output stream \"");
    message.append(id.0.as_str());
    message.append("\". Combination of port ");
    push_decimal(&mut message, port as u64);
    message.append(" and IP ");
    message.append(ip.as_str());
    message.append(" is already used by node \"");
    message.append(holder.0.as_str());
    message.append("\"");
    ApiError::new(PORT_AND_IP_ALREADY_IN_USE_ERROR_CODE, message, STATUS_BAD_REQUEST)
}

/// Tells a failure that means "this port is held by another socket" from
/// every other outcome: for such a failure the error to answer with, for
/// anything else nothing.
pub fn check_port_not_available(
    register_input_error: &Result<(), RegisterInputError>,
    port: u16,
) -> (available: Result<(), ApiError>)
    ensures
        match *register_input_error {
            Err(RegisterInputError::InputError(id, error)) if error.is_addr_in_use() => {
                &&& available matches Err(told)
                &&& told.is(PORT_ALREADY_IN_USE_ERROR_CODE, STATUS_BAD_REQUEST)
                &&& told.tells(port_busy_message(id@, port), None)
            },
            _ => available is Ok,
        },
{
    match register_input_error {
        Err(RegisterInputError::InputError(id, error)) => {
            if error.check_addr_in_use() {
                Err(port_busy(id, port))
            } else {
                Ok(())
            }
        },
        _ => Ok(()),
    }
}

/// Begins the attempt to register `input_id` on `port`.
fn try_port(api: &mut Api, input_id: InputId, port: u16, range: Option<(u16, u16)>) -> (step: Step)
    requires
        old(api)@.is_sound(),
    ensures
        final(api)@.is_sound(),
        old(api)@.tries_port(input_id, port, range, final(api)@, step),
{
    match api.pipeline.check_input(&input_id) {
        Err(error) => Step::Finished(Err(error.into_api_error())),
        Ok(_) => {
            let work = Work::StartInput {
                input_id: input_id.clone(),
                input_opts: InputOptions::Rtp(
                    RtpReceiverOptions { port, input_id: input_id.clone() },
                ),
                decoder_opts: DecoderOptions::H264,
            };
            api.pending = Pending::Input { input_id, port, range };
            Step::Perform(work)
        },
    }
}

fn register_input(api: &mut Api, request: RegisterInputRequest) -> (step: Step)
    requires
        old(api)@.is_sound(),
        old(api)@.pending is Idle,
    ensures
        final(api)@.is_sound(),
        old(api)@.handles_register_input(request, final(api)@, step),
{
    let RegisterInputRequest { input_id: id, port } = request;
    let port: Port = match Port::try_from(port) {
        Ok(port) => port,
        Err(error) => {
            return Step::Finished(Err(error));
        },
    };
    match api.pipeline.check_input(&id) {
        Err(error) => {
            return Step::Finished(Err(error.into_api_error()));
        },
        Ok(_) => {},
    }
    let listing = api.pipeline.inputs();
    let ghost inputs = api@.pipeline.inputs;
    match port {
        Port::Range((start, end)) => {
            match find_free_port(&listing, start as u32, end, Ghost(inputs)) {
                Some(port) => try_port(api, id, port, Some((start, end))),
                None => Step::Finished(Err(range_taken(&id, start, end))),
            }
        },
        Port::Exact(port) => {
            match find_port_holder(&listing, port, Ghost(inputs)) {
                Some(node_id) => Step::Finished(Err(port_held(&id, port, &node_id))),
                None => try_port(api, id, port, None),
            }
        },
    }
}

/// The error to answer with where a registered output sends to the address
/// and port that `request` asks for.
fn taken_address(api: &Api, request: &RegisterOutputRequest) -> (taken: Option<ApiError>)
    ensures
        match taken {
            Some(error) => exists|holder: int|
                {
                    &&& #[trigger] api@.pipeline.is_first_at_address(
                        holder,
                        request.ip@,
                        request.port,
                    )
                    &&& error.is(PORT_AND_IP_ALREADY_IN_USE_ERROR_CODE, STATUS_BAD_REQUEST)
                    &&& error.tells(
                        address_held_message(
                            request.output_id@,
                            request.port,
                            request.ip@,
                            api@.pipeline.outputs[holder].id,
                        ),
                        None,
                    )
                },
            None => !api@.pipeline.address_taken(request.ip@, request.port),
        },
{
    match api.pipeline.find_address(&request.ip, request.port) {
        Some(node_id) => Some(
            address_held(&request.output_id, request.port, &request.ip, &node_id),
        ),
        None => None,
    }
}

fn register_output(api: &mut Api, request: RegisterOutputRequest) -> (step: Step)
    requires
        old(api)@.is_sound(),
        old(api)@.pending is Idle,
    ensures
        final(api)@.is_sound(),
        old(api)@.handles_register_output(request, final(api)@, step),
{
    match taken_address(api, &request) {
        Some(error) => {
            return Step::Finished(Err(error));
        },
        None => {},
    }
    let encoder_opts = EncoderOptions::from(request.clone());
    match api.pipeline.check_output(&request.output_id, &encoder_opts) {
        Err(error) => Step::Finished(Err(error.into_api_error())),
        Ok(_) => {
            let work = Work::StartOutput {
                output_id: request.output_id.clone(),
                encoder_opts,
                output_opts: OutputOptions::from(request.clone()),
            };
            api.pending = Pending::Output(request);
            Step::Perform(work)
        },
    }
}

/// Handles a registration request; see [`ApiModel::handles_register`].
pub fn handle_register_request(api: &mut Api, request: RegisterRequest) -> (step: Step)
    requires
        old(api)@.is_sound(),
        old(api)@.pending is Idle,
    ensures
        final(api)@.is_sound(),
        old(api)@.handles_register(request, final(api)@, step),
{
    match request {
        RegisterRequest::InputStream(input_stream) => register_input(api, input_stream),
        RegisterRequest::OutputStream(output_stream) => register_output(api, output_stream),
        RegisterRequest::Shader(spec) => {
            api.pending = Pending::Renderer;
            Step::Perform(Work::RegisterRenderer(RendererSpec::Shader(spec)))
        },
        RegisterRequest::WebRenderer(spec) => {
            api.pending = Pending::Renderer;
            Step::Perform(Work::RegisterRenderer(RendererSpec::WebRenderer(spec)))
        },
        RegisterRequest::Image(spec) => {
            api.pending = Pending::Renderer;
            Step::Perform(Work::RegisterRenderer(RendererSpec::Image(spec)))
        },
    }
}

/// Takes the report on an input that was being brought up on `port`; the
/// dispatcher has been set idle by the caller.
pub(crate) fn resume_register_input(
    api: &mut Api,
    input_id: InputId,
    port: u16,
    range: Option<(u16, u16)>,
    start: InputStart,
    now: u64,
) -> (step: Step)
    requires
        old(api)@.is_sound(),
        old(api)@.pending is Idle,
    ensures
        final(api)@.is_sound(),
        old(api)@.waiting_for(Pending::Input { input_id, port, range }).takes_input_report(
            input_id,
            port,
            range,
            start,
            now,
            final(api)@,
            step,
        ),
{
    let result = api.pipeline.register_input(
        input_id.clone(),
        InputOptions::Rtp(RtpReceiverOptions { port, input_id: input_id.clone() }),
        DecoderOptions::H264,
        start,
        now,
    );
    match check_port_not_available(&result, port) {
        Err(busy) => {
            match range {
                None => Step::Finished(Err(busy)),
                Some((first, last)) => {
                    let listing = api.pipeline.inputs();
                    let ghost inputs = api@.pipeline.inputs;
                    match find_free_port(&listing, port as u32 + 1, last, Ghost(inputs)) {
                        Some(next) => try_port(api, input_id, next, range),
                        None => Step::Finished(Err(range_taken(&input_id, first, last))),
                    }
                },
            }
        },
        Ok(_) => match result {
            Ok(_) => Step::Finished(Ok(ResponseHandler::Response(Response::RegisteredPort(port)))),
            Err(error) => Step::Finished(Err(error.into_api_error())),
        },
    }
}

/// Takes the report on an output that was being brought up; the dispatcher
/// has been set idle by the caller.
pub(crate) fn resume_register_output(
    api: &mut Api,
    request: RegisterOutputRequest,
    start: OutputStart,
) -> (step: Step)
    requires
        old(api)@.is_sound(),
        old(api)@.pending is Idle,
    ensures
        final(api)@.is_sound(),
        old(api)@.waiting_for(Pending::Output(request)).takes_output_report(
            request,
            start,
            final(api)@,
            step,
        ),
{
    let result = api.pipeline.register_output(
        request.output_id.clone(),
        EncoderOptions::from(request.clone()),
        OutputOptions::from(request),
        start,
    );
    match result {
        Ok(_) => Step::Finished(Ok(ResponseHandler::Success)),
        Err(error) => Step::Finished(Err(error.into_api_error())),
    }
}

} // verus!
