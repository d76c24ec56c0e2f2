//! What holds of the dispatcher across requests and reports.

use crate::api::register_request::first_free_port;
use crate::api::register_request::port_is_free;
use crate::api::register_request::rtp_input;
use crate::api::ApiModel;
use crate::api::Pending;
use crate::api::QueryRequest;
use crate::api::Report;
use crate::api::Request;
use crate::api::Step;
use crate::api::UnregisterRequest;
use crate::api::Work;
use crate::pipeline::decoder::DecoderOptions;
use crate::pipeline::input_made;
use crate::pipeline::laws::after_event;
use crate::pipeline::laws::is_accepted;
use crate::pipeline::laws::PipelineEvent;
use crate::pipeline::PipelineModel;
use crate::queue::model::ListenerId;
use crate::pipeline::InputEntry;
use crate::pipeline::InputStart;
use crate::pipeline::OutputStart;
use crate::types::register_request::RegisterOutputRequest;
use crate::types::register_request::RegisterRequest;
use crate::types::InputId;
use vstd::prelude::*;

verus! {

/// The port allocator: the port that a range yields lies in the range and is
/// free, and every port of the range before it is taken; a range yields no
/// port only if every port in it is taken.
pub proof fn law_first_free_port(inputs: Seq<InputEntry>, from: int, to: int)
    requires
        0 <= from,
        to <= u16::MAX,
    ensures
        match first_free_port(inputs, from, to) {
            Some(port) => {
                &&& from <= port <= to
                &&& port_is_free(inputs, port as int)
                &&& forall|other: int| from <= other < port ==> !port_is_free(inputs, other)
            },
            None => forall|other: int| from <= other <= to ==> !port_is_free(inputs, other),
        },
    decreases to - from + 1,
{
    if from <= to && !port_is_free(inputs, from) {
        law_first_free_port(inputs, from + 1, to);
    }
}

/// A registration request is all or nothing: a request that is answered with an
/// error leaves the dispatcher, and with it both registries, exactly as they
/// were.
pub proof fn law_failed_request_changes_nothing(
    api: ApiModel,
    request: RegisterRequest,
    after: ApiModel,
    step: Step,
)
    requires
        api.handles_register(request, after, step),
        step matches Step::Finished(Err(_)),
    ensures
        after == api,
{
}

/// An input registration is all or nothing: a report that ends the request with
/// an error, or that sends the dispatcher on to the next port, leaves both
/// registries and the queue exactly as they were.
pub proof fn law_failed_input_changes_nothing(
    api: ApiModel,
    input_id: InputId,
    port: u16,
    range: Option<(u16, u16)>,
    start: InputStart,
    now: u64,
    after: ApiModel,
    step: Step,
)
    requires
        api.takes_input_report(input_id, port, range, start, now, after, step),
        !(step matches Step::Finished(Ok(_))),
    ensures
        after.pipeline == api.pipeline,
{
}

/// An output registration is all or nothing: a report that ends the request with
/// an error leaves both registries and the queue exactly as they were.
pub proof fn law_failed_output_changes_nothing(
    api: ApiModel,
    request: RegisterOutputRequest,
    start: OutputStart,
    after: ApiModel,
    step: Step,
)
    requires
        api.takes_output_report(request, start, after, step),
        step matches Step::Finished(Err(_)),
    ensures
        after.pipeline == api.pipeline,
{
}

/// Probing a range moves on: the port that is tried after a port that turned
/// out to be held by another socket is a later port of the range, is free,
/// and skips only ports that are taken.
pub proof fn law_probe_moves_on(
    api: ApiModel,
    input_id: InputId,
    port: u16,
    first: u16,
    last: u16,
    start: InputStart,
    now: u64,
    after: ApiModel,
    step: Step,
)
    requires
        api.takes_input_report(input_id, port, Some((first, last)), start, now, after, step),
        step matches Step::Perform(_),
    ensures
        step matches Step::Perform(Work::StartInput { input_opts, .. }) && {
            &&& port < input_opts.port() <= last
            &&& port_is_free(api.pipeline.inputs, input_opts.port() as int)
            &&& forall|other: int|
                port < other < input_opts.port() ==> !port_is_free(api.pipeline.inputs, other)
            &&& after.pending == (Pending::Input {
                input_id,
                port: input_opts.port(),
                range: Some((first, last)),
            })
            &&& after.pipeline == api.pipeline
        },
{
    law_first_free_port(api.pipeline.inputs, port + 1, last as int);
}

/// The pipeline went from `before` to `after` by standing still or by one
/// event that the facade accepts.
pub open spec fn is_pipeline_step(before: PipelineModel, after: PipelineModel) -> bool {
    after == before || exists|event: PipelineEvent|
        is_accepted(before, event) && after == #[trigger] after_event(before, event)
}

/// Whatever a request does to the pipeline, it does by one event that the
/// facade accepts, or it leaves the pipeline alone. So what
/// [`crate::pipeline::laws::law_pipeline_stays_sound`] shows of the pipeline
/// holds of the pipeline behind the dispatcher, whatever requests come in.
pub proof fn law_requests_are_pipeline_events(
    api: ApiModel,
    request: Request,
    now: u64,
    after: ApiModel,
    step: Step,
)
    requires
        match request {
            Request::Register(register_request) => api.handles_register(
                register_request,
                after,
                step,
            ),
            Request::Unregister(unregister_request) => api.handles_unregister(
                unregister_request,
                after,
                step,
            ),
            Request::UpdateScene(scene_spec) => api.handles_update_scene(scene_spec, after, step),
            Request::Query(query) => api.handles_query(query, after, step),
            Request::Start => api.handles_start(now, after, step),
        },
    ensures
        is_pipeline_step(api.pipeline, after.pipeline),
{
    match request {
        Request::Unregister(UnregisterRequest::InputStream { input_id }) => {
            if api.pipeline.has_input(input_id@) {
                let event = PipelineEvent::UnregisterInput(input_id@);
                assert(is_accepted(api.pipeline, event));
                assert(after.pipeline == after_event(api.pipeline, event));
            }
        },
        Request::Unregister(UnregisterRequest::OutputStream { output_id }) => {
            if api.pipeline.has_output(output_id@) {
                let event = PipelineEvent::UnregisterOutput(output_id@);
                assert(is_accepted(api.pipeline, event));
                assert(after.pipeline == after_event(api.pipeline, event));
            }
        },
        Request::Query(QueryRequest::WaitForNextFrame { input_id }) => {
            let event = PipelineEvent::Subscribe(input_id@, ListenerId(api.next_listener));
            assert(is_accepted(api.pipeline, event));
            assert(after.pipeline == after_event(api.pipeline, event));
        },
        Request::Start => {
            if !api.pipeline.is_started {
                let event = PipelineEvent::Start(now as nat);
                assert(is_accepted(api.pipeline, event));
                assert(after.pipeline == after_event(api.pipeline, event));
            }
        },
        _ => {},
    }
}

/// Whatever a report does to the pipeline, it does by one event that the
/// facade accepts, or it leaves the pipeline alone.
pub proof fn law_reports_are_pipeline_events(
    api: ApiModel,
    report: Report,
    now: u64,
    after: ApiModel,
    step: Step,
)
    requires
        match (api.pending, report) {
            (Pending::Input { input_id, port, range }, Report::Input(start)) =>
                api.takes_input_report(input_id, port, range, start, now, after, step),
            (Pending::Output(request), Report::Output(start)) => api.takes_output_report(
                request,
                start,
                after,
                step,
            ),
            _ => api.takes_plain_report(report, after, step),
        },
    ensures
        is_pipeline_step(api.pipeline, after.pipeline),
{
    match (api.pending, report) {
        (Pending::Input { input_id, port, range }, Report::Input(start)) => {
            if !api.pipeline.has_input(input_id@) && start is Ready {
                let event = PipelineEvent::RegisterInput(
                    input_id@,
                    input_made(rtp_input(input_id, port), DecoderOptions::H264),
                    now as nat,
                );
                assert(is_accepted(api.pipeline, event));
                assert(after.pipeline == after_event(api.pipeline, event));
            }
        },
        (Pending::Output(request), Report::Output(start)) => {
            if after.pipeline != api.pipeline {
                let output = after.pipeline.outputs.last().output;
                let event = PipelineEvent::RegisterOutput(request.output_id@, output);
                assert(is_accepted(api.pipeline, event));
                assert(after.pipeline == after_event(api.pipeline, event));
            }
        },
        _ => {},
    }
}

} // verus!
