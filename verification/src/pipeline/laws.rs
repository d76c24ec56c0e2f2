//! What holds of the registries across the operations of the facade.

use crate::pipeline::InputEntry;
use crate::pipeline::Options;
use crate::pipeline::OutputEntry;
use crate::pipeline::PipelineInput;
use crate::pipeline::PipelineModel;
use crate::pipeline::PipelineOutput;
use crate::queue::clock::MAX_TICK;
use crate::queue::frame::RawFrame;
use crate::queue::laws::batches_emitted;
use crate::queue::laws::law_batches_follow_the_ticks;
use crate::queue::laws::law_ticks_are_consecutive;
use crate::queue::laws::ticks_served;
use crate::queue::laws::QueueEvent;
use crate::queue::model::ListenerId;
use vstd::prelude::*;

verus! {

/// In a sound pipeline the queue knows an input exactly when the registry
/// does.
pub proof fn lemma_queue_lacks_input(pipeline: PipelineModel, id: Seq<char>)
    requires
        pipeline.is_sound(),
    ensures
        pipeline.queue.has_input(id) == pipeline.has_input(id),
{
    if pipeline.has_input(id) {
        let at = choose|i: int| 0 <= i < pipeline.inputs.len() && pipeline.inputs[i].id == id;
        assert(pipeline.queue.inputs[at].id == id);
    }
    if pipeline.queue.has_input(id) {
        let at = choose|i: int|
            0 <= i < pipeline.queue.inputs.len() && pipeline.queue.inputs[i].id == id;
        assert(pipeline.inputs[at].id == id);
    }
}

/// Filtering one identifier out of inputs with distinct identifiers removes
/// the one input that has it.
pub proof fn lemma_filter_out_input(inputs: Seq<InputEntry>, id: Seq<char>)
    requires
        forall|i: int, j: int| 0 <= i < j < inputs.len() ==> inputs[i].id != inputs[j].id,
    ensures
        forall|at: int|
            0 <= at < inputs.len() && inputs[at].id == id ==> inputs.filter(
                |entry: InputEntry| entry.id != id,
            ) == inputs.remove(at),
    decreases inputs.len(),
{
    let test = |entry: InputEntry| entry.id != id;
    reveal(Seq::filter);
    if inputs.len() > 0 {
        let head = inputs.drop_last();
        assert forall|i: int| 0 <= i < head.len() implies head[i] == inputs[i] by {}
        if inputs.last().id == id {
            assert forall|i: int| 0 <= i < head.len() implies test(head[i]) by {
                assert(inputs[i].id != inputs[inputs.len() - 1].id);
            }
            lemma_filter_keeps_all(head, test);
            assert(inputs.remove(inputs.len() - 1) =~= head);
            assert forall|at: int| 0 <= at < inputs.len() && inputs[at].id == id implies at
                == inputs.len() - 1 by {
                if at < inputs.len() - 1 {
                    assert(inputs[at].id != inputs[inputs.len() - 1].id);
                }
            }
        } else {
            lemma_filter_out_input(head, id);
            assert forall|at: int| 0 <= at < inputs.len() && inputs[at].id == id implies inputs.filter(
                test,
            ) == inputs.remove(at) by {
                assert(head[at].id == id);
                assert(head.filter(test) == head.remove(at));
                assert(head.remove(at).push(inputs.last()) =~= inputs.remove(at));
            }
        }
    }
}

/// Filtering one identifier out of outputs with distinct identifiers removes
/// the one output that has it.
pub proof fn lemma_filter_out_output(outputs: Seq<OutputEntry>, id: Seq<char>)
    requires
        forall|i: int, j: int| 0 <= i < j < outputs.len() ==> outputs[i].id != outputs[j].id,
    ensures
        forall|at: int|
            0 <= at < outputs.len() && outputs[at].id == id ==> outputs.filter(
                |entry: OutputEntry| entry.id != id,
            ) == outputs.remove(at),
    decreases outputs.len(),
{
    let test = |entry: OutputEntry| entry.id != id;
    reveal(Seq::filter);
    if outputs.len() > 0 {
        let head = outputs.drop_last();
        assert forall|i: int| 0 <= i < head.len() implies head[i] == outputs[i] by {}
        if outputs.last().id == id {
            assert forall|i: int| 0 <= i < head.len() implies test(head[i]) by {
                assert(outputs[i].id != outputs[outputs.len() - 1].id);
            }
            lemma_filter_keeps_all(head, test);
            assert(outputs.remove(outputs.len() - 1) =~= head);
            assert forall|at: int| 0 <= at < outputs.len() && outputs[at].id == id implies at
                == outputs.len() - 1 by {
                if at < outputs.len() - 1 {
                    assert(outputs[at].id != outputs[outputs.len() - 1].id);
                }
            }
        } else {
            lemma_filter_out_output(head, id);
            assert forall|at: int|
                0 <= at < outputs.len() && outputs[at].id == id implies outputs.filter(test)
                == outputs.remove(at) by {
                assert(head[at].id == id);
                assert(head.filter(test) == head.remove(at));
                assert(head.remove(at).push(outputs.last()) =~= outputs.remove(at));
            }
        }
    }
}

/// In a sound pipeline no two inputs share an
/// identifier, no two outputs share an identifier, and no two outputs send to
/// the same address and port.
pub proof fn law_registries_are_unique(pipeline: PipelineModel, i: int, j: int)
    requires
        pipeline.is_sound(),
        i != j,
    ensures
        0 <= i < pipeline.inputs.len() && 0 <= j < pipeline.inputs.len() ==> pipeline.inputs[i].id
            != pipeline.inputs[j].id,
        0 <= i < pipeline.outputs.len() && 0 <= j < pipeline.outputs.len() ==> {
            &&& pipeline.outputs[i].id != pipeline.outputs[j].id
            &&& !(pipeline.outputs[i].output.output.ip() == pipeline.outputs[j].output.output.ip()
                && pipeline.outputs[i].output.output.spec_port()
                == pipeline.outputs[j].output.output.spec_port())
        },
{
    if i < j {
        if 0 <= i && j < pipeline.inputs.len() {
            assert(pipeline.inputs[i].id != pipeline.inputs[j].id);
        }
        if 0 <= i && j < pipeline.outputs.len() {
            assert(pipeline.outputs[i].id != pipeline.outputs[j].id);
        }
    } else {
        if 0 <= j && i < pipeline.inputs.len() {
            assert(pipeline.inputs[j].id != pipeline.inputs[i].id);
        }
        if 0 <= j && i < pipeline.outputs.len() {
            assert(pipeline.outputs[j].id != pipeline.outputs[i].id);
        }
    }
}

/// Every output of a sound pipeline encodes pictures whose
/// width and height are both even.
pub proof fn law_outputs_are_even(pipeline: PipelineModel, i: int)
    requires
        pipeline.is_sound(),
        0 <= i < pipeline.outputs.len(),
    ensures
        pipeline.outputs[i].output.encoder.resolution.width % 2 == 0,
        pipeline.outputs[i].output.encoder.resolution.height % 2 == 0,
{
    assert(pipeline.outputs[i].output.encoder.resolution.is_even());
}

/// One thing that can happen to a pipeline. Each event stands for a call that
/// the facade accepts; a call that it refuses leaves the pipeline as it was
/// and is no event.
pub enum PipelineEvent {
    /// An input that runs is registered at a time.
    RegisterInput(Seq<char>, PipelineInput, nat),
    /// An input is unregistered.
    UnregisterInput(Seq<char>),
    /// An output that runs is registered.
    RegisterOutput(Seq<char>, PipelineOutput),
    /// An output is unregistered.
    UnregisterOutput(Seq<char>),
    /// The pipeline is started at a time.
    Start(nat),
    /// A listener subscribes to an input.
    Subscribe(Seq<char>, ListenerId),
    /// A frame is handed to the queue at a time.
    Enqueue(RawFrame, nat),
    /// The queue looks at the clock at a time.
    Poll(nat),
}

/// The facade accepts `event`.
pub open spec fn is_accepted(pipeline: PipelineModel, event: PipelineEvent) -> bool {
    match event {
        PipelineEvent::RegisterInput(id, _, _) => !pipeline.has_input(id),
        PipelineEvent::UnregisterInput(id) => pipeline.has_input(id),
        PipelineEvent::RegisterOutput(id, output) => {
            &&& !pipeline.has_output(id)
            &&& output.encoder.resolution.is_even()
            &&& !pipeline.address_taken(output.output.ip(), output.output.spec_port())
        },
        PipelineEvent::UnregisterOutput(id) => pipeline.has_output(id),
        PipelineEvent::Start(_) => !pipeline.is_started,
        PipelineEvent::Subscribe(_, _) => true,
        PipelineEvent::Enqueue(frame, _) => frame.is_valid() && pipeline.has_input(
            frame.input_id@,
        ),
        PipelineEvent::Poll(_) => true,
    }
}

/// The pipeline after `event`: what the operation of that name makes of it
/// where the facade accepts the call, and the pipeline itself where it
/// refuses.
pub open spec fn after_event(pipeline: PipelineModel, event: PipelineEvent) -> PipelineModel {
    if !is_accepted(pipeline, event) {
        pipeline
    } else {
        match event {
            PipelineEvent::RegisterInput(id, input, now) => pipeline.with_input(id, input, now),
            PipelineEvent::UnregisterInput(id) => pipeline.without_input(id),
            PipelineEvent::RegisterOutput(id, output) => pipeline.with_output(id, output),
            PipelineEvent::UnregisterOutput(id) => pipeline.without_output(id),
            PipelineEvent::Start(now) => pipeline.started(now),
            PipelineEvent::Subscribe(id, listener) => PipelineModel {
                queue: pipeline.queue.subscribe(id, listener),
                ..pipeline
            },
            PipelineEvent::Enqueue(frame, now) => PipelineModel {
                queue: pipeline.queue.enqueue(frame, now),
                ..pipeline
            },
            PipelineEvent::Poll(now) => PipelineModel {
                queue: pipeline.queue.poll(now),
                ..pipeline
            },
        }
    }
}

/// The pipeline after `events`, one after the other.
pub open spec fn after_events(pipeline: PipelineModel, events: Seq<PipelineEvent>) -> PipelineModel
    decreases events.len(),
{
    if events.len() == 0 {
        pipeline
    } else {
        after_event(after_events(pipeline, events.drop_last()), events.last())
    }
}

/// No event makes a sound pipeline unsound.
pub proof fn law_event_keeps_sound(pipeline: PipelineModel, event: PipelineEvent)
    requires
        pipeline.is_sound(),
    ensures
        after_event(pipeline, event).is_sound(),
{
    let after = after_event(pipeline, event);
    if is_accepted(pipeline, event) {
        match event {
            PipelineEvent::RegisterInput(id, input, now) => {
                lemma_queue_lacks_input(pipeline, id);
            },
            PipelineEvent::UnregisterInput(id) => {
                let at = choose|i: int| 0 <= i < pipeline.inputs.len() && pipeline.inputs[i].id == id;
                lemma_filter_out_input(pipeline.inputs, id);
                crate::queue::laws::lemma_filter_out_one(pipeline.queue.inputs, id);
                assert(pipeline.queue.inputs[at].id == id);
                assert(after.inputs == pipeline.inputs.remove(at));
                assert(after.queue.inputs == pipeline.queue.inputs.remove(at));
            },
            PipelineEvent::RegisterOutput(id, output) => {
                assert forall|i: int, j: int| 0 <= i < j < after.outputs.len() implies !((
                #[trigger] after.outputs[i]).output.output.ip() == (
                #[trigger] after.outputs[j]).output.output.ip()
                    && after.outputs[i].output.output.spec_port()
                    == after.outputs[j].output.output.spec_port()) by {
                    if j == pipeline.outputs.len() {
                        assert(after.outputs[i] == pipeline.outputs[i]);
                    }
                }
            },
            PipelineEvent::UnregisterOutput(id) => {
                let at = choose|i: int|
                    0 <= i < pipeline.outputs.len() && pipeline.outputs[i].id == id;
                lemma_filter_out_output(pipeline.outputs, id);
                assert(after.outputs == pipeline.outputs.remove(at));
                assert forall|i: int, j: int| 0 <= i < j < after.outputs.len() implies !((
                #[trigger] after.outputs[i]).output.output.ip() == (
                #[trigger] after.outputs[j]).output.output.ip()
                    && after.outputs[i].output.output.spec_port()
                    == after.outputs[j].output.output.spec_port()) by {
                    let a = if i < at {
                        i
                    } else {
                        i + 1
                    };
                    let b = if j < at {
                        j
                    } else {
                        j + 1
                    };
                    assert(after.outputs[i] == pipeline.outputs[a]);
                    assert(after.outputs[j] == pipeline.outputs[b]);
                }
                assert forall|i: int| 0 <= i < after.outputs.len() implies (
                #[trigger] after.outputs[i]).output.encoder.resolution.is_even() by {
                    let a = if i < at {
                        i
                    } else {
                        i + 1
                    };
                    assert(after.outputs[i] == pipeline.outputs[a]);
                }
            },
            PipelineEvent::Start(now) => {},
            PipelineEvent::Subscribe(id, listener) => {},
            PipelineEvent::Enqueue(frame, now) => {
                crate::queue::laws::lemma_enqueue_keeps_sound(pipeline.queue, frame, now);
            },
            PipelineEvent::Poll(now) => {
                if pipeline.queue.is_ready(now) {
                    crate::queue::laws::lemma_advance_keeps_sound(pipeline.queue);
                }
            },
        }
    }
}

/// Soundness at all times: whatever happens to a pipeline that
/// starts out empty, it stays sound. So at no time do two registered inputs
/// share an identifier, or two outputs an identifier or an address and port
/// (see [`law_registries_are_unique`]), and every registered output has even
/// sides (see [`law_outputs_are_even`]).
pub proof fn law_pipeline_stays_sound(options: Options, events: Seq<PipelineEvent>)
    requires
        options.framerate.is_valid(),
    ensures
        after_events(PipelineModel::empty(options), events).is_sound(),
    decreases events.len(),
{
    if events.len() > 0 {
        law_pipeline_stays_sound(options, events.drop_last());
        law_event_keeps_sound(
            after_events(PipelineModel::empty(options), events.drop_last()),
            events.last(),
        );
    }
}

/// All or nothing: a call that the facade refuses leaves the pipeline exactly as
/// it was.
pub proof fn law_refusal_changes_nothing(pipeline: PipelineModel, event: PipelineEvent)
    requires
        !is_accepted(pipeline, event),
    ensures
        after_event(pipeline, event) == pipeline,
{
}

/// Starting counts the ticks from zero: start a sound pipeline that has not
/// been started, and let anything happen to its queue afterwards. Then the
/// ticks that the queue serves are 0, 1, 2 and so on, without a gap and
/// without a repetition, and every batch that reaches the render driver
/// carries the index `k` of its tick and the presentation time
/// `k * den / num` seconds, the indices increasing from batch to batch.
pub proof fn law_start_counts_ticks_from_zero(
    pipeline: PipelineModel,
    now: nat,
    events: Seq<QueueEvent>,
)
    requires
        pipeline.is_sound(),
        !pipeline.is_started,
    ensures
        pipeline.started(now).queue.next_tick == 0,
        forall|k: int|
            0 <= k < ticks_served(pipeline.started(now).queue, events).len()
                ==> #[trigger] ticks_served(pipeline.started(now).queue, events)[k] == k,
        forall|i: int|
            0 <= i < batches_emitted(pipeline.started(now).queue, events).len() ==> {
                let batch = #[trigger] batches_emitted(pipeline.started(now).queue, events)[i];
                &&& i <= batch.tick < ticks_served(pipeline.started(now).queue, events).len()
                &&& batch.pts.num == batch.tick * pipeline.queue.framerate.den
                &&& batch.pts.den == pipeline.queue.framerate.num
            },
        forall|i: int, j: int|
            0 <= i < j < batches_emitted(pipeline.started(now).queue, events).len()
                ==> batches_emitted(pipeline.started(now).queue, events)[i].tick
                < batches_emitted(pipeline.started(now).queue, events)[j].tick,
{
    let queue = pipeline.started(now).queue;
    assert(queue.next_tick == 0);
    law_ticks_are_consecutive(queue, events);
    law_batches_follow_the_ticks(queue, events);
    assert(queue.is_sound());
    crate::queue::laws::law_queue_stays_sound(queue, events);
    assert forall|i: int| 0 <= i < batches_emitted(queue, events).len() implies {
        let batch = #[trigger] batches_emitted(queue, events)[i];
        batch.pts.num == batch.tick * pipeline.queue.framerate.den
    } by {
        let batch = batches_emitted(queue, events)[i];
        assert(batch.tick * queue.framerate.den <= MAX_TICK * 0xFFFF_FFFF) by (nonlinear_arith)
            requires
                batch.tick <= MAX_TICK,
                queue.framerate.den <= 0xFFFF_FFFF,
        ;
    }
}

/// A filter that every element passes changes nothing.
pub proof fn lemma_filter_keeps_all<A>(items: Seq<A>, test: spec_fn(A) -> bool)
    requires
        forall|i: int| 0 <= i < items.len() ==> test(items[i]),
    ensures
        items.filter(test) == items,
    decreases items.len(),
{
    reveal(Seq::filter);
    if items.len() > 0 {
        let head = items.drop_last();
        assert forall|i: int| 0 <= i < head.len() implies test(head[i]) by {
            assert(head[i] == items[i]);
        }
        lemma_filter_keeps_all(head, test);
        assert(head.push(items.last()) =~= items);
    }
}

} // verus!
