//! The render driver's decisions.
//!
//! The driver takes aligned batches from the queue's channel, one after the
//! other. It drops a batch when too many wait behind it, has the renderer
//! draw every other batch, and sends each picture that comes back to the
//! encoder of its output. Receiving, rendering and encoding are the embedding
//! program's work; what to do with each batch and each picture is decided
//! here.

use crate::pipeline::Pipeline;
use crate::pipeline::PipelineModel;
use crate::pipeline::PipelineOutput;
use crate::queue::clock::TickPts;
use crate::queue::frame::AlignedBatch;
use crate::types::OutputId;
use crate::types::Resolution;
use std::sync::Arc;
use vstd::prelude::*;

verus! {

/// The driver drops a batch when more than this many batches wait behind it.
pub const RENDER_BACKLOG_DROP: usize = 20;

/// What the driver does with a batch.
#[derive(Debug, Clone, Copy, PartialEq, Eq, Structural)]
pub enum BatchDecision {
    /// Drop the batch and warn that the render queue is too long.
    Drop,
    /// Have the renderer draw the batch.
    Render,
}

/// What the driver does with a batch behind which `backlog` batches wait.
pub open spec fn decision_for(backlog: nat) -> BatchDecision {
    if backlog > RENDER_BACKLOG_DROP {
        BatchDecision::Drop
    } else {
        BatchDecision::Render
    }
}

/// How many batches the driver drops while it works off `queued` batches
/// with nothing coming in: it takes them one by one, and each finds behind
/// it the batches not yet taken.
pub open spec fn dropped_while_draining(queued: nat) -> nat
    decreases queued,
{
    if queued == 0 {
        0
    } else {
        dropped_while_draining((queued - 1) as nat) + if decision_for((queued - 1) as nat) is Drop {
            1nat
        } else {
            0nat
        }
    }
}

/// The driver sheds load: a batch behind which more than twenty batches wait is
/// dropped, and no other. So of `queued` batches that are worked off with
/// nothing coming in, the driver drops the first `queued - 21` without
/// rendering them, which is at least one whenever the backlog has exceeded
/// twenty; the batch taken after those finds twenty behind it, and from then
/// on every batch is rendered.
pub proof fn law_backlog_recovers(queued: nat, taken: nat)
    requires
        1 <= taken <= queued,
    ensures
        decision_for((queued - taken) as nat) is Drop <==> taken + RENDER_BACKLOG_DROP < queued,
        dropped_while_draining(queued) == if queued > RENDER_BACKLOG_DROP + 1 {
            queued - RENDER_BACKLOG_DROP - 1
        } else {
            0
        },
        queued > RENDER_BACKLOG_DROP + 1 ==> dropped_while_draining(queued) >= 1,
{
    lemma_dropped_while_draining(queued);
}

proof fn lemma_dropped_while_draining(queued: nat)
    ensures
        dropped_while_draining(queued) == if queued > RENDER_BACKLOG_DROP + 1 {
            queued - RENDER_BACKLOG_DROP - 1
        } else {
            0
        },
    decreases queued,
{
    if queued > 0 {
        lemma_dropped_while_draining((queued - 1) as nat);
    }
}

/// `crossbeam_channel::Receiver`, the receiving end of a channel between
/// threads. The library never looks inside one.
#[verifier::external_type_specification]
#[verifier::external_body]
#[verifier::reject_recursive_types(T)]
pub struct ExReceiver<T>(crossbeam_channel::Receiver<T>);

/// `Receiver::len` counts the messages that wait in the channel at the
/// moment of the call. Other threads send and receive meanwhile, so nothing
/// is claimed of the number.
pub assume_specification<T>[ crossbeam_channel::Receiver::<T>::len ](
    receiver: &crossbeam_channel::Receiver<T>,
) -> (len: usize)
;

/// Decides what to do with the batch just received from `frames`: looks how
/// many batches wait behind it in the channel and decides as [`on_batch`]
/// does for that many.
pub fn on_batch_from(frames: &crossbeam_channel::Receiver<AlignedBatch>) -> (decision: BatchDecision)
    ensures
        exists|backlog: nat| decision == decision_for(backlog),
{
    let backlog = frames.len();
    on_batch(backlog)
}

/// Decides what to do with the batch just received, given how many batches
/// wait behind it.
pub fn on_batch(backlog: usize) -> (decision: BatchDecision)
    ensures
        decision == decision_for(backlog as nat),
{
    if backlog > RENDER_BACKLOG_DROP {
        BatchDecision::Drop
    } else {
        BatchDecision::Render
    }
}

/// A picture that the renderer has drawn for an output.
#[derive(Debug)]
pub struct RenderedFrame {
    pub output_id: OutputId,
    pub data: Arc<Vec<u8>>,
    pub resolution: Resolution,
    pub pts: TickPts,
}

/// A picture on its way to the encoder of a registered output.
#[derive(Debug)]
pub struct Delivery {
    pub frame: RenderedFrame,
    pub output: PipelineOutput,
}

/// What becomes of the pictures of one tick.
#[derive(Debug)]
pub struct Routing {
    /// The pictures of registered outputs, each with its output, in the
    /// order in which the renderer gave them.
    pub deliveries: Vec<Delivery>,
    /// The outputs that are not registered, to be logged; their pictures are
    /// skipped.
    pub unknown: Vec<OutputId>,
}

/// What the driver does once the renderer has answered.
#[derive(Debug)]
pub enum Dispatch {
    /// Send the pictures to their encoders and log the unknown outputs.
    Deliver(Routing),
    /// Log the renderer's error; the batch is lost and the driver goes on.
    LogFailure(String),
}

/// The output registered as `id`.
pub open spec fn output_named(pipeline: PipelineModel, id: Seq<char>) -> PipelineOutput {
    let at = choose|i: int| 0 <= i < pipeline.outputs.len() && pipeline.outputs[i].id == id;
    pipeline.outputs[at].output
}

/// The picture with the output that it is for.
pub open spec fn delivery_of(pipeline: PipelineModel) -> spec_fn(RenderedFrame) -> Delivery {
    |frame: RenderedFrame| Delivery { frame, output: output_named(pipeline, frame.output_id@) }
}

/// The picture is for a registered output.
pub open spec fn is_routable(pipeline: PipelineModel) -> spec_fn(RenderedFrame) -> bool {
    |frame: RenderedFrame| pipeline.has_output(frame.output_id@)
}

/// The picture is for an output that is not registered.
pub open spec fn is_stray(pipeline: PipelineModel) -> spec_fn(RenderedFrame) -> bool {
    |frame: RenderedFrame| !pipeline.has_output(frame.output_id@)
}

/// The output that a picture is for.
pub open spec fn target() -> spec_fn(RenderedFrame) -> OutputId {
    |frame: RenderedFrame| frame.output_id
}

impl Pipeline {
    /// Sorts the pictures of one tick: those of registered outputs go to
    /// their encoders, in the renderer's order; those of outputs that are
    /// not registered, which may have left between the scene update and the
    /// render, are named to be logged.
    pub fn route(&self, frames: Vec<RenderedFrame>) -> (routing: Routing)
        requires
            self@.is_sound(),
        ensures
            routing.deliveries@ == frames@.filter(is_routable(self@)).map_values(
                delivery_of(self@),
            ),
            routing.unknown@ == frames@.filter(is_stray(self@)).map_values(target()),
    {
        let ghost given = frames@;
        let ghost routable = is_routable(self@);
        let ghost stray = is_stray(self@);
        let ghost deliver = delivery_of(self@);
        let mut deliveries: Vec<Delivery> = Vec::new();
        let mut unknown: Vec<OutputId> = Vec::new();
        proof {
            reveal(Seq::filter);
            assert(given.take(0).filter(routable) =~= Seq::<RenderedFrame>::empty());
            assert(given.take(0).filter(stray) =~= Seq::<RenderedFrame>::empty());
            assert(deliveries@ =~= given.take(0).filter(routable).map_values(deliver));
            assert(unknown@ =~= given.take(0).filter(stray).map_values(target()));
        }
        for frame in it: frames
            invariant
                it.seq() == given,
                self@.is_sound(),
                routable == is_routable(self@),
                stray == is_stray(self@),
                deliver == delivery_of(self@),
                deliveries@ == given.take(it.index() as int).filter(routable).map_values(deliver),
                unknown@ == given.take(it.index() as int).filter(stray).map_values(target()),
        {
            let ghost head = given.take(it.index() as int);
            proof {
                assert(given.take(it.index() + 1) =~= head.push(frame));
                head.lemma_filter_push(frame, routable);
                head.lemma_filter_push(frame, stray);
            }
            match self.output(&frame.output_id) {
                Some(output) => {
                    proof {
                        let found = choose|i: int|
                            0 <= i < self@.outputs.len() && self@.outputs[i].id
                                == frame.output_id@ && self@.outputs[i].output == output;
                        let named = choose|i: int|
                            0 <= i < self@.outputs.len() && self@.outputs[i].id
                                == frame.output_id@;
                        if found < named {
                            assert(self@.outputs[found].id != self@.outputs[named].id);
                        } else if named < found {
                            assert(self@.outputs[named].id != self@.outputs[found].id);
                        }
                    }
                    deliveries.push(Delivery { frame, output });
                    assert(deliveries@ =~= head.push(frame).filter(routable).map_values(deliver));
                },
                None => {
                    unknown.push(frame.output_id);
                    assert(unknown@ =~= head.push(frame).filter(stray).map_values(target()));
                },
            }
        }
        assert(given.take(given.len() as int) =~= given);
        Routing { deliveries, unknown }
    }

    /// Decides what to do once the renderer has answered: its pictures are
    /// routed, its error is logged.
    pub fn after_render(&self, rendered: Result<Vec<RenderedFrame>, String>) -> (dispatch: Dispatch)
        requires
            self@.is_sound(),
        ensures
            match rendered {
                Ok(frames) => dispatch matches Dispatch::Deliver(routing) && {
                    &&& routing.deliveries@ == frames@.filter(is_routable(self@)).map_values(
                        delivery_of(self@),
                    )
                    &&& routing.unknown@ == frames@.filter(is_stray(self@)).map_values(target())
                },
                Err(error) => dispatch == Dispatch::LogFailure(error),
            },
    {
        match rendered {
            Ok(frames) => Dispatch::Deliver(self.route(frames)),
            Err(error) => Dispatch::LogFailure(error),
        }
    }
}

} // verus!
