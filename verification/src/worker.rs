//! The decode worker: what it does with each message it is sent.
//!
//! The worker owns one decoder for its whole life. It takes messages in the
//! order in which they were sent, turns each submitted access unit into at
//! most one frame, and leaves at the first `Stop`.

use crate::color::YuvPlanes;
use crate::queue::VideoFrame;
use openh264::decoder::{Decoder, DecoderConfig};
use vstd::prelude::*;

verus! {

/// What is sent to a decode worker.
#[derive(Debug, PartialEq, Eq)]
pub enum DecoderMessage {
    /// One access unit to decode.
    Frame(Vec<u8>),
    /// Leave, without looking at anything sent after this.
    Stop,
}

/// A message as a plain value.
pub enum MessageView {
    Frame(Seq<u8>),
    Stop,
}

impl View for DecoderMessage {
    type V = MessageView;

    open spec fn view(&self) -> MessageView {
        match self {
            DecoderMessage::Frame(unit) => MessageView::Frame(unit@),
            DecoderMessage::Stop => MessageView::Stop,
        }
    }
}

/// What the worker did with one message.
#[derive(Debug, PartialEq, Eq)]
pub enum WorkerStep {
    /// The message was `Stop`: the worker leaves.
    Exit,
    /// The unit gave no picture: it held none yet, or it did not decode.
    NoFrame,
    /// The unit completed a picture, which goes to the back of the queue.
    Frame(VideoFrame),
}

/// What decoding one access unit gave.
#[derive(Debug)]
pub enum Decoded {
    /// A picture.
    Picture(YuvPlanes),
    /// No picture yet: the decoder wants more data.
    Nothing,
    /// The unit did not decode.
    Failed,
}

/// The step that follows from what decoding a unit gave: a frame for a
/// picture whose planes hold all its samples, and none otherwise.
pub open spec fn step_for(decoded: Decoded, step: WorkerStep) -> bool {
    match decoded {
        Decoded::Picture(planes) => if planes.covered() {
            &&& step matches WorkerStep::Frame(frame)
            &&& frame.buffer@ == planes.bgra8()
            &&& frame.width == planes.width
            &&& frame.height == planes.height
        } else {
            step is NoFrame
        },
        Decoded::Nothing => step is NoFrame,
        Decoded::Failed => step is NoFrame,
    }
}

/// Turns what decoding a unit gave into the worker's step.
pub fn step_after(decoded: Decoded) -> (step: WorkerStep)
    ensures
        step_for(decoded, step),
        step matches WorkerStep::Frame(frame) ==> frame.packed(),
{
    match decoded {
        Decoded::Picture(planes) => {
            if planes.covers() {
                let buffer = planes.write_bgra8();
                WorkerStep::Frame(VideoFrame { buffer, width: planes.width, height: planes.height })
            } else {
                WorkerStep::NoFrame
            }
        },
        Decoded::Nothing => WorkerStep::NoFrame,
        Decoded::Failed => WorkerStep::NoFrame,
    }
}

/// How many messages a worker takes off a channel that holds `messages` in
/// this order: those up to the first `Stop`, and the `Stop` itself.
pub open spec fn polls(messages: Seq<DecoderMessage>) -> nat
    decreases messages.len(),
{
    if messages.len() == 0 {
        0
    } else if messages.first() is Stop {
        1
    } else {
        1 + polls(messages.drop_first())
    }
}

/// The frames among the steps of a worker, in the order of the steps.
pub open spec fn frames_of(steps: Seq<WorkerStep>) -> Seq<VideoFrame>
    decreases steps.len(),
{
    if steps.len() == 0 {
        Seq::empty()
    } else {
        match steps.last() {
            WorkerStep::Frame(frame) => frames_of(steps.drop_last()).push(frame),
            _ => frames_of(steps.drop_last()),
        }
    }
}

/// The queue after each frame among `steps` was pushed to its back, in the
/// order of the steps.
pub open spec fn delivered(queue: Seq<VideoFrame>, steps: Seq<WorkerStep>) -> Seq<VideoFrame>
    decreases steps.len(),
{
    if steps.len() == 0 {
        queue
    } else {
        match steps.last() {
            WorkerStep::Frame(frame) => delivered(queue, steps.drop_last()).push(frame),
            _ => delivered(queue, steps.drop_last()),
        }
    }
}

/// Teardown: whatever was submitted before, a worker that is sent `Stop`
/// leaves when it has taken the submissions ahead of the `Stop` and the `Stop`
/// itself. Nothing sent later is looked at.
pub proof fn lemma_stop_ends_worker(history: Seq<DecoderMessage>, later: Seq<DecoderMessage>)
    requires
        forall|i: int| 0 <= i < history.len() ==> history[i] is Frame,
    ensures
        polls(history + seq![DecoderMessage::Stop] + later) == history.len() + 1,
    decreases history.len(),
{
    let messages = history + seq![DecoderMessage::Stop] + later;
    if history.len() == 0 {
        assert(messages.first() is Stop);
    } else {
        assert(messages.first() == history[0]);
        assert(messages.drop_first() =~= history.drop_first() + seq![DecoderMessage::Stop]
            + later);
        lemma_stop_ends_worker(history.drop_first(), later);
    }
}

/// The queue receives the frames of the worker's steps behind what it held,
/// in the order of the steps, and nothing else.
pub proof fn lemma_delivered(queue: Seq<VideoFrame>, steps: Seq<WorkerStep>)
    ensures
        delivered(queue, steps) == queue + frames_of(steps),
    decreases steps.len(),
{
    if steps.len() == 0 {
        assert(queue + frames_of(steps) =~= queue);
    } else {
        lemma_delivered(queue, steps.drop_last());
        assert(delivered(queue, steps) =~= queue + frames_of(steps));
    }
}

/// Order preservation: where each of the units gave a frame, the queue
/// receives exactly those frames, one for each unit and in the units' order.
pub proof fn lemma_order_preserved(queue: Seq<VideoFrame>, steps: Seq<WorkerStep>)
    requires
        forall|i: int| 0 <= i < steps.len() ==> steps[i] is Frame,
    ensures
        delivered(queue, steps).len() == queue.len() + steps.len(),
        forall|i: int| 0 <= i < queue.len() ==> delivered(queue, steps)[i] == queue[i],
        forall|i: int|
            0 <= i < steps.len() ==> WorkerStep::Frame(delivered(queue, steps)[queue.len() + i])
                == #[trigger] steps[i],
    decreases steps.len(),
{
    if steps.len() > 0 {
        let before = steps.drop_last();
        lemma_order_preserved(queue, before);
        assert forall|i: int| 0 <= i < steps.len() implies WorkerStep::Frame(
            delivered(queue, steps)[queue.len() + i],
        ) == #[trigger] steps[i] by {
            if i < before.len() {
                assert(before[i] == steps[i]);
            }
        }
    }
}

/// Why a worker could not be made.
#[derive(Debug)]
pub enum DecodeWorkerError {
    /// The decoder could not be set up.
    Decoder(openh264::Error),
}

/// A decode worker's state: its decoder.
pub struct DecodeWorker {
    decoder: Decoder,
}

impl DecodeWorker {
    /// A worker with a fresh decoder, or the decoder's error.
    pub fn new() -> (worker: Result<DecodeWorker, DecodeWorkerError>) {
        Self::made_from(create_decoder())
    }

    /// The worker's decoder.
    pub closed spec fn decoder(&self) -> Decoder {
        self.decoder
    }

    /// The worker that follows from what setting up a decoder gave: one that
    /// owns the decoder, or the error of the setup.
    pub fn made_from(setup: Result<Decoder, openh264::Error>) -> (worker: Result<
        DecodeWorker,
        DecodeWorkerError,
    >)
        ensures
            match setup {
                Ok(decoder) => worker is Ok && worker->Ok_0.decoder() == decoder,
                Err(error) => worker == Err::<DecodeWorker, _>(DecodeWorkerError::Decoder(error)),
            },
    {
        match setup {
            Ok(decoder) => Ok(DecodeWorker { decoder }),
            Err(error) => Err(DecodeWorkerError::Decoder(error)),
        }
    }

    /// Handles one message. `Stop` ends the worker and nothing else does. A
    /// unit is decoded, and what the decoder gives for it decides the step as
    /// [`step_after`] says.
    pub fn handle(&mut self, message: DecoderMessage) -> (step: WorkerStep)
        ensures
            step is Exit <==> message is Stop,
            message is Frame ==> exists|decoded: Decoded| #[trigger] step_for(decoded, step),
            step matches WorkerStep::Frame(frame) ==> frame.packed(),
    {
        match message {
            DecoderMessage::Stop => WorkerStep::Exit,
            DecoderMessage::Frame(unit) => {
                let decoded = match decode_unit(&mut self.decoder, unit.as_slice()) {
                    Ok(Some(planes)) => Decoded::Picture(planes),
                    Ok(None) => Decoded::Nothing,
                    Err(_) => Decoded::Failed,
                };
                let step = step_after(decoded);
                assert(step_for(decoded, step));
                step
            },
        }
    }
}

/// `openh264::decoder::Decoder`, the decoder's state.
#[verifier::external_type_specification]
#[verifier::external_body]
pub struct ExDecoder(openh264::decoder::Decoder);

/// `openh264::Error`, carried through unread.
#[verifier::external_type_specification]
#[verifier::external_body]
pub struct ExDecoderError(openh264::Error);

/// `Decoder::with_config` on `DecoderConfig::new()`. Nothing is known of the
/// outcome.
#[verifier::external_body]
fn create_decoder() -> (decoder: Result<Decoder, openh264::Error>) {
    Decoder::with_config(DecoderConfig::new())
}

/// `Decoder::decode`, with the picture's planes, strides and size copied out.
/// Nothing is known of the outcome: it depends on all that the decoder was
/// given before.
#[verifier::external_body]
fn decode_unit(decoder: &mut Decoder, unit: &[u8]) -> (decoded: Result<
    Option<YuvPlanes>,
    openh264::Error,
>) {
    match decoder.decode(unit)? {
        Some(yuv) => Ok(Some(YuvPlanes {
            y: yuv.y_with_stride().to_vec(),
            u: yuv.u_with_stride().to_vec(),
            v: yuv.v_with_stride().to_vec(),
            stride_y: yuv.strides_yuv().0,
            stride_u: yuv.strides_yuv().1,
            stride_v: yuv.strides_yuv().2,
            width: yuv.dimension_rgb().0,
            height: yuv.dimension_rgb().1,
        })),
        None => Ok(None),
    }
}

} // verus!
