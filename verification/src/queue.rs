//! Decoded frames and the queue that holds them between decoding and display.

use std::collections::VecDeque;
use vstd::prelude::*;

verus! {

/// How many decoded frames playback keeps ready ahead of display.
pub const BUF_SIZE: usize = 10;

/// One decoded picture, packed as BGRA8.
#[derive(Debug, PartialEq, Eq)]
pub struct VideoFrame {
    pub buffer: Vec<u8>,
    pub width: usize,
    pub height: usize,
}

impl VideoFrame {
    /// The buffer holds four bytes for each pixel.
    pub open spec fn packed(&self) -> bool {
        self.buffer@.len() == self.width * self.height * 4
    }
}

/// The queue after `count` takes from its front.
pub open spec fn taken(queue: Seq<VideoFrame>, count: nat) -> Seq<VideoFrame>
    decreases count,
{
    if count == 0 {
        queue
    } else {
        taken(queue, (count - 1) as nat).drop_first()
    }
}

/// First in, first out: the take after `count` others gives the frame that
/// stood at position `count`, and leaves the frames behind it in their order.
pub proof fn lemma_first_in_first_out(queue: Seq<VideoFrame>, count: nat)
    requires
        count < queue.len(),
    ensures
        taken(queue, count).first() == queue[count as int],
        taken(queue, count + 1) == queue.subrange(count as int + 1, queue.len() as int),
    decreases count,
{
    if count == 0 {
        assert(taken(queue, 1) == taken(queue, 0).drop_first());
        assert(queue.drop_first() =~= queue.subrange(1, queue.len() as int));
    } else {
        lemma_first_in_first_out(queue, (count - 1) as nat);
        let before = taken(queue, count);
        assert(before == queue.subrange(count as int, queue.len() as int));
        assert(taken(queue, count + 1) == before.drop_first());
        assert(before.drop_first() =~= queue.subrange(count as int + 1, queue.len() as int));
    }
}

/// Frames in the order in which they were decoded. The queue itself never
/// turns a frame away: whoever feeds the decoder keeps it short.
#[derive(Debug)]
pub struct FrameQueue {
    frames: VecDeque<VideoFrame>,
}

impl View for FrameQueue {
    type V = Seq<VideoFrame>;

    closed spec fn view(&self) -> Seq<VideoFrame> {
        self.frames@
    }
}

impl FrameQueue {
    /// An empty queue.
    pub fn new() -> (queue: FrameQueue)
        ensures
            queue@ == Seq::<VideoFrame>::empty(),
    {
        FrameQueue { frames: VecDeque::with_capacity(BUF_SIZE + 1) }
    }

    /// Puts a frame behind all that are queued.
    pub fn push_back(&mut self, frame: VideoFrame)
        ensures
            final(self)@ == old(self)@.push(frame),
    {
        self.frames.push_back(frame);
    }

    /// Takes the oldest frame, or `None` from an empty queue, which it leaves
    /// as it is.
    pub fn pop_front(&mut self) -> (frame: Option<VideoFrame>)
        ensures
            old(self)@.len() == 0 ==> frame is None && final(self)@ == old(self)@,
            old(self)@.len() > 0 ==> frame == Some(old(self)@.first()) && final(self)@ == old(
                self,
            )@.drop_first(),
    {
        let frame = self.frames.pop_front();
        proof {
            if old(self)@.len() > 0 {
                assert(final(self)@ =~= old(self)@.drop_first());
            }
        }
        frame
    }

    /// Drops every queued frame.
    pub fn clear(&mut self)
        ensures
            final(self)@ == Seq::<VideoFrame>::empty(),
    {
        self.frames.clear();
    }

    /// The number of queued frames.
    pub fn len(&self) -> (count: usize)
        ensures
            count == self@.len(),
    {
        self.frames.len()
    }
}

} // verus!
