//! Feeding, decoding and display taken together: an instance, its queue, the
//! access units that are with the worker and those that the worker has
//! handled since the last feed step, as the host's steps and the worker's
//! decodes come in any order.

use crate::playback::{H264RestartEvent, LoadStatus, Playback};
use crate::queue::{VideoFrame, BUF_SIZE};
use vstd::prelude::*;

verus! {

/// One thing that happens to the pipeline of an instance.
pub enum PipelineEvent {
    /// The load check of a tick; `video` is the number of access units of the
    /// video where the video can be had.
    Load { status: LoadStatus, video: Option<nat> },
    /// The display step of a tick.
    Show { id: u64, delta: nat, target: Option<(usize, usize)> },
    /// The feed step of a tick, for a video of `units` access units.
    Feed { units: nat },
    /// The restart step of a tick, for one request.
    Restart { id: u64, event: H264RestartEvent },
    /// A request to pause.
    Pause,
    /// A request to go on.
    Resume,
    /// The teardown of the instance.
    Teardown,
    /// The worker has handled the oldest unit it was given, with a frame or
    /// without one.
    Decoded { frame: Option<VideoFrame> },
}

/// An instance with what is on its way to the display.
pub struct Pipeline {
    pub playback: Playback,
    /// The frames in the queue.
    pub queue: Seq<VideoFrame>,
    /// Access units that were submitted and that the worker has not handled.
    pub working: nat,
    /// Access units that the worker has handled since the last feed step.
    pub handled: nat,
}

impl Pipeline {
    /// The instance counts as in flight what is with the worker and what the
    /// worker has handled since the last feed step, and the queue has room for
    /// a frame of every unit that is with the worker.
    pub open spec fn sound(self) -> bool {
        &&& self.playback.wf()
        &&& self.playback.in_flight == self.working + self.handled
        &&& self.queue.len() + self.working <= BUF_SIZE
    }

    /// A new instance with nothing on its way.
    pub open spec fn created(playback: Playback) -> Pipeline {
        Pipeline { playback, queue: Seq::empty(), working: 0, handled: 0 }
    }

    /// The pipeline after one event.
    pub open spec fn after(self, event: PipelineEvent) -> Pipeline {
        match event {
            PipelineEvent::Load { status, video } => Pipeline {
                playback: self.playback.loaded(status, video),
                ..self
            },
            PipelineEvent::Show { id, delta, target } => Pipeline {
                playback: self.playback.tick(id, delta, self.queue, target).0,
                queue: self.playback.tick(id, delta, self.queue, target).1,
                ..self
            },
            PipelineEvent::Feed { units } => Pipeline {
                playback: self.playback.settled(self.handled).fed(self.queue.len(), units),
                working: self.working + self.playback.settled(self.handled).quota(
                    self.queue.len(),
                    units,
                ),
                handled: 0,
                ..self
            },
            PipelineEvent::Restart { id, event } => Pipeline {
                playback: self.playback.restarted(id, event),
                queue: self.playback.restarted_queue(id, event, self.queue),
                ..self
            },
            PipelineEvent::Pause => Pipeline { playback: self.playback.paused(), ..self },
            PipelineEvent::Resume => Pipeline { playback: self.playback.resumed(), ..self },
            PipelineEvent::Teardown => Pipeline { playback: self.playback.torn_down(), ..self },
            PipelineEvent::Decoded { frame } => if self.working == 0 {
                self
            } else {
                Pipeline {
                    queue: match frame {
                        Some(frame) => self.queue.push(frame),
                        None => self.queue,
                    },
                    working: (self.working - 1) as nat,
                    handled: self.handled + 1,
                    ..self
                }
            },
        }
    }

    /// The pipeline after `events`, in their order.
    pub open spec fn after_all(self, events: Seq<PipelineEvent>) -> Pipeline
        decreases events.len(),
    {
        if events.len() == 0 {
            self
        } else {
            self.after_all(events.drop_last()).after(events.last())
        }
    }

    /// Every event keeps a sound pipeline sound.
    pub proof fn lemma_event_keeps_sound(self, event: PipelineEvent)
        requires
            self.sound(),
        ensures
            self.after(event).sound(),
    {
    }

    /// Backpressure: whatever the host's steps and however late the worker is
    /// with each unit, the queue never holds more than `BUF_SIZE` frames, and
    /// always has room for a frame of every unit that is with the worker.
    pub proof fn lemma_backpressure(self, events: Seq<PipelineEvent>)
        requires
            self.sound(),
        ensures
            self.after_all(events).sound(),
            self.after_all(events).queue.len() + self.after_all(events).working <= BUF_SIZE,
            self.after_all(events).queue.len() <= BUF_SIZE,
        decreases events.len(),
    {
        if events.len() > 0 {
            self.lemma_backpressure(events.drop_last());
            self.after_all(events.drop_last()).lemma_event_keeps_sound(events.last());
        }
    }

    /// A new instance with nothing on its way is sound: backpressure holds
    /// from the start.
    pub proof fn lemma_created_sound(playback: Playback)
        requires
            playback.wf(),
            playback.in_flight == 0,
        ensures
            Pipeline::created(playback).sound(),
    {
    }
}

} // verus!
